//! The starting decks: how many cards of each kind a game begins with,
//! depending on how many players sit at the table.

use vstd::prelude::*;

use super::card::{kind_at, CardKind, KIND_COUNT};
use super::counts::{
    counts_of, lemma_counts_of_covers, lemma_counts_of_in_order, lemma_total_written_out,
    total_count,
};

verus! {

/// Whether a starting deck is defined for this number of players.
pub open spec fn supported_player_count(player_count: u8) -> bool {
    4 <= player_count <= 12
}

/// Picks the count that belongs to `player_count` out of the counts of one
/// kind, which are given for 4, 5, 6, 7, 8, 9, 10 and for 11 or 12 players.
pub open spec fn for_players(
    player_count: u8,
    four: nat,
    five: nat,
    six: nat,
    seven: nat,
    eight: nat,
    nine: nat,
    ten: nat,
    more: nat,
) -> nat {
    if player_count == 4 {
        four
    } else if player_count == 5 {
        five
    } else if player_count == 6 {
        six
    } else if player_count == 7 {
        seven
    } else if player_count == 8 {
        eight
    } else if player_count == 9 {
        nine
    } else if player_count == 10 {
        ten
    } else if player_count == 11 || player_count == 12 {
        more
    } else {
        0
    }
}

/// How many cards of `kind` the starting deck for `player_count` players
/// holds. One line per kind; the deck grows with the table.
pub open spec fn preset_count(player_count: u8, kind: CardKind) -> nat {
    match kind {
        CardKind::TheThing => for_players(player_count, 1, 1, 1, 1, 1, 1, 1, 1),
        CardKind::Infected => for_players(player_count, 8, 8, 10, 12, 13, 15, 17, 20),
        CardKind::Flamethrower => for_players(player_count, 2, 2, 3, 3, 3, 4, 4, 5),
        CardKind::Analysis => for_players(player_count, 0, 1, 2, 2, 2, 3, 3, 3),
        CardKind::Axe => for_players(player_count, 1, 1, 1, 1, 1, 2, 2, 2),
        CardKind::Suspicious => for_players(player_count, 4, 4, 4, 5, 6, 7, 8, 8),
        CardKind::Whiskey => for_players(player_count, 1, 1, 2, 2, 2, 2, 3, 3),
        CardKind::Resolute => for_players(player_count, 2, 2, 3, 3, 3, 4, 5, 5),
        CardKind::WatchYourBack => for_players(player_count, 1, 1, 1, 1, 1, 2, 2, 2),
        CardKind::ChangePlaces => for_players(player_count, 2, 2, 2, 3, 3, 4, 4, 5),
        CardKind::YoudBetterRun => for_players(player_count, 2, 2, 2, 3, 3, 4, 4, 5),
        CardKind::Seduction => for_players(player_count, 2, 2, 3, 4, 5, 5, 6, 7),
        CardKind::Scary => for_players(player_count, 0, 1, 2, 2, 3, 3, 3, 4),
        CardKind::ImComfortable => for_players(player_count, 1, 1, 2, 2, 2, 2, 2, 3),
        CardKind::NoThanks => for_players(player_count, 1, 1, 2, 2, 3, 3, 3, 4),
        CardKind::Missed => for_players(player_count, 1, 1, 2, 2, 2, 2, 2, 3),
        CardKind::NoBBQ => for_players(player_count, 1, 1, 2, 2, 2, 2, 2, 3),
        CardKind::Quarantine => for_players(player_count, 0, 1, 1, 1, 1, 2, 2, 2),
        CardKind::BarredDoor => for_players(player_count, 1, 1, 1, 2, 2, 2, 2, 3),
        CardKind::RottenRopes => for_players(player_count, 0, 0, 1, 1, 1, 2, 2, 2),
        CardKind::OneTwo => for_players(player_count, 0, 1, 1, 1, 1, 2, 2, 2),
        CardKind::ThreeFour => for_players(player_count, 1, 1, 1, 1, 1, 2, 2, 2),
        CardKind::SoThisIsTheParty => for_players(player_count, 0, 1, 1, 1, 1, 2, 2, 2),
        CardKind::OutOfHere => for_players(player_count, 0, 1, 1, 1, 1, 1, 1, 1),
        CardKind::Forgetful => for_players(player_count, 1, 1, 1, 1, 1, 1, 1, 1),
        CardKind::RoundAndRound => for_players(player_count, 1, 1, 1, 1, 1, 2, 2, 2),
        CardKind::CantWeBeFriends => for_players(player_count, 0, 0, 0, 1, 1, 2, 2, 2),
        CardKind::BlindDate => for_players(player_count, 1, 1, 1, 1, 1, 2, 2, 2),
        CardKind::Ooops => for_players(player_count, 0, 0, 0, 0, 0, 0, 1, 1),
        CardKind::BetweenUs => for_players(player_count, 0, 0, 0, 1, 1, 2, 2, 2),
        CardKind::Revelations => for_players(player_count, 0, 0, 0, 0, 1, 1, 1, 1),
    }
}

/// The starting deck for `player_count` players, as counts.
pub open spec fn preset(player_count: u8) -> Map<CardKind, nat> {
    Map::total(|kind: CardKind| preset_count(player_count, kind))
}

/// How many cards the starting deck for `player_count` players holds in all.
pub open spec fn preset_total(player_count: u8) -> nat {
    for_players(player_count, 35, 41, 54, 63, 69, 88, 95, 108)
}

/// Whether `pairs` lists every kind once, in the declaration order, each with
/// its count in the starting deck for `player_count` players.
pub open spec fn lists_preset(pairs: Seq<(CardKind, u8)>, player_count: u8) -> bool {
    &&& pairs.len() == KIND_COUNT
    &&& forall|i: int|
        0 <= i < KIND_COUNT ==> (#[trigger] pairs[i]).0 == kind_at(i) && pairs[i].1
            == preset_count(player_count, kind_at(i))
}

/// The starting deck for `player_count` players as a list of kinds and
/// counts, or `None` where no starting deck is defined for that many.
pub fn player_count_to_card_counts(player_count: u8) -> (card_counts: Option<Vec<(CardKind, u8)>>)
    ensures
        card_counts.is_some() <==> supported_player_count(player_count),
        card_counts matches Some(pairs) ==> lists_preset(pairs@, player_count) && counts_of(pairs@)
            == preset(player_count),
{
    let listed = match player_count {
        4 => Some(vec![
            (CardKind::TheThing, 1u8),
            (CardKind::Infected, 8u8),
            (CardKind::Flamethrower, 2u8),
            (CardKind::Analysis, 0u8),
            (CardKind::Axe, 1u8),
            (CardKind::Suspicious, 4u8),
            (CardKind::Whiskey, 1u8),
            (CardKind::Resolute, 2u8),
            (CardKind::WatchYourBack, 1u8),
            (CardKind::ChangePlaces, 2u8),
            (CardKind::YoudBetterRun, 2u8),
            (CardKind::Seduction, 2u8),
            (CardKind::Scary, 0u8),
            (CardKind::ImComfortable, 1u8),
            (CardKind::NoThanks, 1u8),
            (CardKind::Missed, 1u8),
            (CardKind::NoBBQ, 1u8),
            (CardKind::Quarantine, 0u8),
            (CardKind::BarredDoor, 1u8),
            (CardKind::RottenRopes, 0u8),
            (CardKind::OneTwo, 0u8),
            (CardKind::ThreeFour, 1u8),
            (CardKind::SoThisIsTheParty, 0u8),
            (CardKind::OutOfHere, 0u8),
            (CardKind::Forgetful, 1u8),
            (CardKind::RoundAndRound, 1u8),
            (CardKind::CantWeBeFriends, 0u8),
            (CardKind::BlindDate, 1u8),
            (CardKind::Ooops, 0u8),
            (CardKind::BetweenUs, 0u8),
            (CardKind::Revelations, 0u8),
        ]),
        5 => Some(vec![
            (CardKind::TheThing, 1u8),
            (CardKind::Infected, 8u8),
            (CardKind::Flamethrower, 2u8),
            (CardKind::Analysis, 1u8),
            (CardKind::Axe, 1u8),
            (CardKind::Suspicious, 4u8),
            (CardKind::Whiskey, 1u8),
            (CardKind::Resolute, 2u8),
            (CardKind::WatchYourBack, 1u8),
            (CardKind::ChangePlaces, 2u8),
            (CardKind::YoudBetterRun, 2u8),
            (CardKind::Seduction, 2u8),
            (CardKind::Scary, 1u8),
            (CardKind::ImComfortable, 1u8),
            (CardKind::NoThanks, 1u8),
            (CardKind::Missed, 1u8),
            (CardKind::NoBBQ, 1u8),
            (CardKind::Quarantine, 1u8),
            (CardKind::BarredDoor, 1u8),
            (CardKind::RottenRopes, 0u8),
            (CardKind::OneTwo, 1u8),
            (CardKind::ThreeFour, 1u8),
            (CardKind::SoThisIsTheParty, 1u8),
            (CardKind::OutOfHere, 1u8),
            (CardKind::Forgetful, 1u8),
            (CardKind::RoundAndRound, 1u8),
            (CardKind::CantWeBeFriends, 0u8),
            (CardKind::BlindDate, 1u8),
            (CardKind::Ooops, 0u8),
            (CardKind::BetweenUs, 0u8),
            (CardKind::Revelations, 0u8),
        ]),
        6 => Some(vec![
            (CardKind::TheThing, 1u8),
            (CardKind::Infected, 10u8),
            (CardKind::Flamethrower, 3u8),
            (CardKind::Analysis, 2u8),
            (CardKind::Axe, 1u8),
            (CardKind::Suspicious, 4u8),
            (CardKind::Whiskey, 2u8),
            (CardKind::Resolute, 3u8),
            (CardKind::WatchYourBack, 1u8),
            (CardKind::ChangePlaces, 2u8),
            (CardKind::YoudBetterRun, 2u8),
            (CardKind::Seduction, 3u8),
            (CardKind::Scary, 2u8),
            (CardKind::ImComfortable, 2u8),
            (CardKind::NoThanks, 2u8),
            (CardKind::Missed, 2u8),
            (CardKind::NoBBQ, 2u8),
            (CardKind::Quarantine, 1u8),
            (CardKind::BarredDoor, 1u8),
            (CardKind::RottenRopes, 1u8),
            (CardKind::OneTwo, 1u8),
            (CardKind::ThreeFour, 1u8),
            (CardKind::SoThisIsTheParty, 1u8),
            (CardKind::OutOfHere, 1u8),
            (CardKind::Forgetful, 1u8),
            (CardKind::RoundAndRound, 1u8),
            (CardKind::CantWeBeFriends, 0u8),
            (CardKind::BlindDate, 1u8),
            (CardKind::Ooops, 0u8),
            (CardKind::BetweenUs, 0u8),
            (CardKind::Revelations, 0u8),
        ]),
        7 => Some(vec![
            (CardKind::TheThing, 1u8),
            (CardKind::Infected, 12u8),
            (CardKind::Flamethrower, 3u8),
            (CardKind::Analysis, 2u8),
            (CardKind::Axe, 1u8),
            (CardKind::Suspicious, 5u8),
            (CardKind::Whiskey, 2u8),
            (CardKind::Resolute, 3u8),
            (CardKind::WatchYourBack, 1u8),
            (CardKind::ChangePlaces, 3u8),
            (CardKind::YoudBetterRun, 3u8),
            (CardKind::Seduction, 4u8),
            (CardKind::Scary, 2u8),
            (CardKind::ImComfortable, 2u8),
            (CardKind::NoThanks, 2u8),
            (CardKind::Missed, 2u8),
            (CardKind::NoBBQ, 2u8),
            (CardKind::Quarantine, 1u8),
            (CardKind::BarredDoor, 2u8),
            (CardKind::RottenRopes, 1u8),
            (CardKind::OneTwo, 1u8),
            (CardKind::ThreeFour, 1u8),
            (CardKind::SoThisIsTheParty, 1u8),
            (CardKind::OutOfHere, 1u8),
            (CardKind::Forgetful, 1u8),
            (CardKind::RoundAndRound, 1u8),
            (CardKind::CantWeBeFriends, 1u8),
            (CardKind::BlindDate, 1u8),
            (CardKind::Ooops, 0u8),
            (CardKind::BetweenUs, 1u8),
            (CardKind::Revelations, 0u8),
        ]),
        8 => Some(vec![
            (CardKind::TheThing, 1u8),
            (CardKind::Infected, 13u8),
            (CardKind::Flamethrower, 3u8),
            (CardKind::Analysis, 2u8),
            (CardKind::Axe, 1u8),
            (CardKind::Suspicious, 6u8),
            (CardKind::Whiskey, 2u8),
            (CardKind::Resolute, 3u8),
            (CardKind::WatchYourBack, 1u8),
            (CardKind::ChangePlaces, 3u8),
            (CardKind::YoudBetterRun, 3u8),
            (CardKind::Seduction, 5u8),
            (CardKind::Scary, 3u8),
            (CardKind::ImComfortable, 2u8),
            (CardKind::NoThanks, 3u8),
            (CardKind::Missed, 2u8),
            (CardKind::NoBBQ, 2u8),
            (CardKind::Quarantine, 1u8),
            (CardKind::BarredDoor, 2u8),
            (CardKind::RottenRopes, 1u8),
            (CardKind::OneTwo, 1u8),
            (CardKind::ThreeFour, 1u8),
            (CardKind::SoThisIsTheParty, 1u8),
            (CardKind::OutOfHere, 1u8),
            (CardKind::Forgetful, 1u8),
            (CardKind::RoundAndRound, 1u8),
            (CardKind::CantWeBeFriends, 1u8),
            (CardKind::BlindDate, 1u8),
            (CardKind::Ooops, 0u8),
            (CardKind::BetweenUs, 1u8),
            (CardKind::Revelations, 1u8),
        ]),
        9 => Some(vec![
            (CardKind::TheThing, 1u8),
            (CardKind::Infected, 15u8),
            (CardKind::Flamethrower, 4u8),
            (CardKind::Analysis, 3u8),
            (CardKind::Axe, 2u8),
            (CardKind::Suspicious, 7u8),
            (CardKind::Whiskey, 2u8),
            (CardKind::Resolute, 4u8),
            (CardKind::WatchYourBack, 2u8),
            (CardKind::ChangePlaces, 4u8),
            (CardKind::YoudBetterRun, 4u8),
            (CardKind::Seduction, 5u8),
            (CardKind::Scary, 3u8),
            (CardKind::ImComfortable, 2u8),
            (CardKind::NoThanks, 3u8),
            (CardKind::Missed, 2u8),
            (CardKind::NoBBQ, 2u8),
            (CardKind::Quarantine, 2u8),
            (CardKind::BarredDoor, 2u8),
            (CardKind::RottenRopes, 2u8),
            (CardKind::OneTwo, 2u8),
            (CardKind::ThreeFour, 2u8),
            (CardKind::SoThisIsTheParty, 2u8),
            (CardKind::OutOfHere, 1u8),
            (CardKind::Forgetful, 1u8),
            (CardKind::RoundAndRound, 2u8),
            (CardKind::CantWeBeFriends, 2u8),
            (CardKind::BlindDate, 2u8),
            (CardKind::Ooops, 0u8),
            (CardKind::BetweenUs, 2u8),
            (CardKind::Revelations, 1u8),
        ]),
        10 => Some(vec![
            (CardKind::TheThing, 1u8),
            (CardKind::Infected, 17u8),
            (CardKind::Flamethrower, 4u8),
            (CardKind::Analysis, 3u8),
            (CardKind::Axe, 2u8),
            (CardKind::Suspicious, 8u8),
            (CardKind::Whiskey, 3u8),
            (CardKind::Resolute, 5u8),
            (CardKind::WatchYourBack, 2u8),
            (CardKind::ChangePlaces, 4u8),
            (CardKind::YoudBetterRun, 4u8),
            (CardKind::Seduction, 6u8),
            (CardKind::Scary, 3u8),
            (CardKind::ImComfortable, 2u8),
            (CardKind::NoThanks, 3u8),
            (CardKind::Missed, 2u8),
            (CardKind::NoBBQ, 2u8),
            (CardKind::Quarantine, 2u8),
            (CardKind::BarredDoor, 2u8),
            (CardKind::RottenRopes, 2u8),
            (CardKind::OneTwo, 2u8),
            (CardKind::ThreeFour, 2u8),
            (CardKind::SoThisIsTheParty, 2u8),
            (CardKind::OutOfHere, 1u8),
            (CardKind::Forgetful, 1u8),
            (CardKind::RoundAndRound, 2u8),
            (CardKind::CantWeBeFriends, 2u8),
            (CardKind::BlindDate, 2u8),
            (CardKind::Ooops, 1u8),
            (CardKind::BetweenUs, 2u8),
            (CardKind::Revelations, 1u8),
        ]),
        11 | 12 => Some(vec![
            (CardKind::TheThing, 1u8),
            (CardKind::Infected, 20u8),
            (CardKind::Flamethrower, 5u8),
            (CardKind::Analysis, 3u8),
            (CardKind::Axe, 2u8),
            (CardKind::Suspicious, 8u8),
            (CardKind::Whiskey, 3u8),
            (CardKind::Resolute, 5u8),
            (CardKind::WatchYourBack, 2u8),
            (CardKind::ChangePlaces, 5u8),
            (CardKind::YoudBetterRun, 5u8),
            (CardKind::Seduction, 7u8),
            (CardKind::Scary, 4u8),
            (CardKind::ImComfortable, 3u8),
            (CardKind::NoThanks, 4u8),
            (CardKind::Missed, 3u8),
            (CardKind::NoBBQ, 3u8),
            (CardKind::Quarantine, 2u8),
            (CardKind::BarredDoor, 3u8),
            (CardKind::RottenRopes, 2u8),
            (CardKind::OneTwo, 2u8),
            (CardKind::ThreeFour, 2u8),
            (CardKind::SoThisIsTheParty, 2u8),
            (CardKind::OutOfHere, 1u8),
            (CardKind::Forgetful, 1u8),
            (CardKind::RoundAndRound, 2u8),
            (CardKind::CantWeBeFriends, 2u8),
            (CardKind::BlindDate, 2u8),
            (CardKind::Ooops, 1u8),
            (CardKind::BetweenUs, 2u8),
            (CardKind::Revelations, 1u8),
        ]),
        _ => None,
    };
    proof {
        if listed.is_some() {
            lemma_lists_preset_counts(listed.unwrap()@, player_count);
        }
    }
    listed
}

/// A list of the starting deck describes exactly the starting deck's counts.
pub proof fn lemma_lists_preset_counts(pairs: Seq<(CardKind, u8)>, player_count: u8)
    requires
        lists_preset(pairs, player_count),
    ensures
        counts_of(pairs) == preset(player_count),
{
    let described = counts_of(pairs);
    lemma_counts_of_covers(pairs);
    assert(pairs.take(KIND_COUNT as int) =~= pairs);
    assert forall|kind: CardKind| #[trigger] described[kind] == preset(player_count)[kind] by {
        lemma_counts_of_in_order(pairs, KIND_COUNT as nat, kind);
        assert(kind_at(kind.spec_index() as int) == kind);
    }
    assert(described =~= preset(player_count));
}

/// The starting deck for a supported number of players holds a known number
/// of cards, the same whenever it is built, and few enough to count in a byte.
pub proof fn lemma_preset_total(player_count: u8)
    requires
        supported_player_count(player_count),
    ensures
        total_count(preset(player_count)) == preset_total(player_count),
        total_count(preset(player_count)) <= u8::MAX,
{
    lemma_total_written_out(preset(player_count));
}

} // verus!
