//! The kinds of card the game knows, their categories, and their fixed order.

use vstd::prelude::*;

verus! {

/// A single kind of card (for example the Flamethrower).
#[derive(Debug, PartialEq, Eq, Clone, Copy, Hash, Structural)]
pub enum CardKind {
    // Role cards
    TheThing,
    Infected,
    // Action cards
    Flamethrower,
    Analysis,
    Axe,
    Suspicious,
    Whiskey,
    Resolute,
    WatchYourBack,
    ChangePlaces,
    YoudBetterRun,
    Seduction,
    // Defence cards
    Scary,
    ImComfortable,
    NoThanks,
    Missed,
    NoBBQ,
    // Obstacle cards
    Quarantine,
    BarredDoor,
    // Panic cards
    RottenRopes,
    OneTwo,
    ThreeFour,
    SoThisIsTheParty,
    OutOfHere,
    Forgetful,
    RoundAndRound,
    CantWeBeFriends,
    BlindDate,
    Ooops,
    BetweenUs,
    Revelations,
}

/// A category of cards that behave alike (for example the Defence cards).
#[derive(Debug, PartialEq, Eq, Clone, Copy, Structural)]
pub enum CardSort {
    Role,
    Action,
    Defence,
    Obstacle,
    Panic,
}

/// How many kinds of card there are.
pub const KIND_COUNT: u8 = 31;

/// The kind that stands at position `i` of the declaration order; positions
/// past the last kind all give the last kind.
pub open spec fn kind_at(i: int) -> CardKind {
    if i == 0 {
        CardKind::TheThing
    } else if i == 1 {
        CardKind::Infected
    } else if i == 2 {
        CardKind::Flamethrower
    } else if i == 3 {
        CardKind::Analysis
    } else if i == 4 {
        CardKind::Axe
    } else if i == 5 {
        CardKind::Suspicious
    } else if i == 6 {
        CardKind::Whiskey
    } else if i == 7 {
        CardKind::Resolute
    } else if i == 8 {
        CardKind::WatchYourBack
    } else if i == 9 {
        CardKind::ChangePlaces
    } else if i == 10 {
        CardKind::YoudBetterRun
    } else if i == 11 {
        CardKind::Seduction
    } else if i == 12 {
        CardKind::Scary
    } else if i == 13 {
        CardKind::ImComfortable
    } else if i == 14 {
        CardKind::NoThanks
    } else if i == 15 {
        CardKind::Missed
    } else if i == 16 {
        CardKind::NoBBQ
    } else if i == 17 {
        CardKind::Quarantine
    } else if i == 18 {
        CardKind::BarredDoor
    } else if i == 19 {
        CardKind::RottenRopes
    } else if i == 20 {
        CardKind::OneTwo
    } else if i == 21 {
        CardKind::ThreeFour
    } else if i == 22 {
        CardKind::SoThisIsTheParty
    } else if i == 23 {
        CardKind::OutOfHere
    } else if i == 24 {
        CardKind::Forgetful
    } else if i == 25 {
        CardKind::RoundAndRound
    } else if i == 26 {
        CardKind::CantWeBeFriends
    } else if i == 27 {
        CardKind::BlindDate
    } else if i == 28 {
        CardKind::Ooops
    } else if i == 29 {
        CardKind::BetweenUs
    } else {
        CardKind::Revelations
    }
}

impl CardKind {
    /// The position of this kind in the declaration order, counted from zero.
    pub open spec fn spec_index(&self) -> u8 {
        match *self {
            CardKind::TheThing => 0,
            CardKind::Infected => 1,
            CardKind::Flamethrower => 2,
            CardKind::Analysis => 3,
            CardKind::Axe => 4,
            CardKind::Suspicious => 5,
            CardKind::Whiskey => 6,
            CardKind::Resolute => 7,
            CardKind::WatchYourBack => 8,
            CardKind::ChangePlaces => 9,
            CardKind::YoudBetterRun => 10,
            CardKind::Seduction => 11,
            CardKind::Scary => 12,
            CardKind::ImComfortable => 13,
            CardKind::NoThanks => 14,
            CardKind::Missed => 15,
            CardKind::NoBBQ => 16,
            CardKind::Quarantine => 17,
            CardKind::BarredDoor => 18,
            CardKind::RottenRopes => 19,
            CardKind::OneTwo => 20,
            CardKind::ThreeFour => 21,
            CardKind::SoThisIsTheParty => 22,
            CardKind::OutOfHere => 23,
            CardKind::Forgetful => 24,
            CardKind::RoundAndRound => 25,
            CardKind::CantWeBeFriends => 26,
            CardKind::BlindDate => 27,
            CardKind::Ooops => 28,
            CardKind::BetweenUs => 29,
            CardKind::Revelations => 30,
        }
    }

    /// The category this kind belongs to.
    pub open spec fn spec_sort(&self) -> CardSort {
        let i = self.spec_index();
        if i < 2 {
            CardSort::Role
        } else if i < 12 {
            CardSort::Action
        } else if i < 17 {
            CardSort::Defence
        } else if i < 19 {
            CardSort::Obstacle
        } else {
            CardSort::Panic
        }
    }

    /// The category this kind belongs to. The kinds are declared category by
    /// category, so the category follows from the position alone.
    #[verifier::when_used_as_spec(spec_sort)]
    pub fn sort(&self) -> (sort: CardSort)
        ensures
            sort == self.spec_sort(),
    {
        match *self {
            CardKind::TheThing | CardKind::Infected => CardSort::Role,
            CardKind::Flamethrower
            | CardKind::Analysis
            | CardKind::Axe
            | CardKind::Suspicious
            | CardKind::Whiskey
            | CardKind::Resolute
            | CardKind::WatchYourBack
            | CardKind::ChangePlaces
            | CardKind::YoudBetterRun
            | CardKind::Seduction => CardSort::Action,
            CardKind::Scary
            | CardKind::ImComfortable
            | CardKind::NoThanks
            | CardKind::Missed
            | CardKind::NoBBQ => CardSort::Defence,
            CardKind::Quarantine | CardKind::BarredDoor => CardSort::Obstacle,
            CardKind::RottenRopes
            | CardKind::OneTwo
            | CardKind::ThreeFour
            | CardKind::SoThisIsTheParty
            | CardKind::OutOfHere
            | CardKind::Forgetful
            | CardKind::RoundAndRound
            | CardKind::CantWeBeFriends
            | CardKind::BlindDate
            | CardKind::Ooops
            | CardKind::BetweenUs
            | CardKind::Revelations => CardSort::Panic,
        }
    }

    /// The position of this kind in the declaration order, counted from zero.
    #[verifier::when_used_as_spec(spec_index)]
    pub fn index(&self) -> (i: u8)
        ensures
            i == self.spec_index(),
            i < KIND_COUNT,
            kind_at(i as int) == *self,
    {
        match *self {
            CardKind::TheThing => 0,
            CardKind::Infected => 1,
            CardKind::Flamethrower => 2,
            CardKind::Analysis => 3,
            CardKind::Axe => 4,
            CardKind::Suspicious => 5,
            CardKind::Whiskey => 6,
            CardKind::Resolute => 7,
            CardKind::WatchYourBack => 8,
            CardKind::ChangePlaces => 9,
            CardKind::YoudBetterRun => 10,
            CardKind::Seduction => 11,
            CardKind::Scary => 12,
            CardKind::ImComfortable => 13,
            CardKind::NoThanks => 14,
            CardKind::Missed => 15,
            CardKind::NoBBQ => 16,
            CardKind::Quarantine => 17,
            CardKind::BarredDoor => 18,
            CardKind::RottenRopes => 19,
            CardKind::OneTwo => 20,
            CardKind::ThreeFour => 21,
            CardKind::SoThisIsTheParty => 22,
            CardKind::OutOfHere => 23,
            CardKind::Forgetful => 24,
            CardKind::RoundAndRound => 25,
            CardKind::CantWeBeFriends => 26,
            CardKind::BlindDate => 27,
            CardKind::Ooops => 28,
            CardKind::BetweenUs => 29,
            CardKind::Revelations => 30,
        }
    }

    /// The kind at position `i` of the declaration order, if there is one.
    pub fn from_index(i: u8) -> (kind: Option<CardKind>)
        ensures
            kind.is_some() <==> i < KIND_COUNT,
            kind matches Some(k) ==> k == kind_at(i as int) && k.spec_index() == i,
    {
        match i {
            0 => Some(CardKind::TheThing),
            1 => Some(CardKind::Infected),
            2 => Some(CardKind::Flamethrower),
            3 => Some(CardKind::Analysis),
            4 => Some(CardKind::Axe),
            5 => Some(CardKind::Suspicious),
            6 => Some(CardKind::Whiskey),
            7 => Some(CardKind::Resolute),
            8 => Some(CardKind::WatchYourBack),
            9 => Some(CardKind::ChangePlaces),
            10 => Some(CardKind::YoudBetterRun),
            11 => Some(CardKind::Seduction),
            12 => Some(CardKind::Scary),
            13 => Some(CardKind::ImComfortable),
            14 => Some(CardKind::NoThanks),
            15 => Some(CardKind::Missed),
            16 => Some(CardKind::NoBBQ),
            17 => Some(CardKind::Quarantine),
            18 => Some(CardKind::BarredDoor),
            19 => Some(CardKind::RottenRopes),
            20 => Some(CardKind::OneTwo),
            21 => Some(CardKind::ThreeFour),
            22 => Some(CardKind::SoThisIsTheParty),
            23 => Some(CardKind::OutOfHere),
            24 => Some(CardKind::Forgetful),
            25 => Some(CardKind::RoundAndRound),
            26 => Some(CardKind::CantWeBeFriends),
            27 => Some(CardKind::BlindDate),
            28 => Some(CardKind::Ooops),
            29 => Some(CardKind::BetweenUs),
            30 => Some(CardKind::Revelations),
            _ => None,
        }
    }
}

} // verus!
