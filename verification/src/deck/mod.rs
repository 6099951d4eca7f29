//! The deck of a game session: how many cards of each kind are left to draw.

pub mod card;
pub mod counts;
pub mod errors;
pub mod presets;
pub mod random;

use std::collections::HashMap;
use vstd::prelude::*;

pub use card::{CardKind, CardSort};
use card::{kind_at, KIND_COUNT};
use counts::{
    count_of_first, counts_of, covers_every_kind,
    lemma_counts_round_trip, lemma_no_cards_total, lemma_one_less, lemma_one_more,
    lemma_total_at_most_bytes, lemma_weight_of_every_kind,
    lists_every_kind, no_cards, total_count, with_one_less, with_one_more,
};
use errors::{EmptyDeck, NoSuchCard, UnsupportedPlayerCount};
use presets::{
    lemma_preset_total, player_count_to_card_counts, preset, preset_total, supported_player_count,
};
use random::choose_weighted_kind;

verus! {

broadcast use vstd::std_specs::hash::group_hash_axioms;

/// A draw pile: for every kind of card, how many of it are left.
///
/// The counts are kept by the position of the kind. A kind without an entry
/// has no cards, exactly like a kind whose entry is zero.
pub struct Deck {
    counts: HashMap<u8, u8>,
}

/// The counts that a map from positions to counts stands for.
pub closed spec fn counts_by_position(entries: Map<u8, u8>) -> Map<CardKind, nat> {
    Map::total(
        |kind: CardKind|
            if entries.contains_key(kind.spec_index()) {
                entries[kind.spec_index()] as nat
            } else {
                0nat
            },
    )
}

proof fn lemma_entry_set(entries: Map<u8, u8>, kind: CardKind, count: u8)
    ensures
        counts_by_position(entries.insert(kind.spec_index(), count)) == counts_by_position(
            entries,
        ).insert(kind, count as nat),
{
    let before = counts_by_position(entries);
    let after = counts_by_position(entries.insert(kind.spec_index(), count));
    assert forall|other: CardKind| #[trigger] after[other] == before.insert(kind, count as nat)[other] by {
        assert(kind_at(other.spec_index() as int) == other);
        assert(kind_at(kind.spec_index() as int) == kind);
    }
    assert(after =~= before.insert(kind, count as nat));
}

impl View for Deck {
    type V = Map<CardKind, nat>;

    /// The count of every kind; a kind that was never put in has zero.
    closed spec fn view(&self) -> Map<CardKind, nat> {
        counts_by_position(self.counts@)
    }
}

impl Deck {
    /// Every deck gives a count to every kind, and none above what a byte
    /// holds; so the cards of all the kinds together are 7905 at most.
    pub proof fn lemma_counts_fit(&self)
        ensures
            covers_every_kind(self@),
            forall|kind: CardKind| #[trigger] self@[kind] <= u8::MAX,
            total_count(self@) <= KIND_COUNT * u8::MAX,
    {
        lemma_total_at_most_bytes(self@);
    }

    /// Putting a card of some kind into a deck and at once drawing a card of
    /// that kind leaves the deck as it was: the draw succeeds, and every
    /// count and the total are what they were before the pair.
    pub proof fn lemma_add_then_draw_round_trip(&self, card_kind: CardKind)
        ensures
            with_one_more(self@, card_kind)[card_kind] > 0,
            with_one_less(with_one_more(self@, card_kind), card_kind) == self@,
            with_one_less(with_one_more(self@, card_kind), card_kind)[card_kind]
                == self@[card_kind],
            total_count(with_one_less(with_one_more(self@, card_kind), card_kind)) == total_count(
                self@,
            ),
    {
        self.lemma_counts_fit();
        lemma_counts_round_trip(self@, card_kind);
    }

    /// A deck with the cards that `card_counts` lists. A kind that the list
    /// names twice gets the later count.
    pub fn from_card_counts(card_counts: Vec<(CardKind, u8)>) -> (deck: Deck)
        ensures
            deck@ == counts_of(card_counts@),
    {
        let mut counts: HashMap<u8, u8> = HashMap::new();
        let mut i: usize = 0;
        proof {
            assert(card_counts@.take(0) =~= Seq::empty());
            assert(counts_by_position(counts@) =~= no_cards());
        }
        while i < card_counts.len()
            invariant
                i <= card_counts.len(),
                counts_by_position(counts@) == counts_of(card_counts@.take(i as int)),
            decreases card_counts.len() - i,
        {
            let (kind, count) = card_counts[i];
            proof {
                lemma_entry_set(counts@, kind, count);
                let next = card_counts@.take(i + 1);
                assert(next.drop_last() =~= card_counts@.take(i as int));
                assert(next.last() == card_counts@[i as int]);
            }
            counts.insert(kind.index(), count);
            i += 1;
        }
        proof {
            assert(card_counts@.take(i as int) =~= card_counts@);
        }
        Deck { counts }
    }

    /// A deck without cards.
    pub fn empty() -> (deck: Deck)
        ensures
            deck@ == no_cards(),
            total_count(deck@) == 0,
    {
        let counts: HashMap<u8, u8> = HashMap::new();
        proof {
            lemma_no_cards_total();
            assert(counts_by_position(counts@) =~= no_cards());
        }
        Deck { counts }
    }

    /// The starting deck for `player_count` players. Only tables of four to
    /// twelve players have one; any other number is turned down.
    pub fn for_player_count(player_count: u8) -> (made: Result<Deck, UnsupportedPlayerCount>)
        ensures
            made.is_ok() <==> supported_player_count(player_count),
            made matches Ok(deck) ==> {
                &&& deck@ == preset(player_count)
                &&& total_count(deck@) == preset_total(player_count)
            },
            made matches Err(refusal) ==> refusal.0 == player_count,
    {
        match player_count_to_card_counts(player_count) {
            Some(card_counts) => {
                proof {
                    lemma_preset_total(player_count);
                }
                Ok(Deck::from_card_counts(card_counts))
            },
            None => Err(UnsupportedPlayerCount(player_count)),
        }
    }

    fn wide_total(&self) -> (total: u16)
        ensures
            total == total_count(self@),
    {
        let mut total: u16 = 0;
        let mut position: u8 = 0;
        proof {
            self.lemma_counts_fit();
        }
        while position < KIND_COUNT
            invariant
                position <= KIND_COUNT,
                total == count_of_first(self@, position as nat),
                total <= position * u8::MAX,
                forall|kind: CardKind| #[trigger] self@[kind] <= u8::MAX,
            decreases KIND_COUNT - position,
        {
            let count: u8 = match self.counts.get(&position) {
                Some(count) => *count,
                None => 0,
            };
            proof {
                assert(kind_at(position as int).spec_index() == position);
                assert(count == self@[kind_at(position as int)]);
            }
            total = total + count as u16;
            position = position + 1;
        }
        total
    }

    /// How many cards the deck holds in all. The number comes in a byte,
    /// so the deck may hold 255 cards at most.
    pub fn total_card_count(&self) -> (total: u8)
        requires
            total_count(self@) <= u8::MAX,
        ensures
            total == total_count(self@),
    {
        self.wide_total() as u8
    }

    /// How many cards the deck holds in all, where a byte can say so: a
    /// deck of more than 255 cards gives `None`.
    pub fn checked_total_card_count(&self) -> (total: Option<u8>)
        ensures
            total.is_some() <==> total_count(self@) <= u8::MAX,
            total matches Some(cards) ==> cards == total_count(self@),
    {
        let wide = self.wide_total();
        if wide <= 255 {
            Some(wide as u8)
        } else {
            None
        }
    }

    /// How many cards of `card_kind` the deck holds.
    pub fn card_count(&self, card_kind: CardKind) -> (count: u8)
        ensures
            count == self@[card_kind],
    {
        match self.counts.get(&card_kind.index()) {
            Some(count) => *count,
            None => 0,
        }
    }

    /// The weight of `card_kind` in a random draw: its count.
    pub fn card_weight(&self, card_kind: CardKind) -> (weight: u32)
        ensures
            weight == self@[card_kind],
    {
        let count: u8 = self.card_count(card_kind);
        count.into()
    }

    fn set_count(&mut self, card_kind: CardKind, count: u8)
        ensures
            final(self)@ == old(self)@.insert(card_kind, count as nat),
    {
        proof {
            lemma_entry_set(self.counts@, card_kind, count);
        }
        self.counts.insert(card_kind.index(), count);
    }

    /// Takes one card of `card_kind` out of the deck. Where the deck has
    /// none of that kind, it is left as it was and the kind is handed back
    /// in the error.
    pub fn draw_specific_card(&mut self, card_kind: CardKind) -> (drawn: Result<
        CardKind,
        NoSuchCard,
    >)
        ensures
            drawn.is_ok() <==> old(self)@[card_kind] > 0,
            drawn matches Ok(kind) ==> {
                &&& kind == card_kind
                &&& final(self)@ == with_one_less(old(self)@, card_kind)
                &&& final(self)@[card_kind] == old(self)@[card_kind] - 1
                &&& total_count(final(self)@) == total_count(old(self)@) - 1
                &&& forall|other: CardKind|
                    other != card_kind ==> final(self)@[other] == old(self)@[other]
            },
            drawn matches Err(missing) ==> missing.0 == card_kind && final(self)@ == old(self)@,
    {
        let count = self.card_count(card_kind);
        if count != 0 {
            proof {
                lemma_one_less(self@, card_kind);
            }
            self.set_count(card_kind, count - 1);
            Ok(card_kind)
        } else {
            Err(NoSuchCard(card_kind))
        }
    }

    /// Takes one card out of the deck at random, each kind being as likely
    /// as it has cards left. An empty deck is left as it was.
    pub fn draw_random_card(&mut self) -> (drawn: Result<CardKind, EmptyDeck>)
        ensures
            drawn.is_err() <==> total_count(old(self)@) == 0,
            drawn matches Ok(kind) ==> {
                &&& old(self)@[kind] > 0
                &&& final(self)@ == with_one_less(old(self)@, kind)
                &&& final(self)@[kind] == old(self)@[kind] - 1
                &&& total_count(final(self)@) == total_count(old(self)@) - 1
                &&& forall|other: CardKind| other != kind ==> final(self)@[other] == old(self)@[other]
            },
            drawn is Err ==> final(self)@ == old(self)@,
    {
        match self.choose_random_card() {
            Ok(picked) => {
                let count = self.card_count(picked);
                proof {
                        lemma_one_less(self@, picked);
                }
                self.set_count(picked, count - 1);
                Ok(picked)
            },
            Err(empty) => Err(empty),
        }
    }

    /// Says which card a random draw could take, without taking it: each
    /// kind is as likely as it has cards left, and a kind without cards is
    /// never named.
    pub fn choose_random_card(&self) -> (chosen: Result<CardKind, EmptyDeck>)
        ensures
            chosen.is_err() <==> total_count(self@) == 0,
            chosen matches Ok(kind) ==> self@[kind] > 0,
    {
        let kinds = every_kind();
        proof {
            lemma_weight_of_every_kind(self@, kinds@);
            self.lemma_counts_fit();
        }
        let mut rng = rand::thread_rng();
        match choose_weighted_kind(self, &kinds, &mut rng) {
            Some(picked) => Ok(picked),
            None => Err(EmptyDeck),
        }
    }

    /// Puts one more card of `card_kind` into the deck. The count of a kind
    /// is kept in a byte, so the deck may hold 254 of the kind at most.
    pub fn add_card(&mut self, card_kind: CardKind)
        requires
            old(self)@[card_kind] < u8::MAX,
        ensures
            final(self)@ == with_one_more(old(self)@, card_kind),
            final(self)@[card_kind] == old(self)@[card_kind] + 1,
            total_count(final(self)@) == total_count(old(self)@) + 1,
            forall|other: CardKind| other != card_kind ==> final(self)@[other] == old(self)@[other],
    {
        let count = self.card_count(card_kind);
        proof {
            lemma_one_more(self@, card_kind);
        }
        self.set_count(card_kind, count + 1);
    }
}

/// Every kind of card, in the declaration order.
pub fn every_kind() -> (kinds: Vec<CardKind>)
    ensures
        lists_every_kind(kinds@),
{
    let mut kinds: Vec<CardKind> = Vec::new();
    let mut position: u8 = 0;
    while position < KIND_COUNT
        invariant
            position <= KIND_COUNT,
            kinds@.len() == position,
            forall|i: int| 0 <= i < position ==> #[trigger] kinds@[i] == kind_at(i),
        decreases KIND_COUNT - position,
    {
        match CardKind::from_index(position) {
            Some(kind) => kinds.push(kind),
            None => {},
        }
        position = position + 1;
    }
    kinds
}

} // verus!
