//! The mathematical model of a deck: a count for every kind of card.

use vstd::prelude::*;

use super::card::{kind_at, CardKind, KIND_COUNT};

verus! {

/// Whether `counts` gives a count to every kind of card.
pub open spec fn covers_every_kind(counts: Map<CardKind, nat>) -> bool {
    forall|kind: CardKind| #[trigger] counts.contains_key(kind)
}

/// The counts of a deck without cards: zero of every kind.
pub open spec fn no_cards() -> Map<CardKind, nat> {
    Map::total(|kind: CardKind| 0nat)
}

/// The cards of the first `n` kinds of the declaration order, taken together.
pub open spec fn count_of_first(counts: Map<CardKind, nat>, n: nat) -> nat
    decreases n,
{
    if n == 0 {
        0
    } else {
        count_of_first(counts, (n - 1) as nat) + counts[kind_at(n - 1)]
    }
}

/// All the cards of `counts` taken together.
pub open spec fn total_count(counts: Map<CardKind, nat>) -> nat {
    count_of_first(counts, KIND_COUNT as nat)
}

/// The counts after one more card of `kind` has come in.
pub open spec fn with_one_more(counts: Map<CardKind, nat>, kind: CardKind) -> Map<CardKind, nat> {
    counts.insert(kind, counts[kind] + 1)
}

/// The counts after one card of `kind` has left; meant for `counts[kind] > 0`.
pub open spec fn with_one_less(counts: Map<CardKind, nat>, kind: CardKind) -> Map<CardKind, nat> {
    counts.insert(kind, (counts[kind] - 1) as nat)
}

/// The counts that a list of pairs describes: a kind that the list does not
/// name has none, and of two pairs for one kind the later one counts.
pub open spec fn counts_of(pairs: Seq<(CardKind, u8)>) -> Map<CardKind, nat>
    decreases pairs.len(),
{
    if pairs.len() == 0 {
        no_cards()
    } else {
        counts_of(pairs.drop_last()).insert(pairs.last().0, pairs.last().1 as nat)
    }
}

/// The cards of the kinds that `kinds` lists, taken together; a kind that is
/// listed twice counts twice.
pub open spec fn weight_of(counts: Map<CardKind, nat>, kinds: Seq<CardKind>) -> nat
    decreases kinds.len(),
{
    if kinds.len() == 0 {
        0
    } else {
        weight_of(counts, kinds.drop_last()) + counts[kinds.last()]
    }
}

/// Whether `kinds` lists every kind once, in the declaration order.
pub open spec fn lists_every_kind(kinds: Seq<CardKind>) -> bool {
    &&& kinds.len() == KIND_COUNT
    &&& forall|i: int| 0 <= i < KIND_COUNT ==> #[trigger] kinds[i] == kind_at(i)
}

/// Setting the count of one kind moves the sum over the first `n` kinds by
/// the difference, if that kind is among them, and not at all otherwise.
pub proof fn lemma_count_of_first_insert(
    counts: Map<CardKind, nat>,
    kind: CardKind,
    count: nat,
    n: nat,
)
    requires
        n <= KIND_COUNT,
    ensures
        count_of_first(counts.insert(kind, count), n) == if kind.spec_index() < n {
            count_of_first(counts, n) - counts[kind] + count
        } else {
            count_of_first(counts, n) as int
        },
        kind.spec_index() < n ==> counts[kind] <= count_of_first(counts, n),
    decreases n,
{
    if n > 0 {
        lemma_count_of_first_insert(counts, kind, count, (n - 1) as nat);
        let last = kind_at(n - 1);
        if last == kind {
            assert(counts.insert(kind, count)[last] == count);
        } else {
            assert(counts.insert(kind, count)[last] == counts[last]);
        }
    }
}

/// Setting the count of one kind moves the total by the difference.
pub proof fn lemma_total_insert(counts: Map<CardKind, nat>, kind: CardKind, count: nat)
    ensures
        counts[kind] <= total_count(counts),
        total_count(counts.insert(kind, count)) == total_count(counts) - counts[kind] + count,
{
    lemma_count_of_first_insert(counts, kind, count, KIND_COUNT as nat);
}

/// The total, written out: the counts of all the kinds added up.
pub proof fn lemma_total_written_out(counts: Map<CardKind, nat>)
    ensures
        total_count(counts) == counts[CardKind::TheThing]
            + counts[CardKind::Infected]
            + counts[CardKind::Flamethrower]
            + counts[CardKind::Analysis]
            + counts[CardKind::Axe]
            + counts[CardKind::Suspicious]
            + counts[CardKind::Whiskey]
            + counts[CardKind::Resolute]
            + counts[CardKind::WatchYourBack]
            + counts[CardKind::ChangePlaces]
            + counts[CardKind::YoudBetterRun]
            + counts[CardKind::Seduction]
            + counts[CardKind::Scary]
            + counts[CardKind::ImComfortable]
            + counts[CardKind::NoThanks]
            + counts[CardKind::Missed]
            + counts[CardKind::NoBBQ]
            + counts[CardKind::Quarantine]
            + counts[CardKind::BarredDoor]
            + counts[CardKind::RottenRopes]
            + counts[CardKind::OneTwo]
            + counts[CardKind::ThreeFour]
            + counts[CardKind::SoThisIsTheParty]
            + counts[CardKind::OutOfHere]
            + counts[CardKind::Forgetful]
            + counts[CardKind::RoundAndRound]
            + counts[CardKind::CantWeBeFriends]
            + counts[CardKind::BlindDate]
            + counts[CardKind::Ooops]
            + counts[CardKind::BetweenUs]
            + counts[CardKind::Revelations],
{
    reveal_with_fuel(count_of_first, 32);
}

/// Where no kind has more cards than a byte holds, the first `n` kinds have
/// no more than `n` bytes hold.
pub proof fn lemma_count_of_first_at_most_bytes(counts: Map<CardKind, nat>, n: nat)
    requires
        forall|kind: CardKind| #[trigger] counts[kind] <= u8::MAX,
    ensures
        count_of_first(counts, n) <= n * u8::MAX,
    decreases n,
{
    if n > 0 {
        lemma_count_of_first_at_most_bytes(counts, (n - 1) as nat);
        assert(counts[kind_at(n - 1)] <= u8::MAX);
    }
}

/// Where no kind has more cards than a byte holds, there are 7905 cards at
/// most.
pub proof fn lemma_total_at_most_bytes(counts: Map<CardKind, nat>)
    requires
        forall|kind: CardKind| #[trigger] counts[kind] <= u8::MAX,
    ensures
        total_count(counts) <= KIND_COUNT * u8::MAX,
{
    lemma_count_of_first_at_most_bytes(counts, KIND_COUNT as nat);
}

/// One more card of a kind is one more card of that kind, one more card in
/// all, and no change to any other kind. No kind has more cards than there
/// are in all.
pub proof fn lemma_one_more(counts: Map<CardKind, nat>, kind: CardKind)
    ensures
        counts[kind] <= total_count(counts),
        with_one_more(counts, kind)[kind] == counts[kind] + 1,
        total_count(with_one_more(counts, kind)) == total_count(counts) + 1,
        forall|other: CardKind|
            other != kind ==> #[trigger] with_one_more(counts, kind)[other] == counts[other],
        covers_every_kind(counts) ==> covers_every_kind(with_one_more(counts, kind)),
{
    lemma_total_insert(counts, kind, counts[kind] + 1);
}

/// One card less of a kind that has cards is one card less of that kind, one
/// card less in all, and no change to any other kind.
pub proof fn lemma_one_less(counts: Map<CardKind, nat>, kind: CardKind)
    requires
        counts[kind] > 0,
    ensures
        with_one_less(counts, kind)[kind] == counts[kind] - 1,
        total_count(with_one_less(counts, kind)) == total_count(counts) - 1,
        forall|other: CardKind|
            other != kind ==> #[trigger] with_one_less(counts, kind)[other] == counts[other],
        covers_every_kind(counts) ==> covers_every_kind(with_one_less(counts, kind)),
{
    lemma_total_insert(counts, kind, (counts[kind] - 1) as nat);
}

/// Where every kind has a count, one more card of a kind and then one less
/// of that kind gives back the counts there were.
pub proof fn lemma_counts_round_trip(counts: Map<CardKind, nat>, kind: CardKind)
    requires
        covers_every_kind(counts),
    ensures
        with_one_more(counts, kind)[kind] > 0,
        with_one_less(with_one_more(counts, kind), kind) == counts,
{
    assert(counts.contains_key(kind));
    assert(with_one_less(with_one_more(counts, kind), kind) =~= counts);
}

/// A deck without cards has a total of zero.
pub proof fn lemma_no_cards_total()
    ensures
        covers_every_kind(no_cards()),
        total_count(no_cards()) == 0,
        forall|kind: CardKind| #[trigger] no_cards()[kind] == 0,
{
    lemma_no_cards_first(KIND_COUNT as nat);
}

proof fn lemma_no_cards_first(n: nat)
    ensures
        count_of_first(no_cards(), n) == 0,
    decreases n,
{
    if n > 0 {
        lemma_no_cards_first((n - 1) as nat);
    }
}

/// Whatever the pairs, the counts they describe cover every kind.
pub proof fn lemma_counts_of_covers(pairs: Seq<(CardKind, u8)>)
    ensures
        covers_every_kind(counts_of(pairs)),
    decreases pairs.len(),
{
    if pairs.len() > 0 {
        lemma_counts_of_covers(pairs.drop_last());
    }
}

/// Where the first `n` pairs name the first `n` kinds in their order, each of
/// those kinds has the count of its own pair and every other kind has none.
pub proof fn lemma_counts_of_in_order(pairs: Seq<(CardKind, u8)>, n: nat, kind: CardKind)
    requires
        n <= pairs.len(),
        n <= KIND_COUNT,
        forall|i: int| 0 <= i < n ==> (#[trigger] pairs[i]).0 == kind_at(i),
    ensures
        counts_of(pairs.take(n as int))[kind] == if kind.spec_index() < n {
            pairs[kind.spec_index() as int].1 as nat
        } else {
            0
        },
    decreases n,
{
    let first = pairs.take(n as int);
    if n > 0 {
        assert(first.drop_last() =~= pairs.take(n - 1));
        lemma_counts_of_in_order(pairs, (n - 1) as nat, kind);
        assert(first.last() == pairs[n - 1]);
    }
}

/// Where the first `n` entries of `kinds` are the first `n` kinds in their
/// order, their weight is the sum over the first `n` kinds.
pub proof fn lemma_weight_of_first(counts: Map<CardKind, nat>, kinds: Seq<CardKind>, n: nat)
    requires
        n <= kinds.len(),
        forall|i: int| 0 <= i < n ==> #[trigger] kinds[i] == kind_at(i),
    ensures
        weight_of(counts, kinds.take(n as int)) == count_of_first(counts, n),
    decreases n,
{
    let first = kinds.take(n as int);
    if n > 0 {
        assert(first.drop_last() =~= kinds.take(n - 1));
        lemma_weight_of_first(counts, kinds, (n - 1) as nat);
        assert(first.last() == kinds[n - 1]);
    }
}

/// The weight of the list of every kind is the total.
pub proof fn lemma_weight_of_every_kind(counts: Map<CardKind, nat>, kinds: Seq<CardKind>)
    requires
        lists_every_kind(kinds),
    ensures
        weight_of(counts, kinds) == total_count(counts),
{
    assert(kinds.take(KIND_COUNT as int) =~= kinds);
    lemma_weight_of_first(counts, kinds, KIND_COUNT as nat);
}

} // verus!
