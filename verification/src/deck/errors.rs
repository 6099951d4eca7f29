//! The ways in which a deck operation can be turned down.

use vstd::prelude::*;

use super::card::CardKind;

verus! {

/// The deck holds no card of the kind that was asked for.
#[derive(Debug, Clone, Copy)]
pub struct NoSuchCard(pub CardKind);

/// The deck holds no card at all.
#[derive(Debug, Clone, Copy)]
pub struct EmptyDeck;

/// No starting deck is defined for this number of players.
#[derive(Debug, Clone, Copy)]
pub struct UnsupportedPlayerCount(pub u8);

} // verus!
