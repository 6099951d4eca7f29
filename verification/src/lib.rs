//! The verified heart of a card-game server: the deck every game session
//! owns, the session itself, and the registry through which messages find
//! their session.

pub mod deck;
pub mod identifier;
pub mod lobby;
pub mod random;
pub mod registry;
