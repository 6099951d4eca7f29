//! A lobby: one game session, which owns a deck and takes the messages of
//! its clients one at a time.
//!
//! Nothing here waits or runs by itself. Whoever drives a lobby keeps a
//! bounded queue of messages for it, takes them out in the order in which
//! they came, and tells the lobby what happened: a message was taken out, the
//! last sender went away, the queue ran dry. The lobby says what to do next.
//! A sender that finds the queue full waits until there is room.

use vstd::prelude::*;

use crate::deck::counts::{total_count, with_one_less, with_one_more};
use crate::deck::{CardKind, Deck};

verus! {

/// How many messages may wait for one lobby. A sender that finds as many
/// waiting has to wait itself.
pub const BUFFER_SIZE: usize = 64;

/// What a client can ask of a lobby.
#[derive(Debug, Clone, Copy, PartialEq, Eq)]
pub enum ClientMessage {
    /// Put one card of the kind into the deck.
    AddCard(CardKind),
    /// Take one card of the kind out of the deck.
    DrawCard(CardKind),
    /// Take one card out of the deck at random.
    DrawRandomCard,
    /// Say how many cards of the kind the deck holds.
    CountCards(CardKind),
}

/// What a lobby answers to a message.
#[derive(Debug, Clone, Copy, PartialEq, Eq)]
pub enum Reply {
    /// A card of the kind was put into the deck.
    Added(CardKind),
    /// A card of the kind was taken out of the deck.
    Drew(CardKind),
    /// The number that was asked for.
    Count(u8),
    /// The deck holds no card of the kind.
    NoSuchCard(CardKind),
    /// The deck holds no card at all.
    EmptyDeck,
    /// The deck holds as many cards of the kind as it can.
    DeckFull,
}

/// Where a lobby stands in its life.
#[derive(Debug, Clone, Copy, PartialEq, Eq, Structural)]
pub enum LobbyState {
    /// Made, not yet taking messages.
    Created,
    /// Taking messages; senders can still send.
    Running,
    /// Taking the messages that are still waiting; nobody can send any more.
    Draining,
    /// Done for good.
    Terminated,
}

/// What the driver of a lobby tells it.
#[derive(Debug, Clone, Copy, PartialEq, Eq)]
pub enum Event {
    /// The lobby's queue exists and the driver begins to take from it.
    Started,
    /// The next message in line was taken out of the queue.
    Received(ClientMessage),
    /// The last sender is gone: no message will be added to the queue.
    SendersClosed,
    /// No sender is left and the queue is empty.
    QueueDrained,
}

/// What a lobby tells its driver to do.
#[derive(Debug, Clone, Copy, PartialEq, Eq)]
pub enum Action {
    /// Go on taking messages.
    Continue,
    /// Hand the reply to whoever sent the message, and go on.
    Reply(Reply),
    /// The message came to a lobby that takes none; tell the sender so.
    Refuse,
    /// Take no more messages and let go of the lobby.
    Stop,
}

/// Whether a lobby in `state` handles the messages that are taken out of its
/// queue.
pub open spec fn takes_messages(state: LobbyState) -> bool {
    state == LobbyState::Running || state == LobbyState::Draining
}

/// Whether a message can still be sent to a lobby in `state`.
pub open spec fn open_to_senders(state: LobbyState) -> bool {
    state == LobbyState::Created || state == LobbyState::Running
}

/// The state that follows `state` on `event`.
pub open spec fn next_state(state: LobbyState, event: Event) -> LobbyState {
    match event {
        Event::Started => if state == LobbyState::Created {
            LobbyState::Running
        } else {
            state
        },
        Event::Received(_) => state,
        Event::SendersClosed => if open_to_senders(state) {
            LobbyState::Draining
        } else {
            state
        },
        Event::QueueDrained => LobbyState::Terminated,
    }
}

/// Whether `reply` is a right answer to `message` for a deck that held
/// `before` when the message came and holds `after` now.
pub open spec fn answers(
    before: Map<CardKind, nat>,
    message: ClientMessage,
    reply: Reply,
    after: Map<CardKind, nat>,
) -> bool {
    match message {
        ClientMessage::AddCard(kind) => if before[kind] < u8::MAX {
            reply == Reply::Added(kind) && after == with_one_more(before, kind)
        } else {
            reply == Reply::DeckFull && after == before
        },
        ClientMessage::DrawCard(kind) => if before[kind] > 0 {
            reply == Reply::Drew(kind) && after == with_one_less(before, kind)
        } else {
            reply == Reply::NoSuchCard(kind) && after == before
        },
        ClientMessage::DrawRandomCard => if total_count(before) > 0 {
            exists|kind: CardKind|
                before[kind] > 0 && reply == Reply::Drew(kind) && after == #[trigger] with_one_less(
                    before,
                    kind,
                )
        } else {
            reply == Reply::EmptyDeck && after == before
        },
        ClientMessage::CountCards(kind) => {
            &&& reply matches Reply::Count(count)
            &&& count == before[kind]
            &&& after == before
        },
    }
}

/// One game session: its deck, and where it stands in its life.
pub struct Lobby {
    state: LobbyState,
    deck: Deck,
}

impl Lobby {
    /// Where the lobby stands in its life.
    pub closed spec fn spec_state(&self) -> LobbyState {
        self.state
    }

    /// The deck of the lobby.
    pub closed spec fn spec_deck(&self) -> Deck {
        self.deck
    }

    /// Makes a lobby around `deck`. It takes no messages until it is started.
    pub fn new(deck: Deck) -> (lobby: Lobby)
        ensures
            lobby.spec_deck() == deck,
            lobby.spec_state() == LobbyState::Created,
    {
        Lobby { state: LobbyState::Created, deck }
    }

    /// Makes a lobby around `deck` and starts it: the lobby is made and at
    /// once takes messages.
    pub fn start(deck: Deck) -> (lobby: Lobby)
        ensures
            lobby.spec_deck() == deck,
            lobby.spec_state() == LobbyState::Running,
    {
        let mut lobby = Lobby::new(deck);
        lobby.on_event(Event::Started);
        lobby
    }

    /// Where the lobby stands in its life.
    #[verifier::when_used_as_spec(spec_state)]
    pub fn state(&self) -> (state: LobbyState)
        ensures
            state == self.spec_state(),
    {
        self.state
    }

    /// The deck of the lobby.
    pub fn deck(&self) -> (deck: &Deck)
        ensures
            *deck == self.spec_deck(),
    {
        &self.deck
    }

    /// Whether a message can still be sent to the lobby.
    pub fn accepts_sends(&self) -> (open: bool)
        ensures
            open == open_to_senders(self.spec_state()),
    {
        match self.state {
            LobbyState::Created | LobbyState::Running => true,
            LobbyState::Draining | LobbyState::Terminated => false,
        }
    }

    /// Answers one message on the deck of the lobby, whatever its state.
    pub fn handle(&mut self, message: ClientMessage) -> (reply: Reply)
        ensures
            final(self).spec_state() == old(self).spec_state(),
            answers(old(self).spec_deck()@, message, reply, final(self).spec_deck()@),
    {
        match message {
            ClientMessage::AddCard(kind) => {
                if self.deck.card_count(kind) < u8::MAX {
                    self.deck.add_card(kind);
                    Reply::Added(kind)
                } else {
                    Reply::DeckFull
                }
            },
            ClientMessage::DrawCard(kind) => match self.deck.draw_specific_card(kind) {
                Ok(drawn) => Reply::Drew(drawn),
                Err(missing) => Reply::NoSuchCard(missing.0),
            },
            ClientMessage::DrawRandomCard => match self.deck.draw_random_card() {
                Ok(drawn) => Reply::Drew(drawn),
                Err(_) => Reply::EmptyDeck,
            },
            ClientMessage::CountCards(kind) => Reply::Count(self.deck.card_count(kind)),
        }
    }

    /// Takes note of `event` and says what the driver is to do. A message is
    /// answered while the lobby runs or drains, and refused before and
    /// after; a lobby that has terminated stays so, and its deck with it.
    pub fn on_event(&mut self, event: Event) -> (action: Action)
        ensures
            final(self).spec_state() == next_state(old(self).spec_state(), event),
            match event {
                Event::Received(message) => if takes_messages(old(self).spec_state()) {
                    action matches Action::Reply(reply) && answers(
                        old(self).spec_deck()@,
                        message,
                        reply,
                        final(self).spec_deck()@,
                    )
                } else {
                    action == Action::Refuse && final(self).spec_deck() == old(self).spec_deck()
                },
                Event::QueueDrained => action == Action::Stop && final(self).spec_deck() == old(
                    self,
                ).spec_deck(),
                _ => action == (if final(self).spec_state() == LobbyState::Terminated {
                    Action::Stop
                } else {
                    Action::Continue
                }) && final(self).spec_deck() == old(self).spec_deck(),
            },
    {
        match event {
            Event::Started => {
                match self.state {
                    LobbyState::Created => {
                        self.state = LobbyState::Running;
                        Action::Continue
                    },
                    LobbyState::Terminated => Action::Stop,
                    _ => Action::Continue,
                }
            },
            Event::Received(message) => {
                match self.state {
                    LobbyState::Running | LobbyState::Draining => Action::Reply(
                        self.handle(message),
                    ),
                    _ => Action::Refuse,
                }
            },
            Event::SendersClosed => {
                match self.state {
                    LobbyState::Created | LobbyState::Running => {
                        self.state = LobbyState::Draining;
                        Action::Continue
                    },
                    LobbyState::Draining => Action::Continue,
                    LobbyState::Terminated => Action::Stop,
                }
            },
            Event::QueueDrained => {
                self.state = LobbyState::Terminated;
                Action::Stop
            },
        }
    }
}

/// Once a lobby has terminated, no event brings it back.
pub proof fn lemma_terminated_is_final(event: Event)
    ensures
        next_state(LobbyState::Terminated, event) == LobbyState::Terminated,
{
}

/// A lobby that has terminated takes no message and is open to no sender.
pub proof fn lemma_terminated_takes_nothing()
    ensures
        !takes_messages(LobbyState::Terminated),
        !open_to_senders(LobbyState::Terminated),
{
}

/// When the senders of a running lobby go away the lobby drains, and a lobby
/// that drains still takes the messages that wait in its queue.
pub proof fn lemma_draining_takes_messages(state: LobbyState)
    requires
        open_to_senders(state),
    ensures
        next_state(state, Event::SendersClosed) == LobbyState::Draining,
        takes_messages(next_state(state, Event::SendersClosed)),
        !open_to_senders(next_state(state, Event::SendersClosed)),
{
}

/// Once the senders of a lobby are gone, no event lets them send again.
pub proof fn lemma_closed_stays_closed(state: LobbyState, event: Event)
    requires
        !open_to_senders(state),
    ensures
        !open_to_senders(next_state(state, event)),
{
}

/// Taking a message out of the queue never changes the state of a lobby, so
/// a lobby that drains goes on handling what is left in its queue.
pub proof fn lemma_receiving_keeps_the_state(state: LobbyState, message: ClientMessage)
    ensures
        next_state(state, Event::Received(message)) == state,
        takes_messages(state) ==> takes_messages(next_state(state, Event::Received(message))),
{
}

} // verus!
