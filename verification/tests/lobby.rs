use stay_away_server::deck::{every_kind, CardKind, Deck};
use stay_away_server::lobby::{Action, ClientMessage, Event, Lobby, LobbyState, Reply, BUFFER_SIZE};
use tokio::sync::{mpsc, oneshot};

fn deck_of(pairs: Vec<(CardKind, u8)>) -> Deck {
    Deck::from_card_counts(pairs)
}

#[test]
fn a_started_lobby_runs() {
    let lobby = Lobby::start(Deck::empty());
    assert_eq!(lobby.state(), LobbyState::Running);
    assert!(lobby.accepts_sends());
    assert_eq!(lobby.deck().total_card_count(), 0);
}

#[test]
fn a_lobby_that_was_not_started_refuses_messages() {
    let mut lobby = Lobby::new(deck_of(vec![(CardKind::Analysis, 3)]));
    assert_eq!(lobby.state(), LobbyState::Created);
    assert!(lobby.accepts_sends());

    let action = lobby.on_event(Event::Received(ClientMessage::DrawCard(CardKind::Analysis)));
    assert_eq!(action, Action::Refuse);
    assert_eq!(lobby.deck().card_count(CardKind::Analysis), 3);

    assert_eq!(lobby.on_event(Event::Started), Action::Continue);
    assert_eq!(lobby.state(), LobbyState::Running);
    let action = lobby.on_event(Event::Received(ClientMessage::DrawCard(CardKind::Analysis)));
    assert_eq!(action, Action::Reply(Reply::Drew(CardKind::Analysis)));
}

#[test]
fn a_lobby_whose_senders_left_before_the_start_drains() {
    let mut lobby = Lobby::new(Deck::empty());
    assert_eq!(lobby.on_event(Event::SendersClosed), Action::Continue);
    assert_eq!(lobby.state(), LobbyState::Draining);
    assert_eq!(lobby.on_event(Event::Started), Action::Continue);
    assert_eq!(lobby.state(), LobbyState::Draining);
}

#[test]
fn the_queue_of_a_lobby_holds_64_messages() {
    assert_eq!(BUFFER_SIZE, 64);
}

#[test]
fn a_running_lobby_answers_its_messages() {
    let mut lobby = Lobby::start(deck_of(vec![(CardKind::Analysis, 3)]));

    let action = lobby.on_event(Event::Received(ClientMessage::AddCard(CardKind::Axe)));
    assert_eq!(action, Action::Reply(Reply::Added(CardKind::Axe)));
    let action = lobby.on_event(Event::Received(ClientMessage::CountCards(CardKind::Axe)));
    assert_eq!(action, Action::Reply(Reply::Count(1)));
    let action = lobby.on_event(Event::Received(ClientMessage::DrawCard(CardKind::Analysis)));
    assert_eq!(action, Action::Reply(Reply::Drew(CardKind::Analysis)));
    let action = lobby.on_event(Event::Received(ClientMessage::DrawCard(CardKind::Scary)));
    assert_eq!(action, Action::Reply(Reply::NoSuchCard(CardKind::Scary)));

    assert_eq!(lobby.state(), LobbyState::Running);
    assert_eq!(lobby.deck().card_count(CardKind::Analysis), 2);
    assert_eq!(lobby.deck().card_count(CardKind::Axe), 1);
    assert_eq!(lobby.deck().total_card_count(), 3);
}

#[test]
fn a_random_draw_through_a_lobby_takes_a_card_that_is_there() {
    let mut lobby = Lobby::start(deck_of(vec![(CardKind::Missed, 1), (CardKind::Axe, 0)]));
    assert_eq!(lobby.handle(ClientMessage::DrawRandomCard), Reply::Drew(CardKind::Missed));
    assert_eq!(lobby.handle(ClientMessage::DrawRandomCard), Reply::EmptyDeck);
    assert_eq!(lobby.deck().total_card_count(), 0);
}

#[test]
fn a_kind_that_is_full_takes_no_more_cards() {
    let mut lobby = Lobby::start(deck_of(vec![(CardKind::Infected, 255)]));
    assert_eq!(lobby.handle(ClientMessage::AddCard(CardKind::Infected)), Reply::DeckFull);
    assert_eq!(lobby.deck().card_count(CardKind::Infected), 255);

    assert_eq!(lobby.handle(ClientMessage::AddCard(CardKind::Axe)), Reply::Added(CardKind::Axe));
    assert_eq!(lobby.deck().card_count(CardKind::Axe), 1);
    assert_eq!(lobby.deck().card_count(CardKind::Infected), 255);

    assert_eq!(
        lobby.handle(ClientMessage::DrawCard(CardKind::Infected)),
        Reply::Drew(CardKind::Infected)
    );
    assert_eq!(
        lobby.handle(ClientMessage::AddCard(CardKind::Infected)),
        Reply::Added(CardKind::Infected)
    );
    assert_eq!(lobby.handle(ClientMessage::CountCards(CardKind::Infected)), Reply::Count(255));
}

#[test]
fn a_lobby_drains_and_then_terminates() {
    let mut lobby = Lobby::start(Deck::empty());

    assert_eq!(lobby.on_event(Event::Started), Action::Continue);
    assert_eq!(lobby.state(), LobbyState::Running);

    assert_eq!(lobby.on_event(Event::SendersClosed), Action::Continue);
    assert_eq!(lobby.state(), LobbyState::Draining);
    assert!(!lobby.accepts_sends());

    let action = lobby.on_event(Event::Received(ClientMessage::AddCard(CardKind::BarredDoor)));
    assert_eq!(action, Action::Reply(Reply::Added(CardKind::BarredDoor)));
    assert_eq!(lobby.state(), LobbyState::Draining);

    assert_eq!(lobby.on_event(Event::SendersClosed), Action::Continue);
    assert_eq!(lobby.state(), LobbyState::Draining);

    assert_eq!(lobby.on_event(Event::QueueDrained), Action::Stop);
    assert_eq!(lobby.state(), LobbyState::Terminated);
    assert!(!lobby.accepts_sends());
}

#[test]
fn a_terminated_lobby_stays_terminated_and_refuses_messages() {
    let mut lobby = Lobby::start(deck_of(vec![(CardKind::Analysis, 3)]));
    assert_eq!(lobby.on_event(Event::QueueDrained), Action::Stop);

    let events = [
        Event::Started,
        Event::SendersClosed,
        Event::QueueDrained,
    ];
    for event in events {
        assert_eq!(lobby.on_event(event), Action::Stop);
        assert_eq!(lobby.state(), LobbyState::Terminated);
    }
    let action = lobby.on_event(Event::Received(ClientMessage::DrawCard(CardKind::Analysis)));
    assert_eq!(action, Action::Refuse);
    assert_eq!(lobby.state(), LobbyState::Terminated);
    assert_eq!(lobby.deck().card_count(CardKind::Analysis), 3);
}

struct Envelope {
    message: ClientMessage,
    reply_to: Option<oneshot::Sender<Reply>>,
}

async fn drive(mut lobby: Lobby, mut queue: mpsc::Receiver<Envelope>) -> Lobby {
    loop {
        let (event, reply_to) = match queue.recv().await {
            Some(envelope) => (Event::Received(envelope.message), envelope.reply_to),
            None => (Event::QueueDrained, None),
        };
        match lobby.on_event(event) {
            Action::Reply(reply) => {
                if let Some(reply_to) = reply_to {
                    let _ = reply_to.send(reply);
                }
            }
            Action::Continue | Action::Refuse => {}
            Action::Stop => return lobby,
        }
    }
}

#[test]
fn a_hundred_messages_from_many_senders_are_all_handled() {
    let runtime = tokio::runtime::Builder::new_multi_thread()
        .worker_threads(4)
        .build()
        .expect("a runtime");
    runtime.block_on(async {
        let (handle, queue) = mpsc::channel::<Envelope>(BUFFER_SIZE);
        let actor = tokio::spawn(drive(Lobby::start(Deck::empty()), queue));

        let mut senders = Vec::new();
        for _ in 0..10 {
            let handle = handle.clone();
            senders.push(tokio::spawn(async move {
                for _ in 0..10 {
                    let message = ClientMessage::AddCard(CardKind::BarredDoor);
                    let sent = handle.send(Envelope { message, reply_to: None }).await;
                    assert!(sent.is_ok());
                }
            }));
        }
        for sender in senders {
            sender.await.expect("the sender ran to its end");
        }

        let (reply_to, reply) = oneshot::channel();
        let message = ClientMessage::CountCards(CardKind::BarredDoor);
        let sent = handle.send(Envelope { message, reply_to: Some(reply_to) }).await;
        assert!(sent.is_ok());
        assert_eq!(reply.await.ok(), Some(Reply::Count(100)));

        drop(handle);
        let lobby = actor.await.expect("the actor ran to its end");
        assert_eq!(lobby.state(), LobbyState::Terminated);
        assert_eq!(lobby.deck().card_count(CardKind::BarredDoor), 100);
        assert_eq!(lobby.deck().total_card_count(), 100);
        for kind in every_kind() {
            if kind != CardKind::BarredDoor {
                assert_eq!(lobby.deck().card_count(kind), 0);
            }
        }
    });
}

#[test]
fn messages_left_in_the_queue_are_handled_after_the_senders_are_gone() {
    let runtime = tokio::runtime::Builder::new_current_thread().build().expect("a runtime");
    runtime.block_on(async {
        let (handle, queue) = mpsc::channel::<Envelope>(BUFFER_SIZE);
        for _ in 0..BUFFER_SIZE {
            let message = ClientMessage::AddCard(CardKind::Whiskey);
            assert!(handle.try_send(Envelope { message, reply_to: None }).is_ok());
        }
        let message = ClientMessage::AddCard(CardKind::Whiskey);
        assert!(handle.try_send(Envelope { message, reply_to: None }).is_err());
        drop(handle);

        let lobby = drive(Lobby::start(Deck::empty()), queue).await;
        assert_eq!(lobby.state(), LobbyState::Terminated);
        assert_eq!(lobby.deck().card_count(CardKind::Whiskey), 64);
    });
}
