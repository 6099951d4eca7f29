use stay_away_server::identifier::{generate_lobby_id, lobby_id_from};
use stay_away_server::lobby::ClientMessage;
use stay_away_server::registry::{AlreadyExists, Registry, SessionNotFound};
use tokio::sync::mpsc;

#[test]
fn a_new_registry_is_empty() {
    let registry: Registry<u32> = Registry::new();
    assert_eq!(registry.lookup(&"anyone".to_string()), Err(SessionNotFound));
}

#[test]
fn looking_up_an_unknown_session_fails_every_time() {
    let registry: Registry<u32> = Registry::new();
    let id = "never-registered".to_string();
    assert_eq!(registry.lookup(&id), Err(SessionNotFound));
    assert_eq!(registry.lookup(&id), Err(SessionNotFound));
}

#[test]
fn a_registered_handle_can_be_looked_up_and_used() {
    let mut registry: Registry<mpsc::Sender<ClientMessage>> = Registry::new();
    let id = generate_lobby_id();
    assert!(registry.lookup(&id).is_err());
    assert!(registry.lookup(&id).is_err());

    let (tx, mut rx) = mpsc::channel::<ClientMessage>(4);
    assert_eq!(registry.register(id.clone(), tx), Ok(()));

    let handle = registry.lookup(&id).expect("the session was registered");
    handle.try_send(ClientMessage::DrawRandomCard).expect("the queue has room");
    assert_eq!(rx.try_recv().ok(), Some(ClientMessage::DrawRandomCard));
}

#[test]
fn an_identifier_is_registered_once() {
    let mut registry: Registry<u32> = Registry::new();
    assert_eq!(registry.register("a".to_string(), 1), Ok(()));
    assert_eq!(registry.register("b".to_string(), 2), Ok(()));
    assert_eq!(registry.register("a".to_string(), 3), Err(AlreadyExists));
    assert_eq!(registry.lookup(&"a".to_string()), Ok(&1));
    assert_eq!(registry.lookup(&"b".to_string()), Ok(&2));
}

#[test]
fn a_removed_session_is_not_found() {
    let mut registry: Registry<u32> = Registry::new();
    assert_eq!(registry.register("a".to_string(), 1), Ok(()));
    assert_eq!(registry.register("b".to_string(), 2), Ok(()));
    assert_eq!(registry.register("c".to_string(), 3), Ok(()));

    registry.remove(&"b".to_string());
    assert_eq!(registry.lookup(&"b".to_string()), Err(SessionNotFound));
    assert_eq!(registry.lookup(&"a".to_string()), Ok(&1));
    assert_eq!(registry.lookup(&"c".to_string()), Ok(&3));

    registry.remove(&"unknown".to_string());

    assert_eq!(registry.register("b".to_string(), 4), Ok(()));
    assert_eq!(registry.lookup(&"b".to_string()), Ok(&4));
}

#[test]
fn an_identifier_is_its_token_in_decimal() {
    assert_eq!(lobby_id_from(0), "0");
    assert_eq!(lobby_id_from(7), "7");
    assert_eq!(lobby_id_from(10), "10");
    assert_eq!(lobby_id_from(123456), "123456");
    assert_eq!(lobby_id_from(1_000_000_007), "1000000007");
    assert_eq!(lobby_id_from(u64::MAX), "18446744073709551615");
}

#[test]
fn different_tokens_give_different_identifiers() {
    let tokens: [u64; 8] = [0, 1, 9, 10, 11, 100, 101, u64::MAX];
    for a in tokens {
        for b in tokens {
            assert_eq!(lobby_id_from(a) == lobby_id_from(b), a == b);
        }
    }
    for token in 0..2000u64 {
        assert_eq!(lobby_id_from(token), token.to_string());
        assert_ne!(lobby_id_from(token), lobby_id_from(token + 1));
    }
}

#[test]
fn a_generated_identifier_is_the_identifier_of_a_token() {
    for _ in 0..50 {
        let id = generate_lobby_id();
        let token: u64 = id.parse().expect("an identifier is a number in decimal");
        assert_eq!(lobby_id_from(token), id);
    }
}

#[test]
fn lobbies_made_one_after_another_are_all_registered() {
    let mut registry: Registry<u32> = Registry::new();
    let mut ids = Vec::new();
    for lobby in 0..20u32 {
        let id = generate_lobby_id();
        assert_eq!(registry.register(id.clone(), lobby), Ok(()));
        ids.push(id);
    }
    for (lobby, id) in ids.iter().enumerate() {
        assert_eq!(registry.lookup(id).ok().copied(), Some(lobby as u32));
    }
}
