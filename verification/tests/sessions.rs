use tug_words::dispatch::{handle_disconnect, handle_message, ConnState};
use tug_words::game::{GameError, GameMessage, GameStatus};
use tug_words::lexicon::Lexicon;
use tug_words::registry::AppState;

fn lexicon() -> Lexicon {
    Lexicon::new(vec!["Apple".to_string()]).expect("one usable word")
}

fn app_state() -> AppState {
    let (lobby_tx, _) = tokio::sync::broadcast::channel(8);
    AppState::new(lobby_tx)
}

fn create_game(state: &AppState, lex: &Lexicon, conn: &mut ConnState, who: &str, rounds: u8) -> String {
    let d = handle_message(
        state,
        lex,
        conn,
        GameMessage::CreateGame { player_id: who.to_string(), rounds },
    );
    assert!(d.subscription.is_some());
    assert_eq!(d.replies.len(), 1);
    match &d.replies[0] {
        GameMessage::GameCreated { game_id, player_id } => {
            assert_eq!(player_id, who);
            assert_eq!(game_id.len(), 8);
            game_id.clone()
        }
        other => panic!("expected a creation ack, got {:?}", other),
    }
}

#[test]
fn full_match_over_the_registry() {
    let state = app_state();
    let lex = lexicon();
    let mut alice = ConnState::new();
    let game_id = create_game(&state, &lex, &mut alice, "alice", 3);
    assert_eq!(alice.game_id, Some(game_id.clone()));
    assert_eq!(alice.player_id, Some("alice".to_string()));

    let mut bob = ConnState::new();
    let d = handle_message(
        &state,
        &lex,
        &mut bob,
        GameMessage::JoinGame { game_id: game_id.clone(), player_id: "bob".to_string() },
    );
    assert!(d.subscription.is_some());
    match &d.replies[0] {
        GameMessage::JoinGame { game_id: g, player_id: p } => {
            assert_eq!(g, &game_id);
            assert_eq!(p, "bob");
        }
        other => panic!("expected a join ack, got {:?}", other),
    }

    for round in 1..=3u8 {
        let snapshot = state.game_state(&game_id).expect("game is live");
        assert_eq!(snapshot.current_round, round);
        assert!("apple".contains(&snapshot.hint_letters));
        let d = handle_message(
            &state,
            &lex,
            &mut alice,
            GameMessage::SubmitWord { word: "apple".to_string() },
        );
        assert_eq!(d.replies.len(), 0);
        assert!(d.subscription.is_none());
    }

    let final_state = state.game_state(&game_id).expect("finished game stays listed");
    assert_eq!(final_state.status, GameStatus::Finished);
    assert_eq!(final_state.rope_position, 3);
    assert_eq!(final_state.creator_score, 3);
    let game = state.remove_game(&game_id).expect("still registered");
    assert_eq!(game.get_winner(), Some("alice".to_string()));
}

#[test]
fn intermediate_round_advances_rope_and_counter() {
    let state = app_state();
    let lex = lexicon();
    let mut alice = ConnState::new();
    let game_id = create_game(&state, &lex, &mut alice, "alice", 3);
    let mut bob = ConnState::new();
    handle_message(
        &state,
        &lex,
        &mut bob,
        GameMessage::JoinGame { game_id: game_id.clone(), player_id: "bob".to_string() },
    );
    handle_message(
        &state,
        &lex,
        &mut alice,
        GameMessage::SubmitWord { word: "apple".to_string() },
    );
    let snapshot = state.game_state(&game_id).unwrap();
    assert_eq!(snapshot.rope_position, 1);
    assert_eq!(snapshot.current_round, 2);
    assert_eq!(snapshot.status, GameStatus::InProgress);
}

#[test]
fn disconnect_before_join_removes_the_session_silently() {
    let state = app_state();
    let lex = lexicon();
    let mut alice = ConnState::new();
    let game_id = create_game(&state, &lex, &mut alice, "alice", 3);

    let events = handle_disconnect(&state, &alice);
    assert_eq!(events.len(), 0);
    assert!(state.game_state(&game_id).is_none());

    // A later join finds nothing.
    let mut bob = ConnState::new();
    let d = handle_message(
        &state,
        &lex,
        &mut bob,
        GameMessage::JoinGame { game_id, player_id: "bob".to_string() },
    );
    match &d.replies[0] {
        GameMessage::Error { message } => assert_eq!(message, "Game not found"),
        other => panic!("expected an error, got {:?}", other),
    }
    assert_eq!(bob.game_id, None);
}

#[test]
fn disconnect_of_bound_player_notifies_the_opponent() {
    let state = app_state();
    let lex = lexicon();
    let mut alice = ConnState::new();
    let game_id = create_game(&state, &lex, &mut alice, "alice", 3);
    let mut bob = ConnState::new();
    let d = handle_message(
        &state,
        &lex,
        &mut bob,
        GameMessage::JoinGame { game_id: game_id.clone(), player_id: "bob".to_string() },
    );
    let mut bob_rx = d.subscription.expect("joiner subscribes");
    // Drain the events the join itself published.
    while bob_rx.try_recv().is_ok() {}

    let events = handle_disconnect(&state, &alice);
    assert_eq!(events.len(), 2);
    match &events[0] {
        GameMessage::GameEnd { winner, .. } => assert_eq!(winner, &Some("bob".to_string())),
        other => panic!("expected a game end, got {:?}", other),
    }
    assert!(state.game_state(&game_id).is_none());
    // The events reached bob's relay through the already-detached hub.
    match bob_rx.try_recv() {
        Ok(GameMessage::GameEnd { winner, .. }) => assert_eq!(winner, Some("bob".to_string())),
        other => panic!("expected the relayed game end, got {:?}", other),
    }
}

#[test]
fn hub_relays_join_events_to_the_creator() {
    let state = app_state();
    let lex = lexicon();
    let mut alice = ConnState::new();
    let d = handle_message(
        &state,
        &lex,
        &mut alice,
        GameMessage::CreateGame { player_id: "alice".to_string(), rounds: 2 },
    );
    let mut alice_rx = d.subscription.expect("creator subscribes");
    let game_id = alice.game_id.clone().unwrap();
    let mut bob = ConnState::new();
    handle_message(
        &state,
        &lex,
        &mut bob,
        GameMessage::JoinGame { game_id, player_id: "bob".to_string() },
    );
    match alice_rx.try_recv() {
        Ok(GameMessage::PlayerJoined { player_id }) => assert_eq!(player_id, "bob"),
        other => panic!("expected the join event, got {:?}", other),
    }
    match alice_rx.try_recv() {
        Ok(GameMessage::GameState { state: s }) => {
            assert_eq!(s.status, GameStatus::InProgress);
            assert_eq!(s.joiner, Some("bob".to_string()));
        }
        other => panic!("expected the snapshot, got {:?}", other),
    }
}

#[test]
fn second_submission_after_the_end_is_refused() {
    let state = app_state();
    let lex = lexicon();
    let mut alice = ConnState::new();
    let game_id = create_game(&state, &lex, &mut alice, "alice", 1);
    let mut bob = ConnState::new();
    handle_message(
        &state,
        &lex,
        &mut bob,
        GameMessage::JoinGame { game_id, player_id: "bob".to_string() },
    );
    let d = handle_message(
        &state,
        &lex,
        &mut alice,
        GameMessage::SubmitWord { word: "apple".to_string() },
    );
    assert_eq!(d.replies.len(), 0);
    // Bob's competing submission arrives second and must lose the round.
    let d = handle_message(
        &state,
        &lex,
        &mut bob,
        GameMessage::SubmitWord { word: "apple".to_string() },
    );
    match &d.replies[0] {
        GameMessage::Error { message } => assert_eq!(message, "Game not in progress"),
        other => panic!("expected an error, got {:?}", other),
    }
}

#[test]
fn join_of_own_game_is_refused_over_the_registry() {
    let state = app_state();
    let lex = lexicon();
    let mut alice = ConnState::new();
    let game_id = create_game(&state, &lex, &mut alice, "alice", 2);
    let mut second = ConnState::new();
    let d = handle_message(
        &state,
        &lex,
        &mut second,
        GameMessage::JoinGame { game_id, player_id: "alice".to_string() },
    );
    match &d.replies[0] {
        GameMessage::Error { message } => {
            assert_eq!(message, "Cannot be joined by the creator!")
        }
        other => panic!("expected an error, got {:?}", other),
    }
    assert_eq!(second.game_id, None);
}

#[test]
fn unbound_submission_is_ignored() {
    let state = app_state();
    let lex = lexicon();
    let mut conn = ConnState::new();
    let d = handle_message(
        &state,
        &lex,
        &mut conn,
        GameMessage::SubmitWord { word: "apple".to_string() },
    );
    assert_eq!(d.replies.len(), 0);
    assert!(d.subscription.is_none());
}

#[test]
fn zero_rounds_is_refused_at_creation() {
    let state = app_state();
    let lex = lexicon();
    let mut conn = ConnState::new();
    let d = handle_message(
        &state,
        &lex,
        &mut conn,
        GameMessage::CreateGame { player_id: "alice".to_string(), rounds: 0 },
    );
    match &d.replies[0] {
        GameMessage::Error { message } => assert_eq!(message, "Rounds must be at least 1"),
        other => panic!("expected an error, got {:?}", other),
    }
    assert_eq!(conn.game_id, None);
    assert_eq!(conn.player_id, None);
}

#[test]
fn server_acks_are_ignored_as_inbound() {
    let state = app_state();
    let lex = lexicon();
    let mut conn = ConnState::new();
    let d = handle_message(
        &state,
        &lex,
        &mut conn,
        GameMessage::Error { message: "noise".to_string() },
    );
    assert_eq!(d.replies.len(), 0);
    assert!(d.subscription.is_none());
    assert_eq!(conn.game_id, None);
}
