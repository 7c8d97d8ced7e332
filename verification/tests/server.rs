use std::collections::HashMap;
use std::collections::VecDeque;

use chessh::chess::game::{Game, GameResult};
use chessh::server::game_session::GameSession;
use chessh::server::session_manager::{PlayerState, SessionManager};
use chessh::ssh::session::{GameEvent, SessionId, TerminalSize};
use chessh::storage::game_history::{GameHistory, GameRecord};
use chessh::ssh::host_key::{plan_host_key, HostKeyPlan, KeyRead};

/// The messages each player has received and not yet read.
struct Inboxes {
    boxes: HashMap<SessionId, VecDeque<GameEvent>>,
}

impl Inboxes {
    fn new() -> Self {
        Inboxes { boxes: HashMap::new() }
    }

    fn collect(&mut self, manager: &mut SessionManager) {
        for (id, event) in manager.take_events() {
            self.boxes.entry(id).or_default().push_back(event);
        }
    }

    fn recv(&mut self, manager: &mut SessionManager, id: SessionId) -> Option<GameEvent> {
        self.collect(manager);
        self.boxes.entry(id).or_default().pop_front()
    }
}

fn matched() -> (SessionManager, u64, SessionId, SessionId, Inboxes) {
    let mut manager = SessionManager::new();
    let mut inboxes = Inboxes::new();
    for _ in 0..2 {
        let id = SessionId::new();
        manager.add_session(id, TerminalSize::default());
        manager.register_game_event_channel(id);
        manager.join_queue(id);
    }
    let gid = manager.try_match().unwrap();
    let info = manager.get_match_info(gid).unwrap();
    assert!(matches!(
        inboxes.recv(&mut manager, info.white_id).unwrap(),
        GameEvent::MatchFound { is_white: true, .. }
    ));
    assert!(matches!(
        inboxes.recv(&mut manager, info.black_id).unwrap(),
        GameEvent::MatchFound { is_white: false, .. }
    ));
    (manager, gid, info.white_id, info.black_id, inboxes)
}

fn assert_released(manager: &mut SessionManager, gid: u64, white: SessionId, black: SessionId) {
    assert!(manager.get_game(gid).is_none());
    assert_eq!(manager.history().get_records().len(), 1);
    assert_eq!(manager.history().get_records()[0].id, gid);
    for id in [white, black] {
        assert_eq!(manager.get_session(id).unwrap().state, PlayerState::Idle);
        manager.join_queue(id);
    }
    let next = manager.try_match().unwrap();
    assert_ne!(next, gid);
    assert!(manager.get_game(next).is_some());
}

#[test]
fn san_promotions_replay_identically_including_underpromotions() {
    for (san, uci) in [("a8=Q+", "a7a8q"), ("a8=R+", "a7a8r"), ("a8=B", "a7a8b"), ("a8=N", "a7a8n")] {
        let white = SessionId::new();
        let mut session = GameSession::new(1, white, SessionId::new());
        session.game = Game::from_fen("7k/P7/8/8/8/8/8/7K w - - 0 1").unwrap();
        let mut replica = Game::from_fen(&session.game.fen()).unwrap();
        let played = session.play_move_text(white, san).unwrap();
        assert_eq!(played, uci);
        replica.play_uci(&played).unwrap();
        assert_eq!(replica.fen(), session.game.fen());
    }
}

#[test]
fn castling_replays_using_standard_uci() {
    for (san, uci) in [("O-O", "e1g1"), ("O-O-O", "e1c1")] {
        let white = SessionId::new();
        let mut session = GameSession::new(1, white, SessionId::new());
        session.game = Game::from_fen("r3k2r/8/8/8/8/8/8/R3K2R w KQkq - 0 1").unwrap();
        let mut replica = Game::from_fen(&session.game.fen()).unwrap();
        let played = session.play_move_text(white, san).unwrap();
        assert_eq!(played, uci);
        replica.play_uci(&played).unwrap();
        assert_eq!(replica.fen(), session.game.fen());
    }
}

#[test]
fn both_players_receive_identical_final_position_and_can_play_again() {
    for moves in [vec!["f3", "e5", "g4", "Qh4#"], vec!["e4", "e5", "Bc4", "Nc6", "Qh5", "Nf6", "Qxf7#"]] {
        let (mut manager, gid, white, black, mut inboxes) = matched();
        for (i, mv) in moves.iter().enumerate() {
            manager.submit_move(if i % 2 == 0 { white } else { black }, gid, mv).unwrap();
            let GameEvent::StateUpdated { game: wg, finished_reason: reason, .. } =
                inboxes.recv(&mut manager, white).unwrap()
            else {
                panic!()
            };
            let GameEvent::StateUpdated { game: bg, .. } = inboxes.recv(&mut manager, black).unwrap() else {
                panic!()
            };
            assert_eq!(wg.fen(), bg.fen());
            assert_eq!(wg.san_history(), bg.san_history());
            assert_eq!(reason.is_some(), i == moves.len() - 1);
            if reason.is_some() {
                assert!(wg.is_checkmate());
            }
        }
        assert!(manager.submit_move(white, gid, "e4").is_err());
        assert_released(&mut manager, gid, white, black);
    }
}

#[test]
fn resign_and_agreed_draw_release_both_players() {
    for draw in [false, true] {
        let (mut manager, gid, white, black, mut inboxes) = matched();
        if draw {
            manager.offer_draw(white, gid).unwrap();
            assert!(matches!(inboxes.recv(&mut manager, black).unwrap(), GameEvent::DrawOffered { .. }));
            manager.offer_draw(black, gid).unwrap();
        } else {
            manager.resign_game(white, gid).unwrap();
        }
        for id in [white, black] {
            let GameEvent::StateUpdated { game, finished_reason, .. } = inboxes.recv(&mut manager, id).unwrap()
            else {
                panic!()
            };
            assert!(finished_reason.is_some());
            assert_eq!(game.result(), if draw { GameResult::Draw } else { GameResult::WhiteResigned });
            assert!(inboxes.recv(&mut manager, id).is_none());
        }
        assert_released(&mut manager, gid, white, black);
    }
}

#[test]
fn disconnect_finishes_once_and_releases_opponent() {
    let (mut manager, gid, white, black, mut inboxes) = matched();
    manager.remove_session(white);
    manager.remove_session(white);
    assert!(manager.get_game(gid).is_none());
    assert_eq!(manager.get_session(black).unwrap().state, PlayerState::Idle);
    let GameEvent::StateUpdated { game, finished_reason, .. } = inboxes.recv(&mut manager, black).unwrap() else {
        panic!()
    };
    assert_eq!(game.result(), GameResult::WhiteResigned);
    assert_eq!(finished_reason.as_deref(), Some("Opponent disconnected"));
    assert!(inboxes.recv(&mut manager, black).is_none());
    manager.join_queue(black);
    assert_eq!(manager.queue_size(), 1);
}

#[test]
fn stalemate_and_insufficient_material_finish_normally() {
    for (fen, mv) in [("7k/8/5KQ1/8/8/8/8/8 w - - 0 1", "Qf7"), ("7k/8/8/8/8/8/1b6/K7 w - - 0 1", "Kxb2")] {
        let (mut manager, gid, white, black, mut inboxes) = matched();
        manager.get_game_mut(gid).unwrap().game = Game::from_fen(fen).unwrap();
        manager.submit_move(white, gid, mv).unwrap();
        let GameEvent::StateUpdated { game, finished_reason, .. } = inboxes.recv(&mut manager, white).unwrap() else {
            panic!()
        };
        assert_eq!(game.result(), GameResult::Draw);
        assert!(finished_reason.is_some());
        assert_released(&mut manager, gid, white, black);
    }
}

#[test]
fn queue_rejects_unknown_and_busy_players_and_removes_disconnects() {
    let (mut manager, gid, white, _, _) = matched();
    manager.join_queue(white);
    manager.join_queue(SessionId::new());
    manager.leave_queue(white);
    assert_eq!(manager.queue_size(), 0);
    assert_eq!(manager.get_player_game_id(white), Some(gid));
    let id = SessionId::new();
    manager.add_session(id, TerminalSize::default());
    manager.join_queue(id);
    manager.join_queue(id);
    assert_eq!(manager.queue_size(), 1);
    manager.remove_session(id);
    assert_eq!(manager.queue_size(), 0);
}

/// The archive side of a disconnect and a shutdown, without the file: the
/// records kept, their contents, and game IDs that go on past the archive
/// after a restart.
#[test]
fn archive_records_disconnect_and_shutdown_and_resumes_ids() {
    let (mut manager, gid, white, black, _) = matched();
    manager.set_username(white, "Alice".into());
    manager.set_username(black, "Bob".into());
    manager.submit_move(white, gid, "e4").unwrap();
    let fen = manager.get_game(gid).unwrap().game.fen();
    manager.remove_session(white);
    manager.remove_session(white);
    let record = &manager.history().get_records()[0];
    assert_eq!(record.white_player, "Alice");
    assert_eq!(record.black_player, "Bob");
    assert_eq!(record.result, "0-1");
    assert_eq!(record.final_fen, fen);
    assert_eq!(record.moves, ["e4"]);
    manager.add_session(white, TerminalSize::default());
    manager.join_queue(white);
    manager.join_queue(black);
    let next = manager.try_match().unwrap();
    manager.shutdown();
    manager.shutdown();
    assert_eq!(manager.history().get_records().len(), 2);
    assert!(manager.get_game(next).is_none());
    assert_eq!(manager.history().pending_records().len(), 2);
    manager.mark_history_persisted();
    assert_eq!(manager.history().pending_records().len(), 1);
    assert_eq!(manager.history().pending_records()[0].reason, "Server shutdown");
    manager.mark_history_persisted();
    manager.mark_history_persisted();
    assert_eq!(manager.history().pending_records().len(), 0);
    let mut reloaded = GameHistory::new();
    for r in manager.history().get_records() {
        reloaded.add_record(r.clone()).unwrap();
    }
    let mut restarted = SessionManager::with_history(reloaded);
    let records = restarted.history().get_records();
    assert_eq!(records.len(), 2);
    assert_eq!(records[1].reason, "Server shutdown");
    assert_eq!(records[1].result, "*");
    for id in [white, black] {
        restarted.add_session(id, TerminalSize::default());
        restarted.join_queue(id);
    }
    assert!(restarted.try_match().unwrap() > next);
}

fn record(id: u64) -> GameRecord {
    GameRecord {
        id,
        white_player: "white".into(),
        black_player: "black".into(),
        result: "0-1".into(),
        reason: "Checkmate".into(),
        moves: vec!["f3".into(), "e5".into(), "g4".into(), "Qh4#".into()],
        final_fen: "rnb1kbnr/pppp1ppp/8/4p3/6Pq/5P2/PPPPP2P/RNBQKBNR w KQkq - 1 3".into(),
        timestamp: 1,
    }
}

#[test]
fn archive_refuses_repeated_ids_and_counts_past_the_highest() {
    let mut history = GameHistory::new();
    assert_eq!(history.next_id(), 1);
    history.add_record(record(2)).unwrap();
    history.add_record(record(1)).unwrap();
    assert_eq!(history.next_id(), 3);
    assert_eq!(history.get_records(), &[record(2), record(1)]);
    assert_eq!(history.add_record(record(2)), Err("Duplicate game ID".to_string()));
    assert_eq!(history.get_records().len(), 2);
    assert_eq!(history.get_player_games("white").len(), 2);
    assert_eq!(history.get_player_games("nobody").len(), 0);
    assert_eq!(history.pending_records().len(), 2);
    history.mark_persisted();
    assert_eq!(history.pending_records(), &[record(1)]);
    history.mark_persisted();
    assert!(history.pending_records().is_empty());
}

#[test]
fn game_ids_are_fresh_and_players_are_paired_in_queue_order() {
    let mut manager = SessionManager::new();
    let ids: Vec<SessionId> = (0..4).map(|_| SessionId::new()).collect();
    for id in &ids {
        manager.add_session(*id, TerminalSize::default());
        manager.join_queue(*id);
    }
    assert_eq!(manager.queue_size(), 4);
    let first = manager.try_match().unwrap();
    let second = manager.try_match().unwrap();
    assert!(second > first);
    assert!(manager.try_match().is_none());
    let info = manager.get_match_info(first).unwrap();
    let mut pair = [info.white_id, info.black_id];
    pair.sort_by_key(|s| s.0);
    let mut expected = [ids[0], ids[1]];
    expected.sort_by_key(|s| s.0);
    assert_eq!(pair, expected);
    assert_eq!(manager.get_session(ids[0]).unwrap().state, PlayerState::Playing(first));
    assert_eq!(manager.get_session(ids[3]).unwrap().state, PlayerState::Playing(second));
}

#[test]
fn a_typed_b_pawn_move_is_san_not_a_bishop() {
    let w = SessionId(1);
    let mut s = GameSession::new(1, w, SessionId(2));
    assert_eq!(s.play_move_text(w, "b4"), Ok("b2b4".to_string()));
    assert_eq!(s.game.move_count(), 1);
    assert_eq!(s.game.turn(), chessh::chess::types::Color::Black);
    assert_eq!(s.play_move_text(SessionId(2), "nf6"), Ok("g8f6".to_string()));
    assert_eq!(s.play_move_text(w, "b9"), Err("Invalid move: b9".to_string()));
}

#[test]
fn a_match_tells_both_players_their_colour_and_opponent() {
    let mut manager = SessionManager::new();
    let (a, b, c) = (SessionId(1), SessionId(2), SessionId(3));
    for id in [a, b, c] {
        manager.add_session(id, TerminalSize::default());
        manager.register_game_event_channel(id);
        manager.join_queue(id);
    }
    manager.take_events();
    let gid = manager.try_match().unwrap();
    assert_eq!(manager.queue_size(), 1);
    assert_eq!(manager.get_player_game_id(a), Some(gid));
    assert_eq!(manager.get_player_game_id(b), Some(gid));
    assert_eq!(manager.get_player_game_id(c), None);
    let info = manager.get_match_info(gid).unwrap();
    let events = manager.take_events();
    assert_eq!(events.len(), 2);
    for (to, e) in &events {
        match e {
            GameEvent::MatchFound { game_id, is_white, opponent_name } => {
                assert_eq!(*game_id, gid);
                assert_eq!(*is_white, *to == info.white_id);
                let other = if *to == info.white_id { info.black_id } else { info.white_id };
                assert_eq!(*opponent_name, format!("session-{}", other.0));
            },
            _ => panic!("unexpected event"),
        }
    }
    assert!(manager.try_match().is_none());
}

#[test]
fn the_session_counter_hands_out_increasing_ids() {
    let mut counter = chessh::ssh::session::SessionCounter::new();
    let first = counter.issue().unwrap();
    let second = counter.issue().unwrap();
    assert_eq!(first, SessionId(1));
    assert_eq!(second, SessionId(2));
    assert!(second.0 > first.0);
}

#[test]
fn host_key_plans_create_only_when_missing_and_refuse_bad_keys() {
    assert!(matches!(plan_host_key(KeyRead::Missing), HostKeyPlan::Create));
    assert!(matches!(plan_host_key(KeyRead::Text("not a key".into())), HostKeyPlan::Refuse(_)));
    assert!(matches!(plan_host_key(KeyRead::Text(String::new())), HostKeyPlan::Refuse(_)));
    let key = russh::keys::PrivateKey::random(&mut rand::rng(), russh::keys::Algorithm::Ed25519).unwrap();
    let text = key.to_openssh(russh::keys::ssh_key::LineEnding::LF).unwrap().to_string();
    match plan_host_key(KeyRead::Text(text)) {
        HostKeyPlan::Use(read) => assert_eq!(read.public_key(), key.public_key()),
        _ => panic!("a valid key is used"),
    }
}
