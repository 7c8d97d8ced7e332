use chessh::chess::game::Game;
use chessh::server::session_manager::SessionManager;
use chessh::ssh::session::{GameEvent, SessionId, TerminalSize};
use chessh::ssh::session_runner::{engine_failed, engine_to_move, handle_action, handle_game_event, play_engine_move};
use chessh::ui::app::{App, AppAction, AppView};
use chessh::ui::terminal::{InputEvent, KeyCode, KeyModifiers};

#[test]
fn final_snapshot_is_applied_before_game_over_and_old_events_are_ignored() {
    let mut app = App::new("player".into());
    app.join_queue();
    let mut current = None;
    handle_game_event(
        &mut app,
        GameEvent::MatchFound { game_id: 1, opponent_name: "opponent".into(), is_white: true },
        &mut current,
    );
    let mut game = Game::new();
    for mv in ["f3", "e5", "g4", "Qh4#"] {
        game.play_san(mv).unwrap();
    }
    let fen = game.fen();
    handle_game_event(
        &mut app,
        GameEvent::StateUpdated { game_id: 1, game, finished_reason: Some("Checkmate".into()) },
        &mut current,
    );
    assert_eq!(app.view(), AppView::GameOver);
    assert_eq!(app.game().unwrap().fen(), fen);
    assert_eq!(current, None);
    app.return_to_lobby();
    app.join_queue();
    handle_game_event(
        &mut app,
        GameEvent::MatchFound { game_id: 2, opponent_name: "next".into(), is_white: false },
        &mut current,
    );
    handle_game_event(
        &mut app,
        GameEvent::StateUpdated { game_id: 1, game: Game::new(), finished_reason: Some("old event".into()) },
        &mut current,
    );
    assert_eq!(app.view(), AppView::Game);
    assert_eq!(current, Some(2));
}

#[test]
fn solo_typed_mate_enters_finished_state() {
    let mut manager = SessionManager::new();
    let session = SessionId::new();
    let mut app = App::new("solo".into());
    app.start_solo_game();
    let mut current = None;
    for text in ["f3", "e5", "g4", "Qh4"] {
        for key in text.chars().map(KeyCode::Char).chain([KeyCode::Enter]) {
            let action = app.handle_input(InputEvent::Key(key, KeyModifiers::NONE));
            handle_action(&mut app, &mut manager, session, action, &mut current);
        }
    }
    assert_eq!(app.view(), AppView::GameOver);
    assert!(app.game().unwrap().is_checkmate());
}

#[test]
fn cancel_after_match_assignment_does_not_abandon_game() {
    let mut manager = SessionManager::new();
    let session = SessionId::new();
    let mut app = App::new("player".into());
    app.join_queue();
    for id in [session, SessionId::new()] {
        manager.add_session(id, TerminalSize::default());
        manager.join_queue(id);
    }
    manager.try_match().unwrap();
    handle_action(&mut app, &mut manager, session, AppAction::LeaveQueue, &mut None);
    assert_eq!(app.view(), AppView::InQueue);
    assert!(manager.get_player_game_id(session).is_some());
}

#[test]
fn joining_and_leaving_the_queue_moves_between_lobby_and_search() {
    let mut manager = SessionManager::new();
    let session = SessionId::new();
    manager.add_session(session, TerminalSize::default());
    let mut app = App::new("player".into());
    let mut current = None;
    handle_action(&mut app, &mut manager, session, AppAction::JoinQueue, &mut current);
    assert_eq!(app.view(), AppView::InQueue);
    assert_eq!(manager.queue_size(), 1);
    handle_action(&mut app, &mut manager, session, AppAction::LeaveQueue, &mut current);
    assert_eq!(app.view(), AppView::Lobby);
    assert_eq!(manager.queue_size(), 0);
}

#[test]
fn online_moves_go_to_the_server_and_refusals_are_shown() {
    let mut manager = SessionManager::new();
    let a = SessionId::new();
    let b = SessionId::new();
    for id in [a, b] {
        manager.add_session(id, TerminalSize::default());
        manager.join_queue(id);
    }
    let gid = manager.try_match().unwrap();
    let info = manager.get_match_info(gid).unwrap();
    let mut app = App::new("white".into());
    app.join_queue();
    let mut current = None;
    handle_game_event(
        &mut app,
        GameEvent::MatchFound { game_id: gid, opponent_name: "black".into(), is_white: true },
        &mut current,
    );
    assert_eq!(current, Some(gid));
    handle_action(&mut app, &mut manager, info.black_id, AppAction::SubmitMoveText("e2e4".into()), &mut current);
    assert!(app.status_message.is_some());
    assert_eq!(manager.get_game(gid).unwrap().game.move_count(), 0);
    handle_action(&mut app, &mut manager, info.white_id, AppAction::SubmitMoveText("e2e4".into()), &mut current);
    assert_eq!(manager.get_game(gid).unwrap().game.move_count(), 1);
}

#[test]
fn the_computer_answers_on_its_turn_and_its_mate_finishes_the_game() {
    let mut manager = SessionManager::new();
    let session = SessionId::new();
    let mut app = App::new("player".into());
    let mut current = None;
    handle_action(&mut app, &mut manager, session, AppAction::StartComputer(5), &mut current);
    assert!(app.is_computer());
    assert!(!engine_to_move(&app));
    for (mine, reply) in [("f3", "e7e5"), ("g4", "d8h4")] {
        for key in mine.chars().map(KeyCode::Char).chain([KeyCode::Enter]) {
            let action = app.handle_input(InputEvent::Key(key, KeyModifiers::NONE));
            handle_action(&mut app, &mut manager, session, action, &mut current);
        }
        assert!(engine_to_move(&app));
        play_engine_move(&mut app, &mut manager, session, reply);
    }
    assert_eq!(app.view(), AppView::GameOver);
    assert!(app.game().unwrap().is_checkmate());
    assert!(!engine_to_move(&app));
}

#[test]
fn a_refused_computer_move_is_shown_and_a_failure_returns_to_the_lobby() {
    let mut manager = SessionManager::new();
    let session = SessionId::new();
    let mut app = App::new("player".into());
    let mut current = None;
    handle_action(&mut app, &mut manager, session, AppAction::StartComputer(0), &mut current);
    play_engine_move(&mut app, &mut manager, session, "e2e5");
    assert!(app.status_message.is_some());
    assert_eq!(app.game().unwrap().move_count(), 0);
    engine_failed(&mut app);
    assert_eq!(app.view(), AppView::Lobby);
    assert!(app.game().is_none());
    assert_eq!(app.status_message.as_deref(), Some("The computer stopped. Try again later."));
}

#[test]
fn leaving_an_online_game_forfeits_it() {
    let mut manager = SessionManager::new();
    let a = SessionId(1);
    let b = SessionId(2);
    for id in [a, b] {
        manager.add_session(id, TerminalSize::default());
        manager.register_game_event_channel(id);
        manager.join_queue(id);
    }
    let gid = manager.try_match_with(false).unwrap();
    let mut app = App::new("white".into());
    app.join_queue();
    let mut current = None;
    handle_game_event(
        &mut app,
        GameEvent::MatchFound { game_id: gid, opponent_name: "black".into(), is_white: true },
        &mut current,
    );
    manager.take_events();
    assert_eq!(app.handle_input(InputEvent::Key(KeyCode::F(4), KeyModifiers::NONE)), AppAction::NoAction);
    let action = app.handle_input(InputEvent::Key(KeyCode::Char('y'), KeyModifiers::NONE));
    assert_eq!(action, AppAction::ReturnToLobby);
    handle_action(&mut app, &mut manager, a, action, &mut current);
    assert_eq!(app.view(), AppView::Lobby);
    assert!(app.game().is_none());
    assert_eq!(current, None);
    assert!(manager.get_game(gid).is_none());
    assert_eq!(manager.get_player_game_id(a), None);
    assert_eq!(manager.get_player_game_id(b), None);
    let records = manager.history().get_records();
    assert_eq!(records.len(), 1);
    assert_eq!(records[0].id, gid);
    assert_eq!(records[0].result, "0-1");
    let events = manager.take_events();
    assert!(events.iter().any(|(to, e)| *to == b
        && matches!(e, GameEvent::StateUpdated { game_id, finished_reason: Some(_), .. } if *game_id == gid)));
}

#[test]
fn leaving_without_an_online_game_changes_nothing_on_the_server() {
    let mut manager = SessionManager::new();
    let session = SessionId(7);
    manager.add_session(session, TerminalSize::default());
    let mut app = App::new("solo".into());
    app.start_solo_game();
    let mut current = None;
    handle_action(&mut app, &mut manager, session, AppAction::ReturnToLobby, &mut current);
    assert_eq!(current, None);
    assert_eq!(app.view(), AppView::Lobby);
    assert!(manager.history().get_records().is_empty());
    assert_eq!(manager.session_count(), 1);
}
