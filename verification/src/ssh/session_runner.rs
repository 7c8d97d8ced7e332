//! What a player's session does with the player's actions and with the
//! server's messages. The connection loop that reads input, draws the
//! screen and holds the server lock lives with the embedding application;
//! it calls these functions.
use vstd::prelude::*;

use crate::chess::game::{uci_play_spec, Game, GameResult, GameView};
use crate::chess::types::Color;
use crate::server::game_session::{play_text, text_move, turn_of};
use crate::ui::controls::GameControl;
use crate::server::session_manager::{
    end_reason, game_over, join_queue_done, leave_queue_done, offer_draw_done, resign_game_done, submit_move_done,
    try_match_done, SessionManager,
};
use crate::ssh::session::{EventView, GameEvent, SessionId};
use crate::ui::app::{finish_done, returned_to_lobby, text_of, App, AppAction, AppView};

verus! {

/// What sending a move did: an online game's move goes to the server (a
/// refusal is shown), a move against the computer is played on the board as
/// the server would take it (SAN or UCI), a practice move is played as UCI.
pub open spec fn move_sent(
    a0: App,
    a1: App,
    m0: SessionManager,
    m1: SessionManager,
    sid: SessionId,
    game_id: Option<u64>,
    text: Seq<char>,
) -> bool {
    match game_id {
        Some(id) => exists|r: Result<(), String>|
            #[trigger] submit_move_done(m0, m1, sid, id, text, r) && match r {
                Ok(_) => a1 == a0,
                Err(e) => a1 == (App { status_message: a1.status_message, ..a0 }) && text_of(a1.status_message)
                    == Some(e@),
            },
        None => {
            &&& m1 == m0
            &&& match a0.game {
                Some(g) => {
                    let (st, g2) = if a0.computer { text_move(g@, text) } else { uci_play_spec(g@, text) };
                    &&& a1.game matches Some(x) && x@ == g2
                    &&& match st {
                        Ok(_) => a1 == (App { game: a1.game, ..a0 }),
                        Err(e) => a1 == (App { game: a1.game, status_message: a1.status_message, ..a0 })
                            && text_of(a1.status_message) == Some(e),
                    }
                },
                None => a1 == a0,
            }
        },
    }
}

/// Sends a move the player made.
pub fn submit_move(
    app: &mut App,
    manager: &mut SessionManager,
    session_id: SessionId,
    game_id: Option<u64>,
    text: &str,
)
    requires
        old(manager).wf(),
    ensures
        final(manager).wf(),
        move_sent(*old(app), *final(app), *old(manager), *final(manager), session_id, game_id, text@),
{
    match game_id {
        Some(id) => {
            let r = manager.submit_move(session_id, id, text);
            match r {
                Ok(()) => {},
                Err(e) => app.set_status(Some(e)),
            }
        },
        None => {
            let computer = app.is_computer();
            let r = match app.game_mut() {
                Some(game) => if computer {
                    play_text(game, text)
                } else {
                    game.play_uci(text)
                },
                None => return,
            };
            match r {
                Ok(()) => {},
                Err(e) => app.set_status(Some(e)),
            }
        },
    }
}

/// After a practice game's move: a position that ends the game shows the
/// final board with its reason.
pub open spec fn solo_settled(a0: App, a1: App) -> bool {
    if !a0.is_multiplayer && a0.view == AppView::Game && a0.game is Some && game_over(a0.game->Some_0@) {
        finish_done(a0, a1, end_reason(a0.game->Some_0@))
    } else {
        a1 == a0
    }
}

/// Ends a practice game whose position is over.
fn settle_solo(app: &mut App)
    ensures
        solo_settled(*old(app), *final(app)),
{
    if !app.is_multiplayer() && app.view() == AppView::Game {
        let reason = match app.game() {
            Some(game) => {
                if !game.is_game_over() {
                    return;
                }
                if game.is_checkmate() {
                    "Checkmate"
                } else if game.is_stalemate() {
                    "Stalemate"
                } else {
                    "Insufficient material"
                }
            },
            None => return,
        };
        app.finish_game(String::from_str(reason));
    }
}

/// What an action of the player did to the screen and the server, before
/// a finished practice game is shown.
pub open spec fn action_step(
    a0: App,
    a1: App,
    m0: SessionManager,
    m1: SessionManager,
    sid: SessionId,
    action: AppAction,
    c0: Option<u64>,
    c1: Option<u64>,
) -> bool {
    match action {
        AppAction::JoinQueue => {
            &&& c1 == c0
            &&& a1 == (App { view: AppView::InQueue, status_message: a1.status_message, ..a0 })
            &&& text_of(a1.status_message) == Some("Searching for opponent..."@)
            &&& exists|m: SessionManager, r: Option<u64>|
                #[trigger] join_queue_done(m0, m, sid) && #[trigger] try_match_done(m, m1, r)
        },
        AppAction::LeaveQueue => {
            &&& c1 == c0
            &&& if m0.sessions().contains_key(sid.0) && m0.sessions()[sid.0].state is Playing {
                m1 == m0 && a1 == a0
            } else {
                leave_queue_done(m0, m1, sid) && a1 == (App { view: AppView::Lobby, status_message: None, ..a0 })
            }
        },
        AppAction::Quit => c1 == c0 && m1 == m0 && a1 == (App { should_quit: true, ..a0 }),
        AppAction::StartComputer(level) => {
            &&& c1 == c0
            &&& m1 == m0
            &&& a1.view == AppView::Game
            &&& a1.computer
            &&& !a1.is_multiplayer
            &&& !a1.is_black_player
            &&& a1.game matches Some(g) && g@ == Game::new_spec()
        },
        AppAction::Resign => {
            &&& c1 == c0
            &&& match c0 {
                Some(id) => exists|r: Result<(), String>|
                    #[trigger] resign_game_done(m0, m1, sid, id, r) && match r {
                        Ok(_) => a1 == a0,
                        Err(e) => a1 == (App { status_message: a1.status_message, ..a0 }) && text_of(
                            a1.status_message,
                        ) == Some(e@),
                    },
                None => m1 == m0 && match a0.game {
                    Some(g) => exists|a: App|
                        #[trigger] resigned_on_board(a0, a) && finish_done(a, a1, "Resignation"@),
                    None => a1 == a0,
                },
            }
        },
        AppAction::OfferDraw => {
            &&& c1 == c0
            &&& match c0 {
                Some(id) => exists|r: Result<(), String>|
                    #[trigger] offer_draw_done(m0, m1, sid, id, r) && a1 == (App {
                        status_message: a1.status_message,
                        ..a0
                    }) && text_of(a1.status_message) == Some(
                        match r {
                            Ok(_) => "Draw offered"@,
                            Err(e) => e@,
                        },
                    ),
                None => m1 == m0 && a1 == a0,
            }
        },
        AppAction::SubmitMove(from, to) => c1 == c0 && move_sent(
            a0,
            a1,
            m0,
            m1,
            sid,
            c0,
            from.spec_name() + to.spec_name(),
        ),
        AppAction::SubmitMoveText(t) => c1 == c0 && move_sent(a0, a1, m0, m1, sid, c0, t@),
        AppAction::ReturnToLobby => {
            &&& c1 is None
            &&& returned_to_lobby(a0, a1)
            &&& match c0 {
                Some(id) => exists|r: Result<(), String>| #[trigger] resign_game_done(m0, m1, sid, id, r),
                None => m1 == m0,
            }
        },
        AppAction::NoAction => c1 == c0 && m1 == m0 && a1 == a0,
    }
}

fn act_join(app: &mut App, manager: &mut SessionManager, session_id: SessionId, current: Option<u64>)
    requires
        old(manager).wf(),
    ensures
        final(manager).wf(),
        action_step(*old(app), *final(app), *old(manager), *final(manager), session_id, AppAction::JoinQueue, current, current),
{
    let ghost m0 = *manager;
    manager.join_queue(session_id);
    let ghost m = *manager;
    app.join_queue();
    let r = manager.try_match();
    proof {
        assert(join_queue_done(m0, m, session_id) && try_match_done(m, *manager, r));
    }
}

fn act_leave(app: &mut App, manager: &mut SessionManager, session_id: SessionId, current: Option<u64>)
    requires
        old(manager).wf(),
    ensures
        final(manager).wf(),
        action_step(*old(app), *final(app), *old(manager), *final(manager), session_id, AppAction::LeaveQueue, current, current),
{
    if manager.get_player_game_id(session_id).is_none() {
        manager.leave_queue(session_id);
        app.leave_queue();
    }
}

fn act_resign(app: &mut App, manager: &mut SessionManager, session_id: SessionId, current: Option<u64>)
    requires
        old(manager).wf(),
    ensures
        final(manager).wf(),
        action_step(*old(app), *final(app), *old(manager), *final(manager), session_id, AppAction::Resign, current, current),
{
    let ghost a0 = *app;
    match current {
        Some(id) => {
            let r = manager.resign_game(session_id, id);
            match r {
                Ok(()) => {},
                Err(e) => app.set_status(Some(e)),
            }
        },
        None => {
            let has_game = match app.game_mut() {
                Some(game) => {
                    let turn = game.turn();
                    game.resign(turn);
                    true
                },
                None => false,
            };
            if has_game {
                let ghost a = *app;
                app.finish_game(String::from_str("Resignation"));
                proof {
                    assert(resigned_on_board(a0, a) && finish_done(a, *app, "Resignation"@));
                }
            }
        },
    }
}

fn act_draw(app: &mut App, manager: &mut SessionManager, session_id: SessionId, current: Option<u64>)
    requires
        old(manager).wf(),
    ensures
        final(manager).wf(),
        action_step(*old(app), *final(app), *old(manager), *final(manager), session_id, AppAction::OfferDraw, current, current),
{
    match current {
        Some(id) => {
            let r = manager.offer_draw(session_id, id);
            match r {
                Ok(()) => app.set_status(Some(String::from_str("Draw offered"))),
                Err(e) => app.set_status(Some(e)),
            }
        },
        None => {},
    }
}

/// Leaves the current online game, which forfeits it: the player resigns.
fn act_leave_game(manager: &mut SessionManager, session_id: SessionId, current_game_id: &mut Option<u64>)
    requires
        old(manager).wf(),
    ensures
        final(manager).wf(),
        *final(current_game_id) is None,
        match *old(current_game_id) {
            Some(id) => exists|r: Result<(), String>| #[trigger] resign_game_done(*old(manager), *final(manager), session_id, id, r),
            None => *final(manager) == *old(manager),
        },
{
    match *current_game_id {
        Some(id) => {
            let r = manager.resign_game(session_id, id);
            proof {
                assert(resign_game_done(*old(manager), *manager, session_id, id, r));
            }
        },
        None => {},
    }
    *current_game_id = None;
}

/// Carries out what the player's input asked for: joining or leaving the
/// queue, quitting, starting a game against the computer, resigning,
/// offering a draw, sending a move, or leaving the game for the lobby (an
/// online game is resigned on the way out); a practice game
/// whose position is over is then shown as finished.
pub fn handle_action(
    app: &mut App,
    manager: &mut SessionManager,
    session_id: SessionId,
    action: AppAction,
    current_game_id: &mut Option<u64>,
)
    requires
        old(manager).wf(),
    ensures
        final(manager).wf(),
        exists|a: App|
            #[trigger] action_step(
                *old(app),
                a,
                *old(manager),
                *final(manager),
                session_id,
                action,
                *old(current_game_id),
                *final(current_game_id),
            ) && solo_settled(a, *final(app)),
{
    let ghost a0 = *app;
    let ghost m0 = *manager;
    let current = *current_game_id;
    match action {
        AppAction::JoinQueue => act_join(app, manager, session_id, current),
        AppAction::LeaveQueue => act_leave(app, manager, session_id, current),
        AppAction::Quit => app.set_should_quit(true),
        AppAction::StartComputer(level) => app.start_computer_game(level),
        AppAction::Resign => act_resign(app, manager, session_id, current),
        AppAction::OfferDraw => act_draw(app, manager, session_id, current),
        AppAction::SubmitMove(from, to) => {
            let text = crate::text::concat(from.name().as_slice(), to.name().as_slice());
            let text = crate::text::string_of(text.as_slice());
            submit_move(app, manager, session_id, current, text.as_str());
        },
        AppAction::SubmitMoveText(ref text) => {
            submit_move(app, manager, session_id, current, text.as_str());
        },
        AppAction::ReturnToLobby => {
            act_leave_game(manager, session_id, current_game_id);
            app.return_to_lobby();
        },
        AppAction::NoAction => {},
    }
    let ghost am = *app;
    settle_solo(app);
    proof {
        assert(action_step(a0, am, m0, *manager, session_id, action, *old(current_game_id), *current_game_id));
    }
}

/// The screen once the server's state `g` of the current game replaced the
/// board: highlights and messages are dropped, and so is a draw question.
pub open spec fn updated(a0: App, a1: App, g: GameView) -> bool {
    &&& a1 == (App {
        draw_received: false,
        confirmation: if a0.confirmation == Some(GameControl::Draw) {
            None
        } else {
            a0.confirmation
        },
        game: a1.game,
        status_message: None,
        promotion: a1.promotion,
        selected_square: None,
        highlight_origins: a1.highlight_origins,
        highlight_destinations: a1.highlight_destinations,
        ..a0
    })
    &&& a1.game matches Some(x) && x@ == g
    &&& a1.highlights_clear()
}

/// The practice board once the side to move resigned.
pub open spec fn resigned_on_board(a0: App, a1: App) -> bool {
    &&& a1 == (App { game: a1.game, ..a0 })
    &&& a0.game matches Some(g0) && a1.game matches Some(g1) && g1@ == (GameView {
        result: if turn_of(g0@) == Color::White {
            GameResult::WhiteResigned
        } else {
            GameResult::BlackResigned
        },
        ..g0@
    })
}

/// What a message from the server did: a match found while searching
/// starts the game; the state of the player's current game replaces the
/// board (and a finished game shows its verdict and is left); a draw offer
/// in the current game is shown. Messages about other games are ignored.
pub open spec fn event_done(a0: App, a1: App, event: EventView, c0: Option<u64>, c1: Option<u64>) -> bool {
    match event {
        EventView::MatchFound { game_id, opponent_name, is_white } => if c0 != Some(game_id) && a0.view
            == AppView::InQueue {
            &&& c1 == Some(game_id)
            &&& a1.view == AppView::Game
            &&& a1.is_multiplayer
            &&& a1.is_black_player == !is_white
            &&& a1.opponent_name@ == opponent_name
            &&& a1.game matches Some(g) && g@ == Game::new_spec()
        } else {
            c1 == c0 && a1 == a0
        },
        EventView::StateUpdated { game_id, game, finished_reason } => if c0 != Some(game_id) {
            c1 == c0 && a1 == a0
        } else {
            match finished_reason {
                Some(reason) => c1 is None && exists|a: App| #[trigger] updated(a0, a, game) && finish_done(a, a1, reason),
                None => c1 == c0 && updated(a0, a1, game),
            }
        },
        EventView::DrawOffered { game_id } => c1 == c0 && if c0 == Some(game_id) {
            a1 == (App { status_message: a1.status_message, ..a0 }) && text_of(a1.status_message) == Some(
                "Opponent offers a draw. /draw to accept"@,
            )
        } else {
            a1 == a0
        },
    }
}

/// Carries out a message from the server.
pub fn handle_game_event(app: &mut App, event: GameEvent, current_game_id: &mut Option<u64>)
    ensures
        event_done(*old(app), *final(app), event@, *old(current_game_id), *final(current_game_id)),
{
    match event {
        GameEvent::MatchFound { game_id, opponent_name, is_white } => {
            if *current_game_id != Some(game_id) && app.view() == AppView::InQueue {
                *current_game_id = Some(game_id);
                app.start_game(opponent_name, !is_white);
            }
        },
        GameEvent::StateUpdated { game_id, game, finished_reason } => {
            if *current_game_id != Some(game_id) {
                return;
            }
            let ghost g = game@;
            app.update_game(game);
            match finished_reason {
                Some(reason) => {
                    let ghost a = *app;
                    let ghost t = reason@;
                    app.finish_game(reason);
                    *current_game_id = None;
                    proof {
                        assert(updated(*old(app), a, g) && finish_done(a, *app, t));
                    }
                },
                None => {},
            }
        },
        GameEvent::DrawOffered { game_id } => {
            if *current_game_id == Some(game_id) {
                app.set_status(Some(String::from_str("Opponent offers a draw. /draw to accept")));
            }
        },
    }
}


/// The computer is to move: a game against it is on screen, not over, and
/// it is not the player's turn.
pub open spec fn spec_engine_to_move(a: App) -> bool {
    &&& a.computer
    &&& a.view == AppView::Game
    &&& a.game is Some
    &&& !game_over(a.game->Some_0@)
    &&& !a.spec_is_my_turn()
}

/// Whether the computer is to move now.
pub fn engine_to_move(app: &App) -> (b: bool)
    ensures
        b == spec_engine_to_move(*app),
{
    if !app.is_computer() || app.view() != AppView::Game || app.is_my_turn() {
        return false;
    }
    match app.game() {
        Some(game) => !game.is_game_over(),
        None => false,
    }
}

/// Plays the computer's reply, given in UCI, on the board: a refused move
/// is shown, and a game the move ends is shown as finished.
pub fn play_engine_move(app: &mut App, manager: &mut SessionManager, session_id: SessionId, mv: &str)
    requires
        old(manager).wf(),
    ensures
        final(manager).wf(),
        exists|a: App|
            #[trigger] move_sent(*old(app), a, *old(manager), *final(manager), session_id, None, mv@) && solo_settled(
                a,
                *final(app),
            ),
{
    submit_move(app, manager, session_id, None, mv);
    let ghost mid = *app;
    settle_solo(app);
    proof {
        assert(move_sent(*old(app), mid, *old(manager), *manager, session_id, None, mv@));
    }
}

/// The message shown when the computer stops answering.
pub open spec fn engine_failure_message() -> Seq<char> {
    "The computer stopped. Try again later."@
}

/// The computer failed: the game is left for the lobby, with a message.
pub fn engine_failed(app: &mut App)
    ensures
        final(app).view == AppView::Lobby,
        final(app).game is None,
        !final(app).computer,
        text_of(final(app).status_message) == Some(engine_failure_message()),
{
    app.return_to_lobby();
    app.set_status(Some(String::from_str("The computer stopped. Try again later.")));
}

} // verus!
