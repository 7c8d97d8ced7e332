//! The state of one player's screen and how it answers keys and clicks.
use vstd::prelude::*;

use super::board::{lemma_click_hits_drawn_square, spec_geometry, spec_square_at, square_on_screen, BoardWidget};
use super::controls::{button_areas_in, buttons_fit, confirmation_in, spec_button_areas, spec_confirmation, GameControl};
use super::draw::{add_line, drawn, line, plain, put, put_all, spans_of, text_in, Drawn, Span, Widget, Wrap};
use super::game_view::{column_count, columns_split, side_split, copy_squares, fen_turn, spec_board_area, spec_game_screen, spec_input_position, GameScreen, GameView};
use super::layout::ScreenLayout;
use super::lobby::{entry_under, spec_lobby, spec_menu_inner, LobbyData, LobbyView};
use super::sprites::SpriteCache;
use super::terminal::{InputEvent, KeyCode, KeyModifiers};
use super::geometry::{min_int, sat_sub, Rect};
use crate::chess::game::{key_of, play_key_spec, san_play_spec, specs_of, uci_play_spec, Game, GameResult};
use crate::chess::rules::{legal_moves, piece_at, piece_from_letter, spec_facts, spec_legal_moves, spec_piece_at, MoveInfo, MoveSpec};
use crate::chess::types::{Color, Square};
use crate::server::game_session::{normalize_san, normalize_san_chars, turn_of, uci_of, uci_text};
use super::move_input::{distinct, matching_moves, move_squares, origins_of, spec_matching_moves, targets_of};
use crate::text::{utf8_len, chars_of, decimal, decimal_chars, lowercase, prefixed, slice_chars, spec_lowercase, string_of, text_is, trim, trim_chars};

verus! {

/// The screen a player is looking at.
#[derive(Debug, Clone, Copy, PartialEq, Eq, Structural)]
pub enum AppView {
    Lobby,
    InQueue,
    Game,
    GameOver,
}

/// How a finished game ended for the player, with the reason shown.
#[derive(Debug, Clone, PartialEq, Eq)]
pub enum GameOverReason {
    YouWin(String),
    YouLose(String),
    Draw(String),
}

/// What the server has to do after an input.
#[derive(Debug, Clone, PartialEq, Eq)]
pub enum AppAction {
    NoAction,
    JoinQueue,
    StartComputer(u8),
    LeaveQueue,
    Quit,
    SubmitMove(Square, Square),
    SubmitMoveText(String),
    Resign,
    OfferDraw,
    ReturnToLobby,
}

/// One player's screen.
pub struct App {
    pub view: AppView,
    pub area: Rect,
    /// The moves to choose from when a pawn promotes.
    pub promotion: Vec<MoveInfo>,
    /// The control waiting for the player to confirm it.
    pub confirmation: Option<GameControl>,
    /// Whether the confirm button (rather than cancel) is selected.
    pub confirm_selected: bool,
    pub draw_received: bool,
    pub lobby_selection: usize,
    pub lobby_help: bool,
    pub computer_setup: bool,
    pub engine_level: u8,
    pub computer: bool,
    pub input_buffer: String,
    pub online_count: usize,
    pub queue_size: usize,
    pub username: String,
    pub game: Option<Game>,
    pub selected_square: Option<Square>,
    pub highlight_origins: Vec<Square>,
    pub highlight_destinations: Vec<Square>,
    pub is_black_player: bool,
    pub is_multiplayer: bool,
    pub opponent_name: String,
    pub status_message: Option<String>,
    pub should_quit: bool,
    pub game_over_reason: Option<GameOverReason>,
}

/// A screen size on which every part of the screen can be placed: it lies
/// within the coordinate range, and a wide one has room for the buttons.
pub open spec fn area_ok(area: Rect) -> bool {
    &&& area.fits()
    &&& buttons_fit(area)
}

/// The screen back in the lobby: the game and everything about it (the
/// opponent, the typed text, the marks, a dialog, a verdict, a message) is
/// forgotten; the rest stays.
pub open spec fn returned_to_lobby(before: App, after: App) -> bool {
    &&& after == (App {
        confirmation: None,
        draw_received: false,
        view: AppView::Lobby,
        game: None,
        selected_square: None,
        is_multiplayer: false,
        computer: false,
        opponent_name: after.opponent_name,
        input_buffer: after.input_buffer,
        game_over_reason: None,
        status_message: None,
        promotion: after.promotion,
        highlight_origins: after.highlight_origins,
        highlight_destinations: after.highlight_destinations,
        ..before
    })
    &&& after.opponent_name@.len() == 0
    &&& after.input_buffer@.len() == 0
    &&& after.highlights_clear()
}

/// The side whose win a result records, if it records one; `None` inside
/// for a draw; nothing for a game still going on.
pub open spec fn winner_of(r: GameResult) -> Option<Option<Color>> {
    match r {
        GameResult::WhiteWins | GameResult::BlackResigned => Some(Some(Color::White)),
        GameResult::BlackWins | GameResult::WhiteResigned => Some(Some(Color::Black)),
        GameResult::Draw => Some(None),
        GameResult::Ongoing => None,
    }
}

pub open spec fn text_of(o: Option<String>) -> Option<Seq<char>> {
    match o {
        Some(s) => Some(s@),
        None => None,
    }
}

impl App {
    /// The selection is one of the five lobby entries, the computer's level
    /// is at most 20, and every part of the screen can be placed.
    pub open spec fn wf(&self) -> bool {
        &&& self.lobby_selection < 5
        &&& self.engine_level <= 20
        &&& area_ok(self.area)
    }

    /// No square is selected or marked and no promotion is being chosen.
    pub open spec fn highlights_clear(&self) -> bool {
        &&& self.promotion@.len() == 0
        &&& self.selected_square is None
        &&& self.highlight_origins@.len() == 0
        &&& self.highlight_destinations@.len() == 0
    }

    /// The colour the player plays.
    pub open spec fn my_color(&self) -> Color {
        if self.is_black_player {
            Color::Black
        } else {
            Color::White
        }
    }

    pub open spec fn spec_is_my_turn(&self) -> bool {
        self.game matches Some(g) && turn_of(g@) == self.my_color()
    }

    /// The screen of a player who has just connected: the lobby, with the
    /// first entry selected and the computer's level at 5.
    pub fn new(username: String) -> (app: App)
        ensures
            app.wf(),
            app.view == AppView::Lobby,
            app.area == (Rect { x: 0, y: 0, width: 0, height: 0 }),
            app.highlights_clear(),
            app.confirmation is None,
            !app.confirm_selected,
            !app.draw_received,
            app.lobby_selection == 0,
            !app.lobby_help,
            !app.computer_setup,
            app.engine_level == 5,
            !app.computer,
            app.input_buffer@.len() == 0,
            app.online_count == 0,
            app.queue_size == 0,
            app.username == username,
            app.game is None,
            !app.is_black_player,
            !app.is_multiplayer,
            app.opponent_name@.len() == 0,
            app.status_message is None,
            !app.should_quit,
            app.game_over_reason is None,
    {
        App {
            view: AppView::Lobby,
            area: Rect { x: 0, y: 0, width: 0, height: 0 },
            promotion: Vec::new(),
            confirmation: None,
            confirm_selected: false,
            draw_received: false,
            lobby_selection: 0,
            lobby_help: false,
            computer_setup: false,
            engine_level: 5,
            computer: false,
            input_buffer: String::new(),
            online_count: 0,
            queue_size: 0,
            username,
            game: None,
            selected_square: None,
            highlight_origins: Vec::new(),
            highlight_destinations: Vec::new(),
            is_black_player: false,
            is_multiplayer: false,
            opponent_name: String::new(),
            status_message: None,
            should_quit: false,
            game_over_reason: None,
        }
    }

    /// The screen now has this size.
    pub fn set_area(&mut self, area: Rect)
        requires
            area_ok(area),
            old(self).wf(),
        ensures
            final(self).wf(),
            *final(self) == (App { area: area, ..*old(self) }),
    {
        self.area = area;
    }

    /// Whether a game is shown and the side to move is the player's.
    pub fn is_my_turn(&self) -> (b: bool)
        ensures
            b == self.spec_is_my_turn(),
    {
        match &self.game {
            Some(game) => match game.turn() {
                Color::White => !self.is_black_player,
                Color::Black => self.is_black_player,
            },
            None => false,
        }
    }

    pub fn is_computer(&self) -> (b: bool)
        ensures
            b == self.computer,
    {
        self.computer
    }

    pub fn is_multiplayer(&self) -> (b: bool)
        ensures
            b == self.is_multiplayer,
    {
        self.is_multiplayer
    }

    pub fn view(&self) -> (v: AppView)
        ensures
            v == self.view,
    {
        self.view
    }

    pub fn should_quit(&self) -> (b: bool)
        ensures
            b == self.should_quit,
    {
        self.should_quit
    }

    pub fn set_should_quit(&mut self, value: bool)
        ensures
            *final(self) == (App { should_quit: value, ..*old(self) }),
    {
        self.should_quit = value;
    }

    pub fn set_online_count(&mut self, count: usize)
        ensures
            *final(self) == (App { online_count: count, ..*old(self) }),
    {
        self.online_count = count;
    }

    pub fn set_queue_size(&mut self, size: usize)
        ensures
            *final(self) == (App { queue_size: size, ..*old(self) }),
    {
        self.queue_size = size;
    }

    /// Shows a message on the screen, or none.
    pub fn set_status(&mut self, message: Option<String>)
        ensures
            *final(self) == (App { status_message: message, ..*old(self) }),
    {
        self.status_message = message;
    }

    /// The player waits for an opponent.
    pub fn join_queue(&mut self)
        ensures
            *final(self) == (App { view: AppView::InQueue, status_message: final(self).status_message, ..*old(self) }),
            text_of(final(self).status_message) == Some("Searching for opponent..."@),
    {
        self.view = AppView::InQueue;
        self.status_message = Some(String::from_str("Searching for opponent..."));
    }

    /// The player stops waiting and is back in the lobby.
    pub fn leave_queue(&mut self)
        ensures
            *final(self) == (App { view: AppView::Lobby, status_message: None, ..*old(self) }),
    {
        self.view = AppView::Lobby;
        self.status_message = None;
    }

    /// No square selected or marked, no promotion being chosen.
    fn clear_highlights(&mut self)
        ensures
            *final(self) == (App {
                promotion: final(self).promotion,
                selected_square: None,
                highlight_origins: final(self).highlight_origins,
                highlight_destinations: final(self).highlight_destinations,
                ..*old(self)
            }),
            final(self).highlights_clear(),
    {
        self.promotion = Vec::new();
        self.selected_square = None;
        self.highlight_origins = Vec::new();
        self.highlight_destinations = Vec::new();
    }

    /// A new game from the starting position, against `opponent`.
    fn start_game_with_mode(&mut self, opponent: String, is_black: bool, multiplayer: bool)
        ensures
            *final(self) == (App {
                confirmation: None,
                draw_received: false,
                view: AppView::Game,
                game: final(self).game,
                opponent_name: opponent,
                is_black_player: is_black,
                is_multiplayer: multiplayer,
                computer: false,
                computer_setup: false,
                promotion: final(self).promotion,
                selected_square: None,
                highlight_origins: final(self).highlight_origins,
                highlight_destinations: final(self).highlight_destinations,
                game_over_reason: None,
                input_buffer: final(self).input_buffer,
                status_message: None,
                ..*old(self)
            }),
            final(self).game matches Some(g) && g@ == Game::new_spec(),
            final(self).highlights_clear(),
            final(self).input_buffer@.len() == 0,
    {
        self.confirmation = None;
        self.draw_received = false;
        self.view = AppView::Game;
        self.game = Some(Game::new());
        self.opponent_name = opponent;
        self.is_black_player = is_black;
        self.is_multiplayer = multiplayer;
        self.computer = false;
        self.computer_setup = false;
        self.clear_highlights();
        self.game_over_reason = None;
        self.input_buffer = String::new();
        self.status_message = None;
    }

    /// An online game against `opponent`; with `is_black` the player has Black.
    pub fn start_game(&mut self, opponent: String, is_black: bool)
        ensures
            *final(self) == (App {
                confirmation: None,
                draw_received: false,
                view: AppView::Game,
                game: final(self).game,
                opponent_name: opponent,
                is_black_player: is_black,
                is_multiplayer: true,
                computer: false,
                computer_setup: false,
                promotion: final(self).promotion,
                selected_square: None,
                highlight_origins: final(self).highlight_origins,
                highlight_destinations: final(self).highlight_destinations,
                game_over_reason: None,
                input_buffer: final(self).input_buffer,
                status_message: None,
                ..*old(self)
            }),
            final(self).game matches Some(g) && g@ == Game::new_spec(),
            final(self).highlights_clear(),
            final(self).input_buffer@.len() == 0,
    {
        self.start_game_with_mode(opponent, is_black, true)
    }

    /// A practice game in which the player moves both sides.
    pub fn start_solo_game(&mut self)
        ensures
            *final(self) == (App {
                confirmation: None,
                draw_received: false,
                view: AppView::Game,
                game: final(self).game,
                opponent_name: final(self).opponent_name,
                is_black_player: false,
                is_multiplayer: false,
                computer: false,
                computer_setup: false,
                promotion: final(self).promotion,
                selected_square: None,
                highlight_origins: final(self).highlight_origins,
                highlight_destinations: final(self).highlight_destinations,
                game_over_reason: None,
                input_buffer: final(self).input_buffer,
                status_message: None,
                ..*old(self)
            }),
            final(self).opponent_name@ == "Practice"@,
            final(self).game matches Some(g) && g@ == Game::new_spec(),
            final(self).highlights_clear(),
            final(self).input_buffer@.len() == 0,
    {
        self.start_game_with_mode(String::from_str("Practice"), false, false)
    }

    /// A game against the computer at a level, the player with White.
    pub fn start_computer_game(&mut self, level: u8)
        ensures
            *final(self) == (App {
                confirmation: None,
                draw_received: false,
                view: AppView::Game,
                game: final(self).game,
                opponent_name: final(self).opponent_name,
                is_black_player: false,
                is_multiplayer: false,
                computer: true,
                computer_setup: false,
                promotion: final(self).promotion,
                selected_square: None,
                highlight_origins: final(self).highlight_origins,
                highlight_destinations: final(self).highlight_destinations,
                game_over_reason: None,
                input_buffer: final(self).input_buffer,
                status_message: None,
                ..*old(self)
            }),
            final(self).opponent_name@ == "Zander · Level "@ + decimal(level as nat),
            final(self).game matches Some(g) && g@ == Game::new_spec(),
            final(self).highlights_clear(),
            final(self).input_buffer@.len() == 0,
    {
        let name = prefixed("Zander · Level ", decimal_chars(level as u64).as_slice());
        self.start_game_with_mode(name, false, false);
        self.computer = true;
    }

    /// The game as the server now has it. A standing draw confirmation is
    /// dropped: it was asked about another position.
    pub fn update_game(&mut self, game: Game)
        ensures
            *final(self) == (App {
                draw_received: false,
                confirmation: if old(self).confirmation == Some(GameControl::Draw) {
                    None
                } else {
                    old(self).confirmation
                },
                game: Some(game),
                status_message: None,
                promotion: final(self).promotion,
                selected_square: None,
                highlight_origins: final(self).highlight_origins,
                highlight_destinations: final(self).highlight_destinations,
                ..*old(self)
            }),
            final(self).highlights_clear(),
    {
        self.draw_received = false;
        if self.confirmation == Some(GameControl::Draw) {
            self.confirmation = None;
        }
        self.game = Some(game);
        self.status_message = None;
        self.clear_highlights();
    }

    /// Shows the end of the game with its verdict for the player.
    pub fn show_game_over(&mut self, reason: GameOverReason)
        ensures
            *final(self) == (App {
                confirmation: None,
                view: AppView::GameOver,
                game_over_reason: Some(reason),
                input_buffer: final(self).input_buffer,
                promotion: final(self).promotion,
                selected_square: None,
                highlight_origins: final(self).highlight_origins,
                highlight_destinations: final(self).highlight_destinations,
                status_message: None,
                ..*old(self)
            }),
            final(self).input_buffer@.len() == 0,
            final(self).highlights_clear(),
    {
        self.confirmation = None;
        self.view = AppView::GameOver;
        self.game_over_reason = Some(reason);
        self.input_buffer = String::new();
        self.clear_highlights();
        self.status_message = None;
    }

    /// The verdict of a finished game for the player: a win when the winner
    /// is the player's colour, a loss when it is the other, a draw when the
    /// game has no winner. Nothing happens while the game goes on.
    pub fn finish_game(&mut self, reason: String)
        ensures
            finish_done(*old(self), *final(self), reason@),
            match old(self).game {
                Some(g) => match winner_of(g@.result) {
                    Some(w) => *final(self) == (App {
                        confirmation: None,
                        view: AppView::GameOver,
                        game_over_reason: Some(
                            match w {
                                Some(c) => if c == old(self).my_color() {
                                    GameOverReason::YouWin(reason)
                                } else {
                                    GameOverReason::YouLose(reason)
                                },
                                None => GameOverReason::Draw(reason),
                            },
                        ),
                        input_buffer: final(self).input_buffer,
                        promotion: final(self).promotion,
                        selected_square: None,
                        highlight_origins: final(self).highlight_origins,
                        highlight_destinations: final(self).highlight_destinations,
                        status_message: None,
                        ..*old(self)
                    }) && final(self).input_buffer@.len() == 0 && final(self).highlights_clear(),
                    None => *final(self) == *old(self),
                },
                None => *final(self) == *old(self),
            },
    {
        let result = match &self.game {
            Some(game) => game.result(),
            None => return,
        };
        let winner = match result {
            GameResult::WhiteWins | GameResult::BlackResigned => Some(Color::White),
            GameResult::BlackWins | GameResult::WhiteResigned => Some(Color::Black),
            GameResult::Draw => None,
            GameResult::Ongoing => return,
        };
        let my_color = if self.is_black_player {
            Color::Black
        } else {
            Color::White
        };
        let verdict = match winner {
            Some(color) => if color == my_color {
                GameOverReason::YouWin(reason)
            } else {
                GameOverReason::YouLose(reason)
            },
            None => GameOverReason::Draw(reason),
        };
        self.show_game_over(verdict);
    }

    /// Back to the lobby: the game and everything about it is forgotten.
    pub fn return_to_lobby(&mut self)
        ensures
            returned_to_lobby(*old(self), *final(self)),
    {
        self.confirmation = None;
        self.draw_received = false;
        self.view = AppView::Lobby;
        self.game = None;
        self.selected_square = None;
        self.is_multiplayer = false;
        self.computer = false;
        self.opponent_name = String::new();
        self.input_buffer = String::new();
        self.game_over_reason = None;
        self.status_message = None;
        self.clear_highlights();
    }

    /// Leaves the game for the lobby.
    pub fn end_game(&mut self)
        ensures
            returned_to_lobby(*old(self), *final(self)),
    {
        self.return_to_lobby();
    }

    /// The game shown, if any.
    pub fn game(&self) -> (g: Option<&Game>)
        ensures
            g == match &self.game {
                Some(x) => Some(x),
                None => None::<&Game>,
            },
    {
        match &self.game {
            Some(x) => Some(x),
            None => None,
        }
    }

    /// The game shown, to change in place.
    pub fn game_mut(&mut self) -> (g: Option<&mut Game>)
        ensures
            match g {
                Some(x) => old(self).game matches Some(o) && *x == o && *final(self) == (App {
                    game: Some(*final(x)),
                    ..*old(self)
                }),
                None => old(self).game is None && *final(self) == *old(self),
            },
    {
        match &mut self.game {
            Some(x) => Some(x),
            None => None,
        }
    }

    /// The opponent offers a draw. A draw offer the player was about to
    /// make is dropped, so that it does not become an acceptance.
    pub fn receive_draw_offer(&mut self)
        ensures
            *final(self) == (App {
                confirmation: if old(self).confirmation == Some(GameControl::Draw) {
                    None
                } else {
                    old(self).confirmation
                },
                draw_received: true,
                status_message: final(self).status_message,
                ..*old(self)
            }),
            text_of(final(self).status_message) == Some("Opponent offers a draw. F3 to accept"@),
    {
        if self.confirmation == Some(GameControl::Draw) {
            self.confirmation = None;
        }
        self.draw_received = true;
        self.status_message = Some(String::from_str("Opponent offers a draw. F3 to accept"));
    }

    /// Where the promotion choice is drawn: at most 26 by 7 cells, centred.
    pub open spec fn spec_promotion_area(&self) -> Rect {
        let width = min_int(self.area.width as int, 26);
        let height = min_int(self.area.height as int, 7);
        Rect::spec_new(
            (self.area.x + (self.area.width - width) / 2) as u16,
            (self.area.y + (self.area.height - height) / 2) as u16,
            width as u16,
            height as u16,
        )
    }

    pub fn promotion_area(&self) -> (r: Rect)
        requires
            self.area.fits(),
        ensures
            r == self.spec_promotion_area(),
    {
        let width = if self.area.width <= 26 { self.area.width } else { 26 };
        let height = if self.area.height <= 7 { self.area.height } else { 7 };
        Rect::new(
            self.area.x + (self.area.width - width) / 2,
            self.area.y + (self.area.height - height) / 2,
            width,
            height,
        )
    }

    /// A control the player chose, by key or button. After the game only
    /// Lobby and Disconnect act, at once; draw offers exist only online;
    /// offline, Lobby and Disconnect act at once; everything else first
    /// asks the player to confirm.
    fn request_control(&mut self, control: GameControl) -> (action: AppAction)
        requires
            old(self).wf(),
        ensures
            final(self).wf(),
            control_requested(*old(self), *final(self), control, action),
    {
        if self.view == AppView::GameOver {
            return match control {
                GameControl::Lobby => {
                    self.return_to_lobby();
                    AppAction::ReturnToLobby
                },
                GameControl::Disconnect => {
                    self.should_quit = true;
                    AppAction::Quit
                },
                _ => AppAction::NoAction,
            };
        }
        if control == GameControl::Draw && !self.is_multiplayer {
            self.status_message = Some(String::from_str("Draw offers are available in online games."));
            return AppAction::NoAction;
        }
        if !self.is_multiplayer && (control == GameControl::Lobby || control == GameControl::Disconnect) {
            return self.execute_control(control);
        }
        self.confirmation = Some(control);
        self.confirm_selected = false;
        AppAction::NoAction
    }

    /// Carries out a confirmed control.
    fn execute_control(&mut self, control: GameControl) -> (action: AppAction)
        ensures
            action == match control {
                GameControl::Resign => AppAction::Resign,
                GameControl::Draw => AppAction::OfferDraw,
                GameControl::Lobby => AppAction::ReturnToLobby,
                GameControl::Disconnect => AppAction::Quit,
            },
            *final(self) == (App {
                confirmation: None,
                should_quit: old(self).should_quit || control == GameControl::Disconnect,
                ..*old(self)
            }),
    {
        self.confirmation = None;
        match control {
            GameControl::Resign => AppAction::Resign,
            GameControl::Draw => AppAction::OfferDraw,
            GameControl::Lobby => AppAction::ReturnToLobby,
            GameControl::Disconnect => {
                self.should_quit = true;
                AppAction::Quit
            },
        }
    }

    /// An input while a control waits for confirmation: Esc or `n` cancels,
    /// Tab and the arrow keys switch between the buttons, `y` confirms,
    /// Enter presses the selected button; a click presses the button hit.
    fn handle_confirmation(&mut self, event: InputEvent, cs: &[Rect; 2]) -> (action: AppAction)
        requires
            old(self).confirmation is Some,
            old(self).wf(),
        ensures
            final(self).wf(),
            confirmation_done(*old(self), *final(self), event, action, cs@),
    {
        let control = match self.confirmation {
            Some(c) => c,
            None => return AppAction::NoAction,
        };
        match event {
            InputEvent::Key(KeyCode::Esc, _) | InputEvent::Key(KeyCode::Char('n'), _) => {
                self.confirmation = None;
            },
            InputEvent::Key(KeyCode::Tab, _) | InputEvent::Key(KeyCode::BackTab, _) | InputEvent::Key(
                KeyCode::Left,
                _,
            ) | InputEvent::Key(KeyCode::Right, _) | InputEvent::Key(KeyCode::Char('h'), _) | InputEvent::Key(
                KeyCode::Char('l'),
                _,
            ) => {
                self.confirm_selected = !self.confirm_selected;
            },
            InputEvent::Key(KeyCode::Char('y'), _) => {
                return self.execute_control(control);
            },
            InputEvent::Key(KeyCode::Enter, _) => {
                if self.confirm_selected {
                    return self.execute_control(control);
                }
                self.confirmation = None;
            },
            InputEvent::Click(x, y) => {
                if cs[0].contains(x, y) {
                    self.confirmation = None;
                } else if cs[1].contains(x, y) {
                    return self.execute_control(control);
                }
            },
            _ => {},
        }
        AppAction::NoAction
    }

    /// The question the confirmation dialog asks.
    pub open spec fn spec_confirmation_message(&self) -> Seq<char> {
        match self.confirmation {
            Some(GameControl::Resign) => "Resign this game? This ends the game as a loss."@,
            Some(GameControl::Draw) => if self.draw_received {
                "Accept your opponent's draw offer? This ends the game in a draw."@
            } else {
                "Offer a draw? The game continues until your opponent accepts."@
            },
            Some(GameControl::Lobby) => "Return to the lobby? You will resign the current game."@,
            Some(GameControl::Disconnect) => "Disconnect? Leaving now awards the game to your opponent."@,
            None => ""@,
        }
    }

    pub fn confirmation_message(&self) -> (m: &'static str)
        ensures
            m@ == self.spec_confirmation_message(),
    {
        match self.confirmation {
            Some(GameControl::Resign) => "Resign this game? This ends the game as a loss.",
            Some(GameControl::Draw) => if self.draw_received {
                "Accept your opponent's draw offer? This ends the game in a draw."
            } else {
                "Offer a draw? The game continues until your opponent accepts."
            },
            Some(GameControl::Lobby) => "Return to the lobby? You will resign the current game.",
            Some(GameControl::Disconnect) => "Disconnect? Leaving now awards the game to your opponent.",
            None => "",
        }
    }

    /// Sends a move chosen on the board, in UCI notation.
    fn play_clicked_move(&mut self, mv: &MoveInfo) -> (action: AppAction)
        ensures
            action matches AppAction::SubmitMoveText(t) && t@ == uci_text(mv@),
            *final(self) == (App {
                input_buffer: final(self).input_buffer,
                promotion: final(self).promotion,
                selected_square: None,
                highlight_origins: final(self).highlight_origins,
                highlight_destinations: final(self).highlight_destinations,
                ..*old(self)
            }),
            final(self).input_buffer@.len() == 0,
            final(self).highlights_clear(),
    {
        let text = uci_of(mv);
        self.input_buffer = String::new();
        self.clear_highlights();
        AppAction::SubmitMoveText(text)
    }

    /// Opens the selected lobby entry: play online, practice, play the
    /// computer, the guide, or disconnect.
    fn activate_lobby_selection(&mut self) -> (action: AppAction)
        requires
            old(self).lobby_selection < 5,
        ensures
            opened_entry(*old(self), *final(self), action),
            final(self).lobby_selection == old(self).lobby_selection,
            old(self).input_buffer@.len() == 0 ==> final(self).input_buffer@.len() == 0,
            final(self).wf() <== old(self).wf(),
    {
        self.status_message = None;
        match self.lobby_selection {
            0 => AppAction::JoinQueue,
            1 => {
                self.start_solo_game();
                AppAction::NoAction
            },
            2 => {
                self.computer_setup = true;
                AppAction::NoAction
            },
            3 => {
                self.lobby_help = true;
                AppAction::NoAction
            },
            _ => {
                self.should_quit = true;
                AppAction::Quit
            },
        }
    }

    /// Keys while searching for an opponent: Esc, Enter, Left, `h` or `q`
    /// cancel the search.
    fn handle_queue_input(&mut self, key: KeyCode) -> (action: AppAction)
        ensures
            *final(self) == *old(self),
            action == (match key {
                KeyCode::Esc | KeyCode::Enter | KeyCode::Left | KeyCode::Char('h') | KeyCode::Char('q') => AppAction::LeaveQueue,
                _ => AppAction::NoAction,
            }),
    {
        match key {
            KeyCode::Esc | KeyCode::Enter | KeyCode::Left | KeyCode::Char('h') => AppAction::LeaveQueue,
            KeyCode::Char('q') => AppAction::LeaveQueue,
            _ => AppAction::NoAction,
        }
    }

    /// Keys on the final board: Enter goes back to the lobby, `q` quits.
    fn handle_game_over_input(&mut self, key: KeyCode) -> (action: AppAction)
        ensures
            key == KeyCode::Enter ==> action == AppAction::ReturnToLobby && final(self).view == AppView::Lobby
                && final(self).game is None && final(self).game_over_reason is None,
            key == KeyCode::Char('q') ==> action == AppAction::Quit && *final(self) == (App {
                should_quit: true,
                ..*old(self)
            }),
            key != KeyCode::Enter && key != KeyCode::Char('q') ==> action == AppAction::NoAction && *final(self)
                == *old(self),
            game_over_key_done(*old(self), *final(self), key, action),
            final(self).wf() <== old(self).wf(),
    {
        match key {
            KeyCode::Enter => {
                self.return_to_lobby();
                AppAction::ReturnToLobby
            },
            KeyCode::Char('q') => {
                self.should_quit = true;
                AppAction::Quit
            },
            _ => AppAction::NoAction,
        }
    }

    /// The typed text with one more character.
    fn push_input(&mut self, c: char)
        ensures
            *final(self) == (App { input_buffer: final(self).input_buffer, ..*old(self) }),
            final(self).input_buffer@ == old(self).input_buffer@.push(c),
    {
        let mut v = chars_of(self.input_buffer.as_str());
        v.push(c);
        self.input_buffer = string_of(v.as_slice());
    }

    /// The typed text without its last character.
    fn pop_input(&mut self)
        ensures
            *final(self) == (App { input_buffer: final(self).input_buffer, ..*old(self) }),
            final(self).input_buffer@ == if old(self).input_buffer@.len() > 0 {
                old(self).input_buffer@.drop_last()
            } else {
                old(self).input_buffer@
            },
    {
        let mut v = chars_of(self.input_buffer.as_str());
        if v.len() > 0 {
            v.pop();
            self.input_buffer = string_of(v.as_slice());
        }
    }

    /// Keys while choosing the computer's level.
    fn lobby_setup_key(&mut self, key: KeyCode) -> (action: AppAction)
        requires
            old(self).engine_level <= 20,
        ensures
            setup_key_done(*old(self), *final(self), key, action),
    {
        match key {
            KeyCode::Left | KeyCode::Down | KeyCode::Char('h') | KeyCode::Char('j') => {
                self.engine_level = self.engine_level.saturating_sub(1);
            },
            KeyCode::Right | KeyCode::Up | KeyCode::Char('l') | KeyCode::Char('k') => {
                self.engine_level = if self.engine_level < 20 { self.engine_level + 1 } else { 20 };
            },
            KeyCode::Enter => return AppAction::StartComputer(self.engine_level),
            KeyCode::Esc => {
                self.computer_setup = false;
            },
            _ => {},
        }
        AppAction::NoAction
    }

    /// Keys on the lobby menu while nothing is typed.
    fn lobby_menu_key(&mut self, key: KeyCode) -> (action: AppAction)
        requires
            old(self).wf(),
            key != KeyCode::Char('/'),
        ensures
            menu_key_done(*old(self), *final(self), key, action),
            final(self).wf(),
    {
        match key {
            KeyCode::Down | KeyCode::Tab | KeyCode::Char('j') => {
                self.lobby_selection = (self.lobby_selection + 1) % 5;
                AppAction::NoAction
            },
            KeyCode::Up | KeyCode::BackTab | KeyCode::Char('k') => {
                self.lobby_selection = (self.lobby_selection + 4) % 5;
                AppAction::NoAction
            },
            KeyCode::Enter | KeyCode::Right | KeyCode::Char('l') => self.activate_lobby_selection(),
            KeyCode::Char(c) => {
                if '1' <= c && c <= '5' {
                    self.lobby_selection = (c as u32 - '1' as u32) as usize;
                    self.activate_lobby_selection()
                } else {
                    AppAction::NoAction
                }
            },
            _ => AppAction::NoAction,
        }
    }

    /// Runs the typed lobby command.
    fn run_lobby_command(&mut self) -> (action: AppAction)
        requires
            old(self).wf(),
        ensures
            final(self).wf(),
            final(self).input_buffer@.len() == 0,
            command_done(*old(self), *final(self), action, spec_lowercase(trim(old(self).input_buffer@))),
    {
        let typed = chars_of(self.input_buffer.as_str());
        let trimmed = string_of(trim_chars(typed.as_slice()).as_slice());
        let cmd = chars_of(lowercase(trimmed.as_str()).as_str());
        self.input_buffer = String::new();
        let c = cmd.as_slice();
        if text_is(c, "/computer") || text_is(c, "/ai") {
            self.computer_setup = true;
            AppAction::NoAction
        } else if text_is(c, "/play") || text_is(c, "play") || text_is(c, "/p") {
            AppAction::JoinQueue
        } else if text_is(c, "/solo") || text_is(c, "solo") || text_is(c, "/s") {
            self.start_solo_game();
            AppAction::NoAction
        } else if text_is(c, "/quit") || text_is(c, "quit") || text_is(c, "/q") || text_is(c, "exit") {
            self.should_quit = true;
            AppAction::Quit
        } else {
            self.status_message = Some(String::from_str("Unknown command. Use /play, /solo, /ai, /quit."));
            AppAction::NoAction
        }
    }

    /// Keys while a lobby command is being typed.
    fn lobby_typing_key(&mut self, key: KeyCode) -> (action: AppAction)
        requires
            old(self).wf(),
        ensures
            final(self).wf(),
            typing_key_done(*old(self), *final(self), key, action),
    {
        match key {
            KeyCode::Char(c) => {
                self.push_input(c);
                AppAction::NoAction
            },
            KeyCode::Backspace => {
                self.pop_input();
                AppAction::NoAction
            },
            KeyCode::Enter => self.run_lobby_command(),
            KeyCode::Esc => {
                self.input_buffer = String::new();
                AppAction::NoAction
            },
            _ => AppAction::NoAction,
        }
    }

    /// Keys in the lobby: choosing the computer's level, leaving the guide,
    /// moving through the menu, or typing a command such as `/play`.
    fn handle_lobby_input(&mut self, key: KeyCode) -> (action: AppAction)
        requires
            old(self).wf(),
        ensures
            final(self).wf(),
            lobby_key_done(*old(self), *final(self), key, action),
    {
        if self.computer_setup {
            return self.lobby_setup_key(key);
        }
        if self.lobby_help {
            match key {
                KeyCode::Enter | KeyCode::Esc | KeyCode::Left | KeyCode::Char('h') => {
                    self.lobby_help = false;
                },
                _ => {},
            }
            return AppAction::NoAction;
        }
        if self.input_buffer.as_str().unicode_len() == 0 && key != KeyCode::Char('/') {
            return self.lobby_menu_key(key);
        }
        self.lobby_typing_key(key)
    }

    /// The legal moves of a position that a typed text may stand for.
    pub fn find_matching_san_moves(&self, fen: &str, input: &str) -> (r: Vec<MoveInfo>)
        ensures
            specs_of(r@) == spec_matching_moves(fen@, input@),
    {
        matching_moves(fen, input)
    }

    /// Marks where the candidate moves start and end; one candidate also
    /// selects its square.
    fn update_highlights_from_moves(&mut self, moves: &[MoveInfo])
        ensures
            highlights_from(*old(self), *final(self), specs_of(moves@)),
    {
        let (origins, targets) = move_squares(moves);
        self.selected_square = if origins.len() == 1 && targets.len() == 1 {
            Some(origins[0])
        } else {
            None
        };
        self.highlight_origins = origins;
        self.highlight_destinations = targets;
    }

    /// Marks what the text typed so far may mean: the candidate moves, or
    /// else the squares its first letters name.
    fn try_parse_move(&mut self) -> (action: AppAction)
        ensures
            action == AppAction::NoAction,
            parse_done(*old(self), *final(self), old(self).input_buffer@),
            final(self).input_buffer == old(self).input_buffer,
    {
        let typed = chars_of(self.input_buffer.as_str());
        let input = string_of(trim_chars(typed.as_slice()).as_slice());
        if input.as_str().unicode_len() == 0 {
            self.clear_highlights();
            return AppAction::NoAction;
        }
        let fen = match &self.game {
            Some(game) => game.fen(),
            None => return AppAction::NoAction,
        };
        let matching = self.find_matching_san_moves(fen.as_str(), input.as_str());
        if matching.len() > 0 {
            self.update_highlights_from_moves(matching.as_slice());
            return AppAction::NoAction;
        }
        let lower = chars_of(lowercase(input.as_str()).as_str());
        if lower.len() >= 2 {
            let head = slice_chars(lower.as_slice(), 0, 2);
            match Square::parse(head.as_slice()) {
                Some(sq) => {
                    self.selected_square = Some(sq);
                    self.highlight_origins = Vec::new();
                    self.highlight_destinations = Vec::new();
                    if lower.len() >= 4 {
                        let tail = slice_chars(lower.as_slice(), 2, 4);
                        match Square::parse(tail.as_slice()) {
                            Some(to) => {
                                self.highlight_origins = vec![sq];
                                self.highlight_destinations = vec![to];
                                proof {
                                    assert(self.highlight_origins@ =~= seq![sq]);
                                    assert(self.highlight_destinations@ =~= seq![to]);
                                }
                            },
                            None => {},
                        }
                    }
                },
                None => self.clear_highlights(),
            }
        } else {
            self.clear_highlights();
        }
        AppAction::NoAction
    }

    /// Keys while a promotion is being chosen: `q`, `r`, `b` or `n` plays
    /// the promotion to that piece, Esc cancels.
    fn promotion_key(&mut self, key: KeyCode) -> (action: AppAction)
        ensures
            promotion_key_done(*old(self), *final(self), key, action),
    {
        if key == KeyCode::Esc {
            self.clear_highlights();
            return AppAction::NoAction;
        }
        let role = if key == KeyCode::Char('q') || key == KeyCode::Char('r') || key == KeyCode::Char('b') || key
            == KeyCode::Char('n') {
            match key {
                KeyCode::Char(c) => Some(c),
                _ => None,
            }
        } else {
            None
        };
        proof {
            assert(role == promotion_role(key));
        }
        let mut i: usize = 0;
        while i < self.promotion.len()
            invariant
                *self == *old(self),
                role == promotion_role(key),
                key != KeyCode::Esc,
                i <= self.promotion@.len(),
                forall|k: int| 0 <= k < i ==> (#[trigger] self.promotion@[k]).promotion != role,
            decreases self.promotion@.len() - i,
        {
            if self.promotion[i].promotion == role {
                let mv = self.promotion[i].clone();
                proof {
                    let ps = specs_of(old(self).promotion@);
                    assert(first_with(ps, role) == i as int) by {
                        assert(ps[i as int].promotion == role);
                        assert forall|j: int| 0 <= j < i implies (#[trigger] ps[j]).promotion != role by {
                            assert(ps[j] == self.promotion@[j]@);
                        }
                        lemma_first_with(ps, role, i as int);
                    }
                    assert(mv@ == ps[i as int]);
                }
                return self.play_clicked_move(&mv);
            }
            i = i + 1;
        }
        proof {
            let ps = specs_of(self.promotion@);
            assert(first_with(ps, role) == -1) by {
                assert forall|j: int| 0 <= j < ps.len() implies (#[trigger] ps[j]).promotion != role by {
                    assert(ps[j] == self.promotion@[j]@);
                }
                lemma_none_with(ps, role);
            }
        }
        AppAction::NoAction
    }

    /// A typed command during a game: `/resign`, `/draw`, `/quit` (`/q`) and
    /// `/back` (`/lobby`) act as the matching control; anything else is
    /// reported unknown.
    fn game_command(&mut self, cmd: &[char]) -> (action: AppAction)
        requires
            old(self).wf(),
        ensures
            final(self).wf(),
            game_command_done(*old(self), *final(self), cmd@, action),
    {
        if text_is(cmd, "/resign") {
            return self.request_control(GameControl::Resign);
        }
        if text_is(cmd, "/draw") {
            return self.request_control(GameControl::Draw);
        }
        if text_is(cmd, "/quit") || text_is(cmd, "/q") {
            return self.request_control(GameControl::Disconnect);
        }
        if text_is(cmd, "/back") || text_is(cmd, "/lobby") {
            return self.request_control(GameControl::Lobby);
        }
        self.status_message = Some(String::from_str("Unknown command"));
        self.clear_highlights();
        AppAction::NoAction
    }

    /// A typed move, sent when the game is online or against the computer,
    /// else played on the practice board.
    fn submit_text(&mut self, input: String) -> (action: AppAction)
        ensures
            submit_done(*old(self), *final(self), input@, action),
    {
        let my_turn = self.is_my_turn();
        if self.computer && !my_turn {
            self.status_message = Some(String::from_str("Zander is thinking..."));
            return AppAction::NoAction;
        }
        let sends = self.is_multiplayer || self.computer;
        let fen = match &self.game {
            Some(game) => Some(game.fen()),
            None => None,
        };
        match fen {
            Some(f) => {
                let matching = self.find_matching_san_moves(f.as_str(), input.as_str());
                if matching.len() == 1 {
                    if sends {
                        self.clear_highlights();
                        return AppAction::SubmitMoveText(matching[0].san.clone());
                    }
                    let played = match &mut self.game {
                        Some(game) => game.play_move(&matching[0]).is_ok(),
                        None => false,
                    };
                    if played {
                        self.clear_highlights();
                        self.status_message = None;
                        return AppAction::NoAction;
                    }
                }
            },
            None => {},
        }
        if sends {
            self.clear_highlights();
            return AppAction::SubmitMoveText(input);
        }
        let raw = chars_of(input.as_str());
        let normalized = string_of(normalize_san_chars(raw.as_slice()).as_slice());
        let lower = lowercase(input.as_str());
        let outcome = match &mut self.game {
            Some(game) => Some(
                game.play_san(input.as_str()).is_ok() || game.play_san(normalized.as_str()).is_ok()
                    || game.play_uci(lower.as_str()).is_ok(),
            ),
            None => None,
        };
        match outcome {
            Some(true) => {
                self.clear_highlights();
                self.status_message = None;
            },
            Some(false) => {
                self.status_message = Some(prefixed("Invalid move: ", raw.as_slice()));
            },
            None => {},
        }
        self.clear_highlights();
        AppAction::NoAction
    }

    /// A character typed during a game.
    fn game_char_key(&mut self, c: char) -> (action: AppAction)
        requires
            old(self).wf(),
        ensures
            final(self).wf(),
            game_key_done(*old(self), *final(self), KeyCode::Char(c), action),
    {
        self.push_input(c);
        self.try_parse_move()
    }

    /// Backspace during a game.
    fn game_backspace(&mut self) -> (action: AppAction)
        requires
            old(self).wf(),
        ensures
            final(self).wf(),
            game_key_done(*old(self), *final(self), KeyCode::Backspace, action),
    {
        self.pop_input();
        if self.input_buffer.as_str().unicode_len() == 0 {
            self.clear_highlights();
        } else {
            self.try_parse_move();
        }
        AppAction::NoAction
    }

    /// Enter during a game.
    fn game_enter(&mut self) -> (action: AppAction)
        requires
            old(self).wf(),
        ensures
            final(self).wf(),
            game_key_done(*old(self), *final(self), KeyCode::Enter, action),
    {
        let typed = chars_of(self.input_buffer.as_str());
        let trimmed = trim_chars(typed.as_slice());
        self.input_buffer = String::new();
        if trimmed.len() == 0 {
            return AppAction::NoAction;
        }
        if trimmed[0] == '/' {
            let cmd = chars_of(lowercase(string_of(trimmed.as_slice()).as_str()).as_str());
            let ghost x = *self;
            let a = self.game_command(cmd.as_slice());
            proof {
                lemma_command_input(x, *self, cmd@, a);
            }
            return a;
        }
        self.submit_text(string_of(trimmed.as_slice()))
    }

    /// Keys during a game: typing a move (each key marks its candidates),
    /// Enter to play or send it or to run a command, Esc to drop the text.
    fn handle_game_input(&mut self, key: KeyCode) -> (action: AppAction)
        requires
            old(self).wf(),
        ensures
            final(self).wf(),
            old(self).promotion@.len() > 0 ==> promotion_key_done(*old(self), *final(self), key, action),
            old(self).promotion@.len() == 0 ==> game_key_done(*old(self), *final(self), key, action),
    {
        if self.promotion.len() > 0 {
            return self.promotion_key(key);
        }
        match key {
            KeyCode::Char(c) => self.game_char_key(c),
            KeyCode::Backspace => self.game_backspace(),
            KeyCode::Enter => self.game_enter(),
            KeyCode::Esc => {
                self.input_buffer = String::new();
                self.clear_highlights();
                AppAction::NoAction
            },
            _ => AppAction::NoAction,
        }
    }

    /// A click in the lobby: on the computer's level (left half lowers it,
    /// right half raises it), its start or back rows, the guide's back row,
    /// or a menu entry.
    fn lobby_click(&mut self, x: u16, y: u16, inner: Rect) -> (action: AppAction)
        requires
            old(self).wf(),
        ensures
            final(self).wf(),
            lobby_click_done(*old(self), *final(self), x as int, y as int, action, inner),
    {
        if self.computer_setup {
            if inner.contains(x, y) {
                let row = y - inner.y;
                if row == 4 {
                    if (x as u32) < (inner.x as u32) + (inner.width as u32) / 2 {
                        self.engine_level = self.engine_level.saturating_sub(1);
                    } else {
                        self.engine_level = if self.engine_level < 20 { self.engine_level + 1 } else { 20 };
                    }
                } else if row == 6 {
                    return AppAction::StartComputer(self.engine_level);
                } else if row == 8 {
                    self.computer_setup = false;
                }
            }
        } else if self.lobby_help {
            if inner.contains(x, y) && y == inner.bottom().saturating_sub(1) {
                self.lobby_help = false;
            }
        } else {
            match LobbyView::entry_at(inner, x, y) {
                Some(index) => {
                    self.input_buffer = String::new();
                    self.lobby_selection = index;
                    let ghost mid = *self;
                    let a = self.activate_lobby_selection();
                    proof {
                        lemma_opened_input(mid, *self, a);
                    }
                    return a;
                },
                None => {},
            }
        }
        AppAction::NoAction
    }

    /// A click while a promotion is being chosen: the rows of the choice
    /// are queen, rook, bishop and knight.
    fn promotion_click(&mut self, x: u16, y: u16) -> (action: AppAction)
        requires
            old(self).wf(),
        ensures
            final(self).wf(),
            promotion_click_done(*old(self), *final(self), x as int, y as int, action),
    {
        let area = self.promotion_area();
        if area.contains(x, y) {
            let row = y - area.y;
            let role = if row == 1 {
                Some('q')
            } else if row == 2 {
                Some('r')
            } else if row == 3 {
                Some('b')
            } else if row == 4 {
                Some('n')
            } else {
                None
            };
            match find_promotion(&self.promotion, role) {
                Some(i) => {
                    let mv = self.promotion[i].clone();
                    proof {
                        assert(mv@ == specs_of(self.promotion@)[i as int]);
                    }
                    return self.play_clicked_move(&mv);
                },
                None => {},
            }
        }
        AppAction::NoAction
    }

    /// A click on a square of the board.
    fn square_click(&mut self, square: Square) -> (action: AppAction)
        requires
            old(self).wf(),
            square.0 < 64,
        ensures
            final(self).wf(),
            square_click_done(*old(self), *final(self), square, action),
    {
        let fen = match &self.game {
            Some(game) => game.fen(),
            None => return AppAction::NoAction,
        };
        if self.selected_square == Some(square) {
            self.clear_highlights();
            return AppAction::NoAction;
        }
        let moves = legal_moves(fen.as_str());
        proof {
            assert(specs_of(moves@) =~= spec_legal_moves(fen@));
        }
        match self.selected_square {
            Some(from) => {
                let candidates = moves_between(&moves, from, square);
                if candidates.len() == 1 {
                    proof {
                        assert(candidates@[0]@ == specs_of(candidates@)[0]);
                    }
                    return self.play_clicked_move(&candidates[0]);
                }
                if candidates.len() > 1 {
                    self.promotion = candidates;
                    return AppAction::NoAction;
                }
            },
            None => {},
        }
        let own = match piece_at(fen.as_str(), square) {
            Some((color, _)) => match &self.game {
                Some(game) => color == game.turn(),
                None => false,
            },
            None => false,
        };
        if own {
            self.input_buffer = String::new();
            self.selected_square = Some(square);
            self.highlight_origins = Vec::new();
            self.highlight_destinations = targets_from(&moves, square);
        } else {
            self.clear_highlights();
        }
        AppAction::NoAction
    }

    /// A click on the board during a game: choosing a promotion, selecting
    /// one's own piece (its destinations are marked), or playing the
    /// selected piece to the clicked square.
    fn board_click(&mut self, x: u16, y: u16, board: Rect) -> (action: AppAction)
        requires
            old(self).wf(),
        ensures
            final(self).wf(),
            board_click_done(*old(self), *final(self), x as int, y as int, action, board),
    {
        let my_turn = self.is_my_turn();
        if (self.is_multiplayer || self.computer) && !my_turn {
            return AppAction::NoAction;
        }
        if self.promotion.len() > 0 {
            return self.promotion_click(x, y);
        }
        match BoardWidget::square_at(board, x, y, self.is_black_player) {
            Some(square) => self.square_click(square),
            None => AppAction::NoAction,
        }
    }

    /// A click: on a game control button, on the lobby menu, on the search's
    /// cancel row, or on the board.
    fn handle_click(&mut self, x: u16, y: u16, l: &ScreenLayout) -> (action: AppAction)
        requires
            old(self).wf(),
            l.shaped(old(self).area),
        ensures
            final(self).wf(),
            click_done(*old(self), *final(self), x as int, y as int, action, *l),
    {
        if (self.view == AppView::Game || self.view == AppView::GameOver) && self.promotion.len() == 0 {
            let areas = button_areas_in(self.area, l.footer.as_slice());
            let all = GameControl::all();
            let mut i: usize = 0;
            while i < 4
                invariant
                    *self == *old(self),
                    areas@ == spec_button_areas(self.area, l.footer@),
                    all@ == seq![GameControl::Resign, GameControl::Draw, GameControl::Lobby, GameControl::Disconnect],
                    i <= 4,
                    forall|k: int| 0 <= k < i ==> !(#[trigger] areas@[k]).spec_contains(x as int, y as int),
                    self.wf(),
                    self.view == AppView::Game || self.view == AppView::GameOver,
                    self.promotion@.len() == 0,
                decreases 4 - i,
            {
                if areas[i].contains(x, y) {
                    let c = all[i];
                    proof {
                        assert(button_hit(self.area, l.footer@, x as int, y as int) == i as int);
                        assert(c == control_at(i as int));
                    }
                    return self.request_control(c);
                }
                i = i + 1;
            }
            proof {
                assert(button_hit(self.area, l.footer@, x as int, y as int) == -1);
            }
        }
        let inner = LobbyView::menu_inner_in(self.area, l.lobby_rows.as_slice(), l.lobby_columns.as_slice());
        match self.view {
            AppView::Lobby => self.lobby_click(x, y, inner),
            AppView::InQueue => {
                if inner.contains(x, y) && y == inner.bottom().saturating_sub(1) {
                    AppAction::LeaveQueue
                } else {
                    AppAction::NoAction
                }
            },
            AppView::Game => self.board_click(x, y, GameView::board_area_in(self.area, l.columns.as_slice())),
            AppView::GameOver => AppAction::NoAction,
        }
    }

    /// What the player did, the screen laid out as `l`: Ctrl+C or Ctrl+D
    /// quits; a control waiting for confirmation takes every input; F2 to F5
    /// are the game controls; then clicks and keys go to the screen shown.
    pub fn handle_input_in(&mut self, event: InputEvent, l: &ScreenLayout) -> (action: AppAction)
        requires
            old(self).wf(),
            l.shaped(old(self).area),
        ensures
            final(self).wf(),
            input_done(*old(self), *final(self), event, action, *l),
    {
        match event {
            InputEvent::Key(KeyCode::Char(c), KeyModifiers::CONTROL) => {
                if c == 'c' || c == 'd' {
                    self.should_quit = true;
                    return AppAction::Quit;
                }
            },
            _ => {},
        }
        if self.confirmation.is_some() {
            return self.handle_confirmation(event, &l.choices);
        }
        if self.view == AppView::Game || self.view == AppView::GameOver {
            match event {
                InputEvent::Key(KeyCode::F(n), _) => {
                    if 2 <= n && n <= 5 {
                        let all = GameControl::all();
                        return self.request_control(all[(n - 2) as usize]);
                    }
                },
                _ => {},
            }
        }
        match event {
            InputEvent::Click(x, y) => self.handle_click(x, y, l),
            InputEvent::Key(KeyCode::Char(c), KeyModifiers::CONTROL) if c == '+' || c == '-' || c == '=' || c == '_'
                || c == '^' => AppAction::NoAction,
            InputEvent::Key(key, _) => match self.view {
                AppView::Lobby => self.handle_lobby_input(key),
                AppView::InQueue => self.handle_queue_input(key),
                AppView::Game => self.handle_game_input(key),
                AppView::GameOver => self.handle_game_over_input(key),
            },
            _ => AppAction::NoAction,
        }
    }

    /// What the player did: Ctrl+C or Ctrl+D quits; a control waiting for
    /// confirmation takes every input; F2 to F5 are the game controls; then
    /// clicks and keys go to the screen shown, laid out by the layout
    /// solver.
    pub fn handle_input(&mut self, event: InputEvent) -> (action: AppAction)
        requires
            old(self).wf(),
        ensures
            final(self).wf(),
            exists|l: ScreenLayout|
                l.shaped(old(self).area) && #[trigger] input_done(*old(self), *final(self), event, action, l),
    {
        let l = ScreenLayout::of(self.area);
        let ghost before = *self;
        let action = self.handle_input_in(event, &l);
        proof {
            assert(l.shaped(before.area) && input_done(before, *self, event, action, l));
        }
        action
    }
}

/// What a key did while the computer's level was being chosen: left/down
/// (`h`, `j`) lower the level down to 0, right/up (`l`, `k`) raise it up to
/// 20, Enter starts the game, Esc leaves the choice.
pub open spec fn setup_key_done(before: App, after: App, key: KeyCode, action: AppAction) -> bool {
    let level = before.engine_level;
    if key == KeyCode::Left || key == KeyCode::Down || key == KeyCode::Char('h') || key == KeyCode::Char('j') {
        action == AppAction::NoAction && after == (App {
            engine_level: if level > 0 { (level - 1) as u8 } else { 0 },
            ..before
        })
    } else if key == KeyCode::Right || key == KeyCode::Up || key == KeyCode::Char('l') || key == KeyCode::Char(
        'k',
    ) {
        action == AppAction::NoAction && after == (App {
            engine_level: if level < 20 { (level + 1) as u8 } else { 20 },
            ..before
        })
    } else if key == KeyCode::Enter {
        action == AppAction::StartComputer(level) && after == before
    } else if key == KeyCode::Esc {
        action == AppAction::NoAction && after == (App { computer_setup: false, ..before })
    } else {
        action == AppAction::NoAction && after == before
    }
}

/// What a key did on the lobby menu with nothing typed: down/Tab/`j` and
/// up/BackTab/`k` move the selection round the five entries, Enter/right/`l`
/// open it, a digit from 1 to 5 opens that entry.
pub open spec fn menu_key_done(before: App, after: App, key: KeyCode, action: AppAction) -> bool {
    let sel = before.lobby_selection;
    if key == KeyCode::Down || key == KeyCode::Tab || key == KeyCode::Char('j') {
        action == AppAction::NoAction && after == (App { lobby_selection: ((sel + 1) % 5) as usize, ..before })
    } else if key == KeyCode::Up || key == KeyCode::BackTab || key == KeyCode::Char('k') {
        action == AppAction::NoAction && after == (App { lobby_selection: ((sel + 4) % 5) as usize, ..before })
    } else if key == KeyCode::Enter || key == KeyCode::Right || key == KeyCode::Char('l') {
        after.lobby_selection == sel && opened_entry(before, after, action)
    } else if key is Char && '1' <= key->Char_0 <= '5' {
        let chosen = (key->Char_0 as int - '1' as int) as usize;
        after.lobby_selection == chosen && opened_entry(App { lobby_selection: chosen, ..before }, after, action)
    } else {
        action == AppAction::NoAction && after == before
    }
}

/// What a key did while a lobby command was typed: characters are added,
/// Backspace removes the last, Enter runs the command, Esc drops the text.
pub open spec fn typing_key_done(before: App, after: App, key: KeyCode, action: AppAction) -> bool {
    if key is Char {
        action == AppAction::NoAction && after == (App { input_buffer: after.input_buffer, ..before })
            && after.input_buffer@ == before.input_buffer@.push(key->Char_0)
    } else if key == KeyCode::Backspace {
        action == AppAction::NoAction && after == (App { input_buffer: after.input_buffer, ..before })
            && after.input_buffer@ == (if before.input_buffer@.len() > 0 {
            before.input_buffer@.drop_last()
        } else {
            before.input_buffer@
        })
    } else if key == KeyCode::Enter {
        after.input_buffer@.len() == 0 && command_done(before, after, action, spec_lowercase(trim(before.input_buffer@)))
    } else if key == KeyCode::Esc {
        action == AppAction::NoAction && after == (App { input_buffer: after.input_buffer, ..before })
            && after.input_buffer@.len() == 0
    } else {
        action == AppAction::NoAction && after == before
    }
}

/// What opening the selected lobby entry of `before` did to give `after`.
pub open spec fn opened_entry(before: App, after: App, action: AppAction) -> bool {
    let sel = before.lobby_selection;
    if sel == 0 {
        action == AppAction::JoinQueue && after == (App { status_message: None, ..before })
    } else if sel == 1 {
        &&& action == AppAction::NoAction
        &&& after.view == AppView::Game
        &&& !after.is_multiplayer
        &&& !after.computer
        &&& after.opponent_name@ == "Practice"@
        &&& after.game matches Some(g) && g@ == Game::new_spec()
        &&& after.status_message is None
    } else if sel == 2 {
        action == AppAction::NoAction && after == (App { status_message: None, computer_setup: true, ..before })
    } else if sel == 3 {
        action == AppAction::NoAction && after == (App { status_message: None, lobby_help: true, ..before })
    } else {
        action == AppAction::Quit && after == (App { status_message: None, should_quit: true, ..before })
    }
}

/// What the lobby command `cmd` (trimmed, lowercase), typed in `before`,
/// did to give `after` (whose typed text is then empty).
pub open spec fn command_done(before: App, after: App, action: AppAction, cmd: Seq<char>) -> bool {
    if cmd == "/computer"@ || cmd == "/ai"@ {
        action == AppAction::NoAction && after == (App {
            computer_setup: true,
            input_buffer: after.input_buffer,
            ..before
        })
    } else if cmd == "/play"@ || cmd == "play"@ || cmd == "/p"@ {
        action == AppAction::JoinQueue && after == (App { input_buffer: after.input_buffer, ..before })
    } else if cmd == "/solo"@ || cmd == "solo"@ || cmd == "/s"@ {
        &&& action == AppAction::NoAction
        &&& after.view == AppView::Game
        &&& !after.is_multiplayer
        &&& !after.computer
        &&& after.opponent_name@ == "Practice"@
        &&& after.game matches Some(g) && g@ == Game::new_spec()
    } else if cmd == "/quit"@ || cmd == "quit"@ || cmd == "/q"@ || cmd == "exit"@ {
        action == AppAction::Quit && after == (App {
            should_quit: true,
            input_buffer: after.input_buffer,
            ..before
        })
    } else {
        &&& action == AppAction::NoAction
        &&& after == (App {
            status_message: after.status_message,
            input_buffer: after.input_buffer,
            ..before
        })
        &&& text_of(after.status_message) == Some("Unknown command. Use /play, /solo, /ai, /quit."@)
    }
}

/// The promotion a key chooses: `q`, `r`, `b` or `n`.
pub open spec fn promotion_role(key: KeyCode) -> Option<char> {
    if key == KeyCode::Char('q') || key == KeyCode::Char('r') || key == KeyCode::Char('b') || key == KeyCode::Char('n') {
        Some(key->Char_0)
    } else {
        None
    }
}

/// The index of the first move that promotes to `p`, or -1.
pub open spec fn first_with(ms: Seq<MoveSpec>, p: Option<char>) -> int {
    if exists|i: int| 0 <= i < ms.len() && (#[trigger] ms[i]).promotion == p {
        choose|i: int|
            0 <= i < ms.len() && (#[trigger] ms[i]).promotion == p && forall|j: int|
                0 <= j < i ==> (#[trigger] ms[j]).promotion != p
    } else {
        -1
    }
}

proof fn lemma_first_with(ms: Seq<MoveSpec>, p: Option<char>, i: int)
    requires
        0 <= i < ms.len(),
        ms[i].promotion == p,
        forall|j: int| 0 <= j < i ==> (#[trigger] ms[j]).promotion != p,
    ensures
        first_with(ms, p) == i,
{
    let k = choose|k: int|
        0 <= k < ms.len() && (#[trigger] ms[k]).promotion == p && forall|j: int|
            0 <= j < k ==> (#[trigger] ms[j]).promotion != p;
    assert(0 <= k < ms.len() && ms[k].promotion == p && forall|j: int| 0 <= j < k ==> (#[trigger] ms[j]).promotion != p);
    if k < i {
        assert(ms[k].promotion != p);
    }
    if i < k {
        assert(ms[i].promotion != p);
    }
}

proof fn lemma_none_with(ms: Seq<MoveSpec>, p: Option<char>)
    requires
        forall|j: int| 0 <= j < ms.len() ==> (#[trigger] ms[j]).promotion != p,
    ensures
        first_with(ms, p) == -1,
{
}

/// `after` is `before` with the highlight fields cleared.
pub open spec fn cleared(before: App, after: App) -> bool {
    &&& after == (App {
        promotion: after.promotion,
        selected_square: None,
        highlight_origins: after.highlight_origins,
        highlight_destinations: after.highlight_destinations,
        ..before
    })
    &&& after.highlights_clear()
}

/// `after` is `before` with the candidate moves `ms` marked.
pub open spec fn highlights_from(before: App, after: App, ms: Seq<MoveSpec>) -> bool {
    let origins = distinct(origins_of(ms));
    let targets = distinct(targets_of(ms));
    &&& after == (App {
        highlight_origins: after.highlight_origins,
        highlight_destinations: after.highlight_destinations,
        selected_square: if origins.len() == 1 && targets.len() == 1 {
            Some(origins[0])
        } else {
            None
        },
        ..before
    })
    &&& after.highlight_origins@ == origins
    &&& after.highlight_destinations@ == targets
}

/// `after` is `before` with what the text `typed` may mean marked: nothing
/// for empty text; the candidate moves; else the square its first two
/// letters name (and the move to the square of the next two); else nothing.
pub open spec fn parse_done(before: App, after: App, typed: Seq<char>) -> bool {
    let t = trim(typed);
    if t.len() == 0 {
        cleared(before, after)
    } else if before.game is None {
        after == before
    } else {
        let ms = spec_matching_moves(before.game->Some_0@.fen, t);
        let l = spec_lowercase(t);
        if ms.len() > 0 {
            highlights_from(before, after, ms)
        } else if l.len() >= 2 && Square::spec_parse(l.subrange(0, 2)) is Some {
            let from = Square::spec_parse(l.subrange(0, 2))->Some_0;
            let to = if l.len() >= 4 {
                Square::spec_parse(l.subrange(2, 4))
            } else {
                None
            };
            &&& after == (App {
                selected_square: Some(from),
                highlight_origins: after.highlight_origins,
                highlight_destinations: after.highlight_destinations,
                ..before
            })
            &&& after.highlight_origins@ == match to {
                Some(_) => seq![from],
                None => Seq::empty(),
            }
            &&& after.highlight_destinations@ == match to {
                Some(d) => seq![d],
                None => Seq::empty(),
            }
        } else {
            cleared(before, after)
        }
    }
}

/// What a key did while a promotion was being chosen.
pub open spec fn promotion_key_done(before: App, after: App, key: KeyCode, action: AppAction) -> bool {
    let ps = specs_of(before.promotion@);
    let role = promotion_role(key);
    if key == KeyCode::Esc {
        action == AppAction::NoAction && cleared(before, after)
    } else if first_with(ps, role) >= 0 {
        &&& action matches AppAction::SubmitMoveText(t) && t@ == uci_text(ps[first_with(ps, role)])
        &&& cleared(App { input_buffer: after.input_buffer, ..before }, after)
        &&& after.input_buffer@.len() == 0
    } else {
        action == AppAction::NoAction && after == before
    }
}

/// What a typed command did during a game.
pub open spec fn game_command_done(before: App, after: App, cmd: Seq<char>, action: AppAction) -> bool {
    if cmd == "/resign"@ {
        control_requested(before, after, GameControl::Resign, action)
    } else if cmd == "/draw"@ {
        control_requested(before, after, GameControl::Draw, action)
    } else if cmd == "/quit"@ || cmd == "/q"@ {
        control_requested(before, after, GameControl::Disconnect, action)
    } else if cmd == "/back"@ || cmd == "/lobby"@ {
        control_requested(before, after, GameControl::Lobby, action)
    } else {
        &&& action == AppAction::NoAction
        &&& cleared(App { status_message: after.status_message, ..before }, after)
        &&& text_of(after.status_message) == Some("Unknown command"@)
    }
}

/// In an online game the commands ask for the control they name: `/draw`
/// asks to confirm a draw offer and `/resign` to confirm resigning, with
/// nothing sent yet; and no other command leaves a resignation waiting for
/// confirmation.
pub proof fn lemma_game_commands_ask_for_their_control(before: App, after: App, cmd: Seq<char>, action: AppAction)
    requires
        before.view == AppView::Game,
        before.is_multiplayer,
        before.confirmation is None,
        game_command_done(before, after, cmd, action),
    ensures
        cmd == "/draw"@ ==> after.confirmation == Some(GameControl::Draw) && action == AppAction::NoAction,
        cmd == "/resign"@ ==> after.confirmation == Some(GameControl::Resign) && action == AppAction::NoAction,
        cmd == "/lobby"@ || cmd == "/back"@ ==> after.confirmation == Some(GameControl::Lobby) && action
            == AppAction::NoAction,
        cmd == "/quit"@ || cmd == "/q"@ ==> after.confirmation == Some(GameControl::Disconnect) && action
            == AppAction::NoAction,
        after.confirmation == Some(GameControl::Resign) ==> cmd == "/resign"@,
        after.confirmation == Some(GameControl::Draw) ==> cmd == "/draw"@,
        action != AppAction::Resign,
{
    reveal_strlit("/draw");
    reveal_strlit("/resign");
    reveal_strlit("/lobby");
    reveal_strlit("/back");
    reveal_strlit("/quit");
    reveal_strlit("/q");
    assert("/draw"@[1] != "/resign"@[1]);
    assert("/draw"@[1] != "/lobby"@[1] && "/draw"@[1] != "/back"@[1] && "/draw"@[1] != "/quit"@[1]
        && "/draw"@[1] != "/q"@[1]);
    assert("/resign"@[1] != "/lobby"@[1] && "/resign"@[1] != "/back"@[1] && "/resign"@[1] != "/quit"@[1]
        && "/resign"@[1] != "/q"@[1]);
    assert("/lobby"@[1] != "/quit"@[1] && "/lobby"@[1] != "/q"@[1] && "/back"@[1] != "/quit"@[1]
        && "/back"@[1] != "/q"@[1]);
}

proof fn lemma_opened_input(x: App, after: App, action: AppAction)
    requires
        opened_entry(x, after, action),
    ensures
        opened_entry(App { input_buffer: after.input_buffer, ..x }, after, action),
{
}

proof fn lemma_command_input(x: App, after: App, cmd: Seq<char>, action: AppAction)
    requires
        game_command_done(x, after, cmd, action),
    ensures
        game_command_done(App { input_buffer: after.input_buffer, ..x }, after, cmd, action),
{
}

/// What choosing a control did (see `App::request_control`).
pub open spec fn control_requested(before: App, after: App, control: GameControl, action: AppAction) -> bool {
    if before.view == AppView::GameOver {
        match control {
            GameControl::Lobby => action == AppAction::ReturnToLobby && after.view == AppView::Lobby && after.game is None
                && after.confirmation is None && after.input_buffer@.len() == 0,
            GameControl::Disconnect => action == AppAction::Quit && after == (App { should_quit: true, ..before }),
            _ => action == AppAction::NoAction && after == before,
        }
    } else if control == GameControl::Draw && !before.is_multiplayer {
        action == AppAction::NoAction && after == (App { status_message: after.status_message, ..before })
            && text_of(after.status_message) == Some("Draw offers are available in online games."@)
    } else if !before.is_multiplayer && control == GameControl::Lobby {
        action == AppAction::ReturnToLobby && after == (App { confirmation: None, ..before })
    } else if !before.is_multiplayer && control == GameControl::Disconnect {
        action == AppAction::Quit && after == (App { confirmation: None, should_quit: true, ..before })
    } else {
        action == AppAction::NoAction && after == (App {
            confirmation: Some(control),
            confirm_selected: false,
            ..before
        })
    }
}

/// Playing a typed move on the practice board: as SAN, as SAN after
/// normalizing, or as lowercase UCI, whichever is taken first.
pub open spec fn typed_outcome(g: crate::chess::game::GameView, t: Seq<char>) -> (bool, crate::chess::game::GameView) {
    let (s1, g1) = san_play_spec(g, t);
    let (s2, g2) = san_play_spec(g, normalize_san(t));
    let (s3, g3) = uci_play_spec(g, spec_lowercase(t));
    if s1 is Ok {
        (true, g1)
    } else if s2 is Ok {
        (true, g2)
    } else {
        (s3 is Ok, g3)
    }
}

/// What a typed move `t` did: refused while the computer thinks; one
/// matching move is sent (as SAN) or played; otherwise the text is sent, or
/// played on the practice board, or reported invalid.
pub open spec fn submit_done(before: App, after: App, t: Seq<char>, action: AppAction) -> bool {
    let sends = before.is_multiplayer || before.computer;
    if before.computer && !before.spec_is_my_turn() {
        action == AppAction::NoAction && after == (App { status_message: after.status_message, ..before })
            && text_of(after.status_message) == Some("Zander is thinking..."@)
    } else {
        let ms = match before.game {
            Some(g) => spec_matching_moves(g@.fen, t),
            None => Seq::empty(),
        };
        let g = before.game->Some_0@;
        if ms.len() == 1 && sends {
            action matches AppAction::SubmitMoveText(s) && s@ == ms[0].san && cleared(before, after)
        } else if ms.len() == 1 && play_key_spec(g, key_of(ms[0])).0 is Ok {
            &&& action == AppAction::NoAction
            &&& cleared(App { game: after.game, status_message: None, ..before }, after)
            &&& after.game matches Some(a) && a@ == play_key_spec(g, key_of(ms[0])).1
        } else if sends {
            action matches AppAction::SubmitMoveText(s) && s@ == t && cleared(before, after)
        } else if before.game is Some {
            let (ok, g2) = typed_outcome(g, t);
            &&& action == AppAction::NoAction
            &&& cleared(App { game: after.game, status_message: after.status_message, ..before }, after)
            &&& after.game matches Some(a) && a@ == g2
            &&& text_of(after.status_message) == if ok {
                None
            } else {
                Some("Invalid move: "@ + t)
            }
        } else {
            action == AppAction::NoAction && cleared(before, after)
        }
    }
}

/// What a key did during a game with no promotion being chosen.
pub open spec fn game_key_done(before: App, after: App, key: KeyCode, action: AppAction) -> bool {
    let typed = before.input_buffer@;
    if key is Char {
        &&& action == AppAction::NoAction
        &&& after.input_buffer@ == typed.push(key->Char_0)
        &&& parse_done(App { input_buffer: after.input_buffer, ..before }, after, typed.push(key->Char_0))
    } else if key == KeyCode::Backspace {
        let rest = if typed.len() > 0 {
            typed.drop_last()
        } else {
            typed
        };
        &&& action == AppAction::NoAction
        &&& after.input_buffer@ == rest
        &&& if rest.len() == 0 {
            cleared(App { input_buffer: after.input_buffer, ..before }, after)
        } else {
            parse_done(App { input_buffer: after.input_buffer, ..before }, after, rest)
        }
    } else if key == KeyCode::Enter {
        let t = trim(typed);
        let mid = App { input_buffer: after.input_buffer, ..before };
        &&& after.input_buffer@.len() == 0
        &&& if t.len() == 0 {
            action == AppAction::NoAction && after == mid
        } else if t[0] == '/' {
            game_command_done(mid, after, spec_lowercase(t), action)
        } else {
            submit_done(mid, after, t, action)
        }
    } else if key == KeyCode::Esc {
        action == AppAction::NoAction && cleared(App { input_buffer: after.input_buffer, ..before }, after)
            && after.input_buffer@.len() == 0
    } else {
        action == AppAction::NoAction && after == before
    }
}

/// The position of a promotion to `p` among the moves, the first such.
fn find_promotion(ms: &Vec<MoveInfo>, p: Option<char>) -> (r: Option<usize>)
    ensures
        match r {
            Some(i) => i < ms@.len() && first_with(specs_of(ms@), p) == i as int,
            None => first_with(specs_of(ms@), p) == -1,
        },
{
    let ghost ps = specs_of(ms@);
    let mut i: usize = 0;
    while i < ms.len()
        invariant
            ps == specs_of(ms@),
            i <= ms@.len(),
            forall|k: int| 0 <= k < i ==> (#[trigger] ps[k]).promotion != p,
        decreases ms@.len() - i,
    {
        if ms[i].promotion == p {
            proof {
                lemma_first_with(ps, p, i as int);
            }
            return Some(i);
        }
        i = i + 1;
    }
    proof {
        lemma_none_with(ps, p);
    }
    None
}

/// The moves that go, in UCI terms, from one square to another.
pub open spec fn between(ms: Seq<MoveSpec>, from: Square, to: Square) -> Seq<MoveSpec> {
    ms.filter(|m: MoveSpec| m.uci_from == Some(from) && m.uci_to == Some(to))
}

/// The UCI destinations of the moves from a square, in order.
pub open spec fn uci_targets(ms: Seq<MoveSpec>, from: Square) -> Seq<Square>
    decreases ms.len(),
{
    if ms.len() == 0 {
        Seq::empty()
    } else {
        let r = uci_targets(ms.drop_last(), from);
        let m = ms.last();
        if m.from == Some(from) && m.uci_to is Some {
            r.push(m.uci_to->Some_0)
        } else {
            r
        }
    }
}

fn moves_between(ms: &Vec<MoveInfo>, from: Square, to: Square) -> (r: Vec<MoveInfo>)
    ensures
        specs_of(r@) == between(specs_of(ms@), from, to),
{
    let ghost ps = specs_of(ms@);
    let mut r: Vec<MoveInfo> = Vec::new();
    let mut i: usize = 0;
    proof {
        reveal(Seq::filter);
        assert(ps.take(0) =~= Seq::<MoveSpec>::empty());
        assert(specs_of(r@) =~= Seq::<MoveSpec>::empty());
    }
    while i < ms.len()
        invariant
            ps == specs_of(ms@),
            i <= ms@.len(),
            specs_of(r@) == between(ps.take(i as int), from, to),
        decreases ms@.len() - i,
    {
        proof {
            reveal(Seq::filter);
            assert(ps.take(i + 1).drop_last() =~= ps.take(i as int));
        }
        if ms[i].uci_from == Some(from) && ms[i].uci_to == Some(to) {
            let ghost before = r@;
            r.push(ms[i].clone());
            proof {
                assert(specs_of(r@) =~= specs_of(before).push(ps[i as int]));
            }
        }
        i = i + 1;
    }
    proof {
        assert(ps.take(ms@.len() as int) =~= ps);
    }
    r
}

fn targets_from(ms: &Vec<MoveInfo>, from: Square) -> (r: Vec<Square>)
    ensures
        r@ == uci_targets(specs_of(ms@), from),
{
    let ghost ps = specs_of(ms@);
    let mut r: Vec<Square> = Vec::new();
    let mut i: usize = 0;
    proof {
        assert(ps.take(0) =~= Seq::<MoveSpec>::empty());
    }
    while i < ms.len()
        invariant
            ps == specs_of(ms@),
            i <= ms@.len(),
            r@ == uci_targets(ps.take(i as int), from),
        decreases ms@.len() - i,
    {
        proof {
            assert(ps.take(i + 1).drop_last() =~= ps.take(i as int));
        }
        if ms[i].from == Some(from) {
            match ms[i].uci_to {
                Some(t) => r.push(t),
                None => {},
            }
        }
        i = i + 1;
    }
    proof {
        assert(ps.take(ms@.len() as int) =~= ps);
    }
    r
}

/// The first game control button under the cell, or -1, a narrow screen's
/// footer bar divided into `footer`.
pub open spec fn button_hit(area: Rect, footer: Seq<Rect>, x: int, y: int) -> int {
    let b = spec_button_areas(area, footer);
    if b[0].spec_contains(x, y) {
        0
    } else if b[1].spec_contains(x, y) {
        1
    } else if b[2].spec_contains(x, y) {
        2
    } else if b[3].spec_contains(x, y) {
        3
    } else {
        -1
    }
}

pub open spec fn control_at(i: int) -> GameControl {
    if i == 0 {
        GameControl::Resign
    } else if i == 1 {
        GameControl::Draw
    } else if i == 2 {
        GameControl::Lobby
    } else {
        GameControl::Disconnect
    }
}

/// What a key did in the lobby.
pub open spec fn lobby_key_done(before: App, after: App, key: KeyCode, action: AppAction) -> bool {
    if before.computer_setup {
        setup_key_done(before, after, key, action)
    } else if before.lobby_help {
        action == AppAction::NoAction && after == (App {
            lobby_help: !(key == KeyCode::Enter || key == KeyCode::Esc || key == KeyCode::Left || key == KeyCode::Char(
                'h',
            )),
            ..before
        })
    } else if before.input_buffer@.len() == 0 && key != KeyCode::Char('/') {
        menu_key_done(before, after, key, action)
    } else {
        typing_key_done(before, after, key, action)
    }
}

/// What an input did while a control waited for confirmation: Esc or `n`
/// cancels, Tab and the arrow keys (`h`, `l`) switch buttons, `y` confirms,
/// Enter presses the selected button, a click presses the button hit.
pub open spec fn confirmation_done(before: App, after: App, event: InputEvent, action: AppAction, cs: Seq<Rect>) -> bool {
    let control = before.confirmation->Some_0;
    let confirmed = match event {
        InputEvent::Key(KeyCode::Char('y'), _) => true,
        InputEvent::Key(KeyCode::Enter, _) => before.confirm_selected,
        InputEvent::Click(x, y) => !cs[0].spec_contains(x as int, y as int) && cs[1].spec_contains(x as int, y as int),
        _ => false,
    };
    let cancelled = match event {
        InputEvent::Key(KeyCode::Esc, _) | InputEvent::Key(KeyCode::Char('n'), _) => true,
        InputEvent::Key(KeyCode::Enter, _) => !before.confirm_selected,
        InputEvent::Click(x, y) => cs[0].spec_contains(x as int, y as int),
        _ => false,
    };
    let toggled = match event {
        InputEvent::Key(KeyCode::Tab, _) | InputEvent::Key(KeyCode::BackTab, _) | InputEvent::Key(
            KeyCode::Left,
            _,
        ) | InputEvent::Key(KeyCode::Right, _) | InputEvent::Key(KeyCode::Char('h'), _)
        | InputEvent::Key(KeyCode::Char('l'), _) => true,
        _ => false,
    };
    if confirmed {
        &&& action == match control {
            GameControl::Resign => AppAction::Resign,
            GameControl::Draw => AppAction::OfferDraw,
            GameControl::Lobby => AppAction::ReturnToLobby,
            GameControl::Disconnect => AppAction::Quit,
        }
        &&& after == (App {
            confirmation: None,
            should_quit: before.should_quit || control == GameControl::Disconnect,
            ..before
        })
    } else if cancelled {
        action == AppAction::NoAction && after == (App { confirmation: None, ..before })
    } else if toggled {
        action == AppAction::NoAction && after == (App {
            confirm_selected: !before.confirm_selected,
            ..before
        })
    } else {
        action == AppAction::NoAction && after == before
    }
}

/// What a key did on the final board.
pub open spec fn game_over_key_done(before: App, after: App, key: KeyCode, action: AppAction) -> bool {
    if key == KeyCode::Enter {
        action == AppAction::ReturnToLobby && after.view == AppView::Lobby && after.game is None
            && after.game_over_reason is None
    } else if key == KeyCode::Char('q') {
        action == AppAction::Quit && after == (App { should_quit: true, ..before })
    } else {
        action == AppAction::NoAction && after == before
    }
}

/// What a click did in the lobby.
pub open spec fn lobby_click_done(before: App, after: App, x: int, y: int, action: AppAction, inner: Rect) -> bool {
    if before.computer_setup {
        let level = before.engine_level;
        if inner.spec_contains(x, y) && y - inner.y == 4 {
            action == AppAction::NoAction && after == (App {
                engine_level: if x < inner.x + inner.width / 2 {
                    if level > 0 { (level - 1) as u8 } else { 0 }
                } else {
                    if level < 20 { (level + 1) as u8 } else { 20 }
                },
                ..before
            })
        } else if inner.spec_contains(x, y) && y - inner.y == 6 {
            action == AppAction::StartComputer(level) && after == before
        } else if inner.spec_contains(x, y) && y - inner.y == 8 {
            action == AppAction::NoAction && after == (App { computer_setup: false, ..before })
        } else {
            action == AppAction::NoAction && after == before
        }
    } else if before.lobby_help {
        action == AppAction::NoAction && after == (App {
            lobby_help: !(inner.spec_contains(x, y) && y == sat_sub(inner.spec_bottom(), 1)),
            ..before
        })
    } else {
        match entry_under(inner, x, y) {
            Some(i) => {
                &&& after.lobby_selection == i
                &&& after.input_buffer@.len() == 0
                &&& opened_entry(App { lobby_selection: i, input_buffer: after.input_buffer, ..before }, after, action)
            },
            None => action == AppAction::NoAction && after == before,
        }
    }
}

/// What a click did while a promotion was being chosen.
pub open spec fn promotion_click_done(before: App, after: App, x: int, y: int, action: AppAction) -> bool {
    let ps = specs_of(before.promotion@);
    let pa = before.spec_promotion_area();
    let row = y - pa.y;
    let role = if row == 1 {
        Some('q')
    } else if row == 2 {
        Some('r')
    } else if row == 3 {
        Some('b')
    } else if row == 4 {
        Some('n')
    } else {
        None
    };
    if pa.spec_contains(x, y) && first_with(ps, role) >= 0 {
        &&& action matches AppAction::SubmitMoveText(t) && t@ == uci_text(ps[first_with(ps, role)])
        &&& cleared(App { input_buffer: after.input_buffer, ..before }, after)
        &&& after.input_buffer@.len() == 0
    } else {
        action == AppAction::NoAction && after == before
    }
}

/// What a click on a square did: a second click on the selected square
/// unselects it; a click on a destination of the selected piece plays the
/// move (or, for several promotions, asks which); a click on one's own
/// piece selects it and marks where it can go; any other click unselects.
pub open spec fn square_click_done(before: App, after: App, square: Square, action: AppAction) -> bool {
    match before.game {
        None => action == AppAction::NoAction && after == before,
        Some(g) => {
            let legal = spec_legal_moves(g@.fen);
            let cands = match before.selected_square {
                Some(from) => between(legal, from, square),
                None => Seq::empty(),
            };
            if before.selected_square == Some(square) {
                action == AppAction::NoAction && cleared(before, after)
            } else if cands.len() == 1 {
                &&& action matches AppAction::SubmitMoveText(t) && t@ == uci_text(cands[0])
                &&& cleared(App { input_buffer: after.input_buffer, ..before }, after)
                &&& after.input_buffer@.len() == 0
            } else if cands.len() > 1 {
                &&& action == AppAction::NoAction
                &&& after == (App { promotion: after.promotion, ..before })
                &&& specs_of(after.promotion@) == cands
            } else if piece_from_letter(spec_piece_at(g@.fen, square)) matches Some((c, _)) && c == turn_of(g@) {
                &&& action == AppAction::NoAction
                &&& after == (App {
                    input_buffer: after.input_buffer,
                    selected_square: Some(square),
                    highlight_origins: after.highlight_origins,
                    highlight_destinations: after.highlight_destinations,
                    ..before
                })
                &&& after.input_buffer@.len() == 0
                &&& after.highlight_origins@.len() == 0
                &&& after.highlight_destinations@ == uci_targets(legal, square)
            } else {
                action == AppAction::NoAction && cleared(before, after)
            }
        },
    }
}

/// What a click did on the board during a game: nothing while the opponent
/// is to move, else a promotion choice or a square.
pub open spec fn board_click_done(before: App, after: App, x: int, y: int, action: AppAction, board: Rect) -> bool {
    if (before.is_multiplayer || before.computer) && !before.spec_is_my_turn() {
        action == AppAction::NoAction && after == before
    } else if before.promotion@.len() > 0 {
        promotion_click_done(before, after, x, y, action)
    } else {
        match spec_square_at(board, x, y, before.is_black_player) {
            None => action == AppAction::NoAction && after == before,
            Some(square) => square_click_done(before, after, square, action),
        }
    }
}

/// What a click did, the screen laid out as `l`.
pub open spec fn click_done(before: App, after: App, x: int, y: int, action: AppAction, l: ScreenLayout) -> bool {
    let on_game = before.view == AppView::Game || before.view == AppView::GameOver;
    let hit = button_hit(before.area, l.footer@, x, y);
    let inner = spec_menu_inner(before.area, l.lobby_rows@, l.lobby_columns@);
    if on_game && before.promotion@.len() == 0 && hit >= 0 {
        control_requested(before, after, control_at(hit), action)
    } else {
        match before.view {
            AppView::Lobby => lobby_click_done(before, after, x, y, action, inner),
            AppView::InQueue => {
                &&& after == before
                &&& action == if inner.spec_contains(x, y) && y == sat_sub(inner.spec_bottom(), 1) {
                    AppAction::LeaveQueue
                } else {
                    AppAction::NoAction
                }
            },
            AppView::Game => board_click_done(before, after, x, y, action, spec_board_area(before.area, l.columns@)),
            AppView::GameOver => action == AppAction::NoAction && after == before,
        }
    }
}

/// What a key did on the screen shown.
pub open spec fn key_done(before: App, after: App, key: KeyCode, action: AppAction) -> bool {
    match before.view {
        AppView::Lobby => lobby_key_done(before, after, key, action),
        AppView::InQueue => after == before && action == (match key {
            KeyCode::Esc | KeyCode::Enter | KeyCode::Left | KeyCode::Char('h') | KeyCode::Char('q') => AppAction::LeaveQueue,
            _ => AppAction::NoAction,
        }),
        AppView::Game => if before.promotion@.len() > 0 {
            promotion_key_done(before, after, key, action)
        } else {
            game_key_done(before, after, key, action)
        },
        AppView::GameOver => game_over_key_done(before, after, key, action),
    }
}

/// What an input did, the screen laid out as `l`.
pub open spec fn input_done(before: App, after: App, event: InputEvent, action: AppAction, l: ScreenLayout) -> bool {
    if event == InputEvent::Key(KeyCode::Char('c'), KeyModifiers::CONTROL) || event == InputEvent::Key(
        KeyCode::Char('d'),
        KeyModifiers::CONTROL,
    ) {
        action == AppAction::Quit && after == (App { should_quit: true, ..before })
    } else if before.confirmation is Some {
        confirmation_done(before, after, event, action, l.choices@)
    } else if (before.view == AppView::Game || before.view == AppView::GameOver) && (event matches InputEvent::Key(
        KeyCode::F(n),
        _,
    ) && 2 <= n <= 5) {
        control_requested(before, after, control_at(event->Key_0->F_0 - 2), action)
    } else {
        match event {
            InputEvent::Click(x, y) => click_done(before, after, x as int, y as int, action, l),
            InputEvent::Key(KeyCode::Char(c), KeyModifiers::CONTROL) => if c == '+' || c == '-' || c == '=' || c
                == '_' || c == '^' {
                action == AppAction::NoAction && after == before
            } else {
                key_done(before, after, KeyCode::Char(c), action)
            },
            InputEvent::Key(key, _) => key_done(before, after, key, action),
            _ => action == AppAction::NoAction && after == before,
        }
    }
}

/// The text a verdict shows, and whether it is a win, a loss or a draw.
pub open spec fn verdict_of(r: GameOverReason) -> (Option<bool>, Seq<char>) {
    match r {
        GameOverReason::YouWin(t) => (Some(true), t@),
        GameOverReason::YouLose(t) => (Some(false), t@),
        GameOverReason::Draw(t) => (None, t@),
    }
}

/// What finishing the game for `reason` did: the final board with the
/// player's verdict, or nothing while the game goes on.
pub open spec fn finish_done(before: App, after: App, reason: Seq<char>) -> bool {
    match before.game {
        Some(g) => match winner_of(g@.result) {
            Some(w) => {
                &&& after == (App {
                    confirmation: None,
                    view: AppView::GameOver,
                    game_over_reason: after.game_over_reason,
                    input_buffer: after.input_buffer,
                    promotion: after.promotion,
                    selected_square: None,
                    highlight_origins: after.highlight_origins,
                    highlight_destinations: after.highlight_destinations,
                    status_message: None,
                    ..before
                })
                &&& after.input_buffer@.len() == 0
                &&& after.highlights_clear()
                &&& after.game_over_reason matches Some(r) && verdict_of(r) == (
                    match w {
                        Some(c) => Some(c == before.my_color()),
                        None => None,
                    },
                    reason,
                )
            },
            None => after == before,
        },
        None => after == before,
    }
}


/// What the lobby of a player's screen shows.
pub open spec fn lobby_data(a: App) -> LobbyData {
    LobbyData {
        online_count: a.online_count,
        queue_size: a.queue_size,
        username: a.username@,
        searching: a.view == AppView::InQueue,
        selected: a.lobby_selection,
        help: a.lobby_help,
        computer_level: if a.computer_setup { Some(a.engine_level) } else { None },
        command: a.input_buffer@,
        status: text_of(a.status_message),
    }
}

/// The squares of the last move, as the rules name them.
pub open spec fn last_squares(ms: Seq<MoveSpec>) -> Option<(Square, Square)> {
    if ms.len() > 0 && ms.last().from is Some {
        Some((ms.last().from->Some_0, ms.last().to))
    } else {
        None
    }
}

/// How a finished game is announced.
pub open spec fn verdict_text(r: GameOverReason) -> Seq<char> {
    match r {
        GameOverReason::YouWin(s) => "YOU WIN - "@ + s@,
        GameOverReason::YouLose(s) => "YOU LOSE - "@ + s@,
        GameOverReason::Draw(s) => "DRAW - "@ + s@,
    }
}

pub open spec fn in_check_fen(fen: Seq<char>) -> bool {
    spec_facts(fen) is Some && spec_facts(fen)->Some_0.in_check
}

/// The status line of a game still going on: the player's message, else
/// check, checkmate with its winner, or stalemate.
pub open spec fn shown_status(a: App, g: crate::chess::game::GameView) -> Option<Seq<char>> {
    if a.game_over_reason is Some {
        None
    } else if a.status_message is Some {
        Some(a.status_message->Some_0@)
    } else if in_check_fen(g.fen) {
        Some("Check!"@)
    } else if in_check_fen(g.fen) && spec_legal_moves(g.fen).len() == 0 {
        Some("Checkmate! "@ + if fen_turn(g.fen) == Color::White { "Black wins!"@ } else { "White wins!"@ })
    } else if spec_facts(g.fen) is Some && !in_check_fen(g.fen) && spec_legal_moves(g.fen).len() == 0 {
        Some("Stalemate! Draw."@)
    } else {
        None
    }
}

/// What the game screen of a player shows of a game.
pub open spec fn game_screen_of(a: App, g: crate::chess::game::GameView) -> GameScreen {
    GameScreen {
        fen: g.fen,
        sans: g.sans,
        white_name: if a.is_black_player { a.opponent_name@ } else { a.username@ },
        black_name: if a.is_black_player { a.username@ } else { a.opponent_name@ },
        status_message: shown_status(a, g),
        selected_square: a.selected_square,
        last_move: last_squares(g.moves),
        is_black_perspective: a.is_black_player,
        highlight_origins: a.highlight_origins@,
        highlight_destinations: a.highlight_destinations@,
        input_buffer: a.input_buffer@,
        is_my_turn: a.spec_is_my_turn(),
        is_multiplayer: a.is_multiplayer,
        computer: a.computer,
        finished: match a.game_over_reason {
            Some(r) => Some(verdict_text(r)),
            None => None,
        },
    }
}

/// The promotion choice: a cleared, framed box listing the pieces.
pub open spec fn promotion_popup(p: Rect) -> Seq<Drawn> {
    seq![
        Drawn::Clear { area: p },
        Drawn::Panel { area: p, title: " Promote pawn "@, rounded: false, border: plain(), style: plain() },
        text_in(
            p.spec_bordered_inner(),
            seq![
                line("Q  Queen"@, plain()),
                line("R  Rook"@, plain()),
                line("B  Bishop"@, plain()),
                line("N  Knight"@, plain()),
                line("Esc  Cancel"@, plain()),
            ],
            plain(),
        ),
    ]
}

/// A player's screen: the lobby, or the game (nothing while no game is
/// held), then the promotion choice and the confirmation dialog when open;
/// the screen laid out as `l`.
pub open spec fn spec_app_screen(a: App, area: Rect, sprites: Option<&SpriteCache>, l: ScreenLayout) -> Seq<Drawn> {
    let main = match a.view {
        AppView::Lobby | AppView::InQueue => spec_lobby(
            lobby_data(a),
            area,
            l.lobby_rows@,
            l.lobby_columns@,
            l.lobby_parts@,
        ),
        AppView::Game | AppView::GameOver => match a.game {
            Some(g) => spec_game_screen(game_screen_of(a, g@), area, sprites, l.columns@, l.side_rows@, l.footer@),
            None => Seq::empty(),
        },
    };
    main + (if a.promotion@.len() > 0 {
        promotion_popup(a.spec_promotion_area())
    } else {
        Seq::empty()
    }) + (if a.confirmation is Some {
        spec_confirmation(area, a.spec_confirmation_message(), a.confirm_selected, l.choices@)
    } else {
        Seq::empty()
    })
}

/// Where the text cursor stands: at the corner in the lobby, after the
/// typed move in a game (the side panel divided into `rows`), below the
/// middle on the final board.
pub open spec fn spec_cursor(a: App, area: Rect, rows: Seq<Rect>) -> (u16, u16) {
    match a.view {
        AppView::Lobby | AppView::InQueue => (area.x, area.y),
        AppView::Game => match a.game {
            Some(g) => spec_input_position(area, rows, utf8_len(a.input_buffer@)),
            None => (area.x, area.y),
        },
        AppView::GameOver => ((area.x + area.width / 2) as u16, (area.y + area.height / 2 + 3) as u16),
    }
}

/// On the game screen laid out as `l`, a click on any cell of the square in
/// row `r` and file `f` of the board's rectangle (`spec_board_area`, where
/// `spec_game_screen` draws the board) acts on the square shown there, in
/// both orientations, when it misses the buttons, no dialog or promotion
/// choice is open and the player may move.
pub proof fn lemma_click_acts_on_drawn_square(
    a: App,
    after: App,
    l: ScreenLayout,
    action: AppAction,
    r: int,
    f: int,
    x: u16,
    y: u16,
)
    requires
        a.view == AppView::Game,
        a.confirmation is None,
        a.promotion@.len() == 0,
        !((a.is_multiplayer || a.computer) && !a.spec_is_my_turn()),
        button_hit(a.area, l.footer@, x as int, y as int) == -1,
        spec_geometry(spec_board_area(a.area, l.columns@)) is Some,
        0 <= r < 8,
        0 <= f < 8,
        ({
            let g = spec_geometry(spec_board_area(a.area, l.columns@))->Some_0;
            &&& g.left + f * g.square_width <= x < g.left + (f + 1) * g.square_width
            &&& g.top + r * g.square_height <= y < g.top + (r + 1) * g.square_height
        }),
        input_done(a, after, InputEvent::Click(x, y), action, l),
    ensures
        square_click_done(a, after, square_on_screen(a.is_black_player, r, f), action),
{
    lemma_click_hits_drawn_square(
        spec_board_area(a.area, l.columns@),
        a.is_black_player,
        r,
        f,
        x as int,
        y as int,
    );
}

impl App {
    /// The lobby screen.
    fn render_lobby(&self, area: Rect, l: &ScreenLayout) -> (r: Vec<Widget>)
        requires
            area.fits(),
            l.shaped(area),
        ensures
            drawn(r@) == spec_lobby(lobby_data(*self), area, l.lobby_rows@, l.lobby_columns@, l.lobby_parts@),
    {
        let lobby = LobbyView {
            online_count: self.online_count,
            queue_size: self.queue_size,
            username: self.username.as_str(),
            searching: self.view == AppView::InQueue,
            selected: self.lobby_selection,
            help: self.lobby_help,
            computer_level: if self.computer_setup { Some(self.engine_level) } else { None },
            command: self.input_buffer.as_str(),
            status: match &self.status_message {
                Some(s) => Some(s.as_str()),
                None => None,
            },
        };
        proof {
            assert(lobby@ == lobby_data(*self));
        }
        lobby.render_in(area, l.lobby_rows.as_slice(), l.lobby_columns.as_slice(), l.lobby_parts.as_slice())
    }

    /// The status line of a game still going on.
    fn game_status(&self, game: &Game) -> (s: Option<String>)
        requires
            self.game_over_reason is None,
        ensures
            text_of(s) == shown_status(*self, game@),
    {
        match &self.status_message {
            Some(s) => return Some(s.clone()),
            None => {},
        }
        if game.is_check() {
            Some(String::from_str("Check!"))
        } else if game.is_checkmate() {
            let mut text = String::from_str("Checkmate! ");
            text.append(if game.turn() == Color::White { "Black wins!" } else { "White wins!" });
            Some(text)
        } else if game.is_stalemate() {
            Some(String::from_str("Stalemate! Draw."))
        } else {
            None
        }
    }

    /// The game view of a game, as this player sees it.
    fn view_of(&self, game: &Game) -> (v: GameView)
        ensures
            v@ == game_screen_of(*self, game@),
    {
        let (white, black) = if self.is_black_player {
            (self.opponent_name.clone(), self.username.clone())
        } else {
            (self.username.clone(), self.opponent_name.clone())
        };
        let history = game.move_history();
        let last = if history.len() > 0 {
            match history[history.len() - 1].from {
                Some(from) => Some((from, history[history.len() - 1].to)),
                None => None,
            }
        } else {
            None
        };
        proof {
            if history@.len() > 0 {
                assert(specs_of(history@).last() == history@[history@.len() - 1]@);
            }
            assert(last == last_squares(game@.moves));
        }
        let is_my_turn = self.is_my_turn();
        let mut view = GameView::new(game.fen().as_str(), game.san_history())
            .players(white, black)
            .selected(self.selected_square)
            .highlights(copy_squares(&self.highlight_origins), copy_squares(&self.highlight_destinations))
            .computer(self.computer)
            .perspective(self.is_black_player)
            .input(self.input_buffer.clone(), is_my_turn, self.is_multiplayer);
        match last {
            Some((from, to)) => {
                view = view.last_move(from, to);
            },
            None => {},
        }
        match &self.game_over_reason {
            Some(reason) => {
                let text = match reason {
                    GameOverReason::YouWin(r) => {
                        let mut t = String::from_str("YOU WIN - ");
                        t.append(r.as_str());
                        t
                    },
                    GameOverReason::YouLose(r) => {
                        let mut t = String::from_str("YOU LOSE - ");
                        t.append(r.as_str());
                        t
                    },
                    GameOverReason::Draw(r) => {
                        let mut t = String::from_str("DRAW - ");
                        t.append(r.as_str());
                        t
                    },
                };
                view = view.finished(text);
            },
            None => {
                match self.game_status(game) {
                    Some(status) => {
                        view = view.status(status);
                    },
                    None => {},
                }
            },
        }
        proof {
            assert(view@.sans =~= game@.sans);
        }
        view
    }

    /// The game screen.
    fn render_game(&self, area: Rect, sprites: Option<&SpriteCache>, l: &ScreenLayout) -> (r: Vec<Widget>)
        requires
            area_ok(area),
            sprites matches Some(c) ==> c.wf(),
            l.shaped(area),
        ensures
            drawn(r@) == match self.game {
                Some(g) => spec_game_screen(game_screen_of(*self, g@), area, sprites, l.columns@, l.side_rows@, l.footer@),
                None => Seq::<Drawn>::empty(),
            },
    {
        match &self.game {
            Some(game) => {
                let view = self.view_of(game);
                view.render_in(area, sprites, &l.columns, &l.side_rows, &l.footer)
            },
            None => {
                let v: Vec<Widget> = Vec::new();
                proof {
                    assert(drawn(v@) =~= Seq::<Drawn>::empty());
                }
                v
            },
        }
    }

    /// The promotion choice.
    fn render_promotion(&self) -> (r: Vec<Widget>)
        requires
            self.area.fits(),
        ensures
            drawn(r@) == promotion_popup(self.spec_promotion_area()),
    {
        let popup = self.promotion_area();
        let mut spans: Vec<Span> = Vec::new();
        add_line(&mut spans, "Q  Queen", plain());
        add_line(&mut spans, "R  Rook", plain());
        add_line(&mut spans, "B  Bishop", plain());
        add_line(&mut spans, "N  Knight", plain());
        add_line(&mut spans, "Esc  Cancel", plain());
        let mut out: Vec<Widget> = Vec::new();
        put(&mut out, Widget::Clear { area: popup });
        put(
            &mut out,
            Widget::Panel {
                area: popup,
                title: String::from_str(" Promote pawn "),
                rounded: false,
                border: plain(),
                style: plain(),
            },
        );
        proof {
            assert(spans_of(spans@) =~= seq![
                line("Q  Queen"@, plain()),
                line("R  Rook"@, plain()),
                line("B  Bishop"@, plain()),
                line("N  Knight"@, plain()),
                line("Esc  Cancel"@, plain()),
            ]);
        }
        put(
            &mut out,
            Widget::Text { area: popup.bordered_inner(), spans, style: plain(), centered: false, wrap: Wrap::Cut },
        );
        proof {
            assert(drawn(out@) =~= promotion_popup(self.spec_promotion_area()));
        }
        out
    }

    /// What the player's screen shows, in drawing order, the screen laid
    /// out as `l`.
    pub fn render_in(&self, area: Rect, sprites: Option<&SpriteCache>, l: &ScreenLayout) -> (r: Vec<Widget>)
        requires
            self.wf(),
            area_ok(area),
            sprites matches Some(c) ==> c.wf(),
            l.shaped(area),
        ensures
            drawn(r@) == spec_app_screen(*self, area, sprites, *l),
    {
        let mut out = match self.view {
            AppView::Lobby | AppView::InQueue => self.render_lobby(area, l),
            AppView::Game | AppView::GameOver => self.render_game(area, sprites, l),
        };
        if self.promotion.len() > 0 {
            let part = self.render_promotion();
            put_all(&mut out, part);
        }
        if self.confirmation.is_some() {
            let part = confirmation_in(area, self.confirmation_message(), self.confirm_selected, &l.choices);
            put_all(&mut out, part);
        }
        proof {
            assert(drawn(out@) =~= spec_app_screen(*self, area, sprites, *l));
        }
        out
    }

    /// What the player's screen shows, in drawing order, laid out by the
    /// layout solver.
    pub fn render(&self, area: Rect, sprites: Option<&SpriteCache>) -> (r: Vec<Widget>)
        requires
            self.wf(),
            area_ok(area),
            sprites matches Some(c) ==> c.wf(),
        ensures
            exists|l: ScreenLayout| l.shaped(area) && drawn(r@) == #[trigger] spec_app_screen(*self, area, sprites, l),
    {
        let l = ScreenLayout::of(area);
        let r = self.render_in(area, sprites, &l);
        proof {
            assert(l.shaped(area) && drawn(r@) == spec_app_screen(*self, area, sprites, l));
        }
        r
    }

    /// Where the text cursor stands, the side panel divided into `rows`.
    pub fn get_cursor_position_in(&self, area: Rect, rows: &[Rect]) -> (p: (u16, u16))
        requires
            area_ok(area),
            self.view == AppView::GameOver ==> area.y + area.height / 2 + 3 <= u16::MAX,
            rows@.len() == 7,
        ensures
            p == spec_cursor(*self, area, rows@),
    {
        match self.view {
            AppView::Lobby | AppView::InQueue => (area.x, area.y),
            AppView::Game => match &self.game {
                Some(game) => {
                    let view = GameView::new(game.fen().as_str(), game.san_history()).input(
                        self.input_buffer.clone(),
                        self.is_my_turn(),
                        self.is_multiplayer,
                    );
                    view.get_input_position_in(area, rows)
                },
                None => (area.x, area.y),
            },
            AppView::GameOver => (area.x + area.width / 2, area.y + area.height / 2 + 3),
        }
    }

    /// Where the text cursor stands, the screen laid out by the layout
    /// solver.
    pub fn get_cursor_position(&self, area: Rect) -> (p: (u16, u16))
        requires
            area_ok(area),
            self.view == AppView::GameOver ==> area.y + area.height / 2 + 3 <= u16::MAX,
        ensures
            exists|cols: Seq<Rect>, rows: Seq<Rect>|
                cols.len() == column_count(area) && columns_split(area, cols) && rows.len() == 7 && #[trigger] side_split(
                    area,
                    cols,
                    rows,
                ) && p == spec_cursor(*self, area, rows),
    {
        let cols = GameView::columns(area);
        let rows = GameView::side_cells(area, cols.as_slice());
        let p = self.get_cursor_position_in(area, rows.as_slice());
        proof {
            assert(cols@.len() == column_count(area) && columns_split(area, cols@) && rows@.len() == 7 && side_split(
                area,
                cols@,
                rows@,
            ) && p == spec_cursor(*self, area, rows@));
        }
        p
    }

    /// The cursor to show, if any: only on the game screen, while neither a
    /// promotion nor a confirmation is being chosen.
    pub fn cursor(&self, area: Rect) -> (p: Option<(u16, u16)>)
        requires
            area_ok(area),
        ensures
            (self.view == AppView::Game && self.confirmation is None && self.promotion@.len() == 0) == p is Some,
            p matches Some(c) ==> exists|cols: Seq<Rect>, rows: Seq<Rect>|
                cols.len() == column_count(area) && columns_split(area, cols) && rows.len() == 7 && #[trigger] side_split(
                    area,
                    cols,
                    rows,
                ) && c == spec_cursor(*self, area, rows),
    {
        if self.view == AppView::Game && self.confirmation.is_none() && self.promotion.len() == 0 {
            Some(self.get_cursor_position(area))
        } else {
            None
        }
    }
}

} // verus!
