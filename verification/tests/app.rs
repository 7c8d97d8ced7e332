use chessh::chess::game::Game;
use chessh::chess::types::Square;
use chessh::ui::app::{App, AppAction, AppView, GameOverReason};
use chessh::ui::board::BoardWidget;
use chessh::ui::controls::{button_areas, choices, GameControl};
use chessh::ui::draw::{Span, Style, Tint, Widget, Wrap};
use chessh::ui::game_view::GameView;
use chessh::ui::geometry::Rect;
use chessh::ui::lobby::LobbyView;
use chessh::ui::terminal::{InputEvent, KeyCode, KeyModifiers};

use ratatui::buffer::Buffer;
use ratatui::layout::{Alignment, Rect as Area};
use ratatui::style::{Color as Ink, Modifier, Style as Look};
use ratatui::text::{Line, Span as Piece};
use ratatui::widgets::{Block, BorderType, Borders, Clear, Paragraph, Widget as _, Wrap as Flow};

fn ink(t: Tint) -> Option<Ink> {
    match t {
        Tint::Inherit => None,
        Tint::Rgb(r, g, b) => Some(Ink::Rgb(r, g, b)),
        Tint::Gray => Some(Ink::Gray),
        Tint::DarkGray => Some(Ink::DarkGray),
        Tint::Red => Some(Ink::Red),
        Tint::Green => Some(Ink::Green),
        Tint::Yellow => Some(Ink::Yellow),
    }
}

fn look(s: Style) -> Look {
    let mut l = Look::default();
    if let Some(c) = ink(s.fg) {
        l = l.fg(c);
    }
    if let Some(c) = ink(s.bg) {
        l = l.bg(c);
    }
    if s.bold {
        l = l.add_modifier(Modifier::BOLD);
    }
    l
}

fn area(r: Rect) -> Area {
    Area::new(r.x, r.y, r.width, r.height)
}

fn lines(spans: &[Span]) -> Vec<Line<'static>> {
    let mut out: Vec<Line<'static>> = Vec::new();
    for s in spans {
        let piece = Piece::styled(s.text.clone(), look(s.style));
        if s.starts_line || out.is_empty() {
            out.push(Line::from(vec![piece]));
        } else {
            out.last_mut().unwrap().spans.push(piece);
        }
    }
    out
}

/// Draws a list of widgets into a terminal buffer.
fn paint(widgets: &[Widget], buf: &mut Buffer) {
    let clip = buf.area;
    for w in widgets {
        match w {
            Widget::Clear { area: a } => Clear.render(area(*a).intersection(clip), buf),
            Widget::Fill { area: a, style, clear } => {
                let a = area(*a).intersection(clip);
                if *clear {
                    for y in a.top()..a.bottom() {
                        for x in a.left()..a.right() {
                            buf[(x, y)].set_char(' ');
                        }
                    }
                }
                buf.set_style(a, look(*style));
            }
            Widget::Panel { area: a, title, rounded, border, style } => {
                let mut b = Block::default()
                    .borders(Borders::ALL)
                    .border_style(look(*border))
                    .title(title.as_str())
                    .style(look(*style));
                if *rounded {
                    b = b.border_type(BorderType::Rounded);
                }
                b.render(area(*a).intersection(clip), buf);
            }
            Widget::Text { area: a, spans, style, centered, wrap } => {
                let mut p = Paragraph::new(lines(spans)).style(look(*style));
                if *centered {
                    p = p.alignment(Alignment::Center);
                }
                p = match wrap {
                    Wrap::Cut => p,
                    Wrap::Keep => p.wrap(Flow { trim: false }),
                    Wrap::Trim => p.wrap(Flow { trim: true }),
                };
                p.render(area(*a).intersection(clip), buf);
            }
            Widget::Cell { x, y, symbol, style } => {
                if clip.contains((*x, *y).into()) {
                    buf[(*x, *y)].set_char(*symbol).set_style(look(*style));
                }
            }
            Widget::Blocks { x, y, rows } => {
                for (r, row) in rows.iter().enumerate() {
                    for (c, hb) in row.iter().enumerate() {
                        let (px, py) = (*x as usize + c, *y as usize + r);
                        if px < u16::MAX as usize && py < u16::MAX as usize && clip.contains((px as u16, py as u16).into()) {
                            let cell = &mut buf[(px as u16, py as u16)];
                            cell.set_char(hb.char);
                            if let Some(c) = ink(hb.fg) {
                                cell.set_fg(c);
                            }
                            if let Some(c) = ink(hb.bg) {
                                cell.set_bg(c);
                            }
                        }
                    }
                }
            }
        }
    }
}

fn render(app: &App, buf: &mut Buffer) {
    let a = buf.area;
    let widgets = app.render(Rect { x: a.x, y: a.y, width: a.width, height: a.height }, None);
    paint(&widgets, buf);
}

fn text(buf: &Buffer) -> String {
    buf.content.iter().map(|cell| cell.symbol()).collect()
}

fn key(app: &mut App, code: KeyCode) -> AppAction {
    app.handle_input(InputEvent::Key(code, KeyModifiers::NONE))
}

fn sq(name: &str) -> Square {
    Square::parse_str(name).unwrap()
}

#[test]
fn computer_level_selection_clamps_and_guards_engine_turn() {
    let mut app = App::new("player".into());
    key(&mut app, KeyCode::Char('3'));
    assert!(app.computer_setup);
    for _ in 0..30 {
        key(&mut app, KeyCode::Left);
    }
    assert_eq!(key(&mut app, KeyCode::Enter), AppAction::StartComputer(0));
    for _ in 0..30 {
        key(&mut app, KeyCode::Right);
    }
    assert_eq!(key(&mut app, KeyCode::Enter), AppAction::StartComputer(20));
    app.start_computer_game(20);
    app.game_mut().unwrap().play_uci("e2e4").unwrap();
    for c in "e5".chars() {
        key(&mut app, KeyCode::Char(c));
    }
    assert_eq!(key(&mut app, KeyCode::Enter), AppAction::NoAction);
    assert_eq!(app.game().unwrap().move_count(), 1);
    assert_eq!(key(&mut app, KeyCode::F(4)), AppAction::ReturnToLobby);
    app.return_to_lobby();
    assert!(!app.is_computer());
}

#[test]
fn computer_level_mouse_controls_match_rendered_rows() {
    let mut app = App::new("player".into());
    app.set_area(Rect::new(0, 0, 80, 24));
    key(&mut app, KeyCode::Char('3'));
    let inner = LobbyView::menu_inner(app.area);
    app.handle_input(InputEvent::Click(inner.right() - 1, inner.y + 4));
    assert_eq!(app.engine_level, 6);
    assert_eq!(app.handle_input(InputEvent::Click(inner.x + 2, inner.y + 6)), AppAction::StartComputer(6));
}

#[test]
fn lobby_keyboard_navigation_help_practice_and_queue() {
    let mut app = App::new("player".into());
    assert_eq!(key(&mut app, KeyCode::Enter), AppAction::JoinQueue);
    app.join_queue();
    assert_eq!(key(&mut app, KeyCode::Enter), AppAction::LeaveQueue);
    app.leave_queue();
    key(&mut app, KeyCode::Up);
    assert_eq!(app.lobby_selection, 4);
    key(&mut app, KeyCode::Tab);
    key(&mut app, KeyCode::Char('j'));
    key(&mut app, KeyCode::Char('l'));
    assert_eq!(app.view(), AppView::Game);
    assert!(!app.is_multiplayer());
    app.return_to_lobby();
    key(&mut app, KeyCode::Char('4'));
    assert!(app.lobby_help);
    key(&mut app, KeyCode::Char('1'));
    assert_eq!(app.view(), AppView::Lobby);
    key(&mut app, KeyCode::Char('h'));
    assert!(!app.lobby_help);
    key(&mut app, KeyCode::Char('k'));
    assert_eq!(app.lobby_selection, 2);
    for c in "/solo".chars() {
        key(&mut app, KeyCode::Char(c));
    }
    key(&mut app, KeyCode::Enter);
    assert_eq!(app.view(), AppView::Game);
}

#[test]
fn lobby_is_usable_at_common_sizes_and_safe_at_tiny_sizes() {
    let mut app = App::new("player".into());
    for (width, height) in [(100, 30), (80, 24), (44, 24), (40, 16)] {
        let mut buffer = Buffer::empty(Area::new(0, 0, width, height));
        render(&app, &mut buffer);
        let rendered = text(&buffer);
        for label in ["Play online", "Practice board", "Play computer", "How to play", "Disconnect", "Enter"] {
            assert!(rendered.contains(label), "{width}x{height}: missing {label}");
        }
    }
    for (width, height) in [(0, 0), (1, 1), (20, 8)] {
        for view in [AppView::Lobby, AppView::InQueue] {
            app.view = view;
            let mut buffer = Buffer::empty(Area::new(0, 0, width, height));
            render(&app, &mut buffer);
        }
    }
}

fn click_square(app: &mut App, square: Square) -> AppAction {
    let board = GameView::board_area(app.area);
    for y in board.y..board.bottom() {
        for x in board.x..board.right() {
            if BoardWidget::square_at(board, x, y, app.is_black_player) == Some(square) {
                return app.handle_input(InputEvent::Click(x, y));
            }
        }
    }
    panic!("square not rendered");
}

#[test]
fn mouse_selects_legal_moves_in_both_board_sizes_and_orientations() {
    for area in [Rect::new(0, 0, 100, 30), Rect::new(0, 0, 190, 50), Rect::new(0, 0, 44, 24)] {
        for flipped in [false, true] {
            let mut app = App::new("player".into());
            app.set_area(area);
            app.start_solo_game();
            app.is_black_player = flipped;
            assert_eq!(click_square(&mut app, sq("e2")), AppAction::NoAction);
            assert!(app.highlight_destinations.contains(&sq("e4")));
            assert_eq!(click_square(&mut app, sq("e4")), AppAction::SubmitMoveText("e2e4".into()));
            assert_eq!(app.handle_input(InputEvent::Click(0, 0)), AppAction::NoAction);
        }
    }
}

#[test]
fn mouse_supports_castling_promotion_and_turn_guards() {
    let mut app = App::new("player".into());
    app.set_area(Rect::new(0, 0, 100, 30));
    app.start_solo_game();
    app.update_game(Game::from_fen("4k3/8/8/8/8/8/8/4K2R w K - 0 1").unwrap());
    click_square(&mut app, sq("e1"));
    assert_eq!(click_square(&mut app, sq("g1")), AppAction::SubmitMoveText("e1g1".into()));
    app.update_game(Game::from_fen("7k/P7/8/8/8/8/8/7K w - - 0 1").unwrap());
    click_square(&mut app, sq("a7"));
    click_square(&mut app, sq("a8"));
    assert_eq!(app.promotion.len(), 4);
    let popup = app.promotion_area();
    assert_eq!(
        app.handle_input(InputEvent::Click(popup.x + 2, popup.y + 4)),
        AppAction::SubmitMoveText("a7a8n".into())
    );
    app.start_game("opponent".into(), true);
    click_square(&mut app, sq("e2"));
    assert!(app.selected_square.is_none());
    app.show_game_over(GameOverReason::Draw("test".into()));
    assert_eq!(click_square(&mut app, sq("e2")), AppAction::NoAction);
    assert_eq!(app.view(), AppView::GameOver);
}

#[test]
fn mouse_opens_menu_and_cancels_search_at_different_sizes() {
    for area in [Rect::new(0, 0, 100, 30), Rect::new(0, 0, 44, 24)] {
        let mut app = App::new("player".into());
        app.set_area(area);
        let inner = LobbyView::menu_inner(area);
        assert_eq!(app.handle_input(InputEvent::Click(inner.x + 2, inner.y + 2)), AppAction::JoinQueue);
        app.join_queue();
        assert_eq!(app.handle_input(InputEvent::Click(inner.x + 2, inner.bottom() - 1)), AppAction::LeaveQueue);
    }
}

#[test]
fn game_controls_require_confirmation_and_preserve_move_input() {
    let mut app = App::new("player".into());
    app.set_area(Rect::new(0, 0, 100, 30));
    app.start_game("opponent".into(), false);
    key(&mut app, KeyCode::Char('e'));
    key(&mut app, KeyCode::F(2));
    assert_eq!(app.confirmation, Some(GameControl::Resign));
    assert_eq!(key(&mut app, KeyCode::Enter), AppAction::NoAction);
    assert!(app.confirmation.is_none());
    assert_eq!(app.input_buffer, "e");
    key(&mut app, KeyCode::F(2));
    assert_eq!(key(&mut app, KeyCode::Char('y')), AppAction::Resign);
    for (number, expected) in [(3, AppAction::OfferDraw), (4, AppAction::ReturnToLobby), (5, AppAction::Quit)] {
        key(&mut app, KeyCode::F(number));
        assert!(!app.should_quit());
        assert_eq!(key(&mut app, KeyCode::Char('y')), expected);
    }
}

#[test]
fn clickable_controls_and_modal_work_in_wide_and_compact_layouts() {
    for area in [Rect::new(0, 0, 190, 50), Rect::new(0, 0, 44, 24)] {
        let mut app = App::new("player".into());
        app.set_area(area);
        app.start_game("opponent".into(), false);
        let button = button_areas(area)[0];
        assert_eq!(app.handle_input(InputEvent::Click(button.x + 1, button.y + 1)), AppAction::NoAction);
        let mut buffer = Buffer::empty(Area::new(area.x, area.y, area.width, area.height));
        render(&app, &mut buffer);
        assert!(text(&buffer).contains("Confirm action"));
        let cancel = choices(area)[0];
        app.handle_input(InputEvent::Click(cancel.x + 1, cancel.y + 1));
        assert!(app.confirmation.is_none());
        key(&mut app, KeyCode::F(2));
        let confirm = choices(area)[1];
        assert_eq!(app.handle_input(InputEvent::Click(confirm.x + 1, confirm.y + 1)), AppAction::Resign);
    }
}

#[test]
fn changed_game_state_invalidates_stale_draw_confirmations() {
    let mut app = App::new("player".into());
    app.start_game("opponent".into(), false);
    key(&mut app, KeyCode::F(3));
    app.receive_draw_offer();
    assert!(app.confirmation.is_none());
    key(&mut app, KeyCode::F(3));
    assert!(app.confirmation_message().starts_with("Accept"));
    app.update_game(Game::new());
    assert!(app.confirmation.is_none());
    key(&mut app, KeyCode::F(2));
    app.show_game_over(GameOverReason::Draw("Game over".into()));
    assert!(app.confirmation.is_none());
    app.start_solo_game();
    key(&mut app, KeyCode::F(3));
    assert!(app.confirmation.is_none());
}

fn mate(white_wins: bool) -> Game {
    let mut game = Game::new();
    let moves = if white_wins {
        vec!["e4", "e5", "Bc4", "Nc6", "Qh5", "Nf6", "Qxf7#"]
    } else {
        vec!["f3", "e5", "g4", "Qh4#"]
    };
    for mv in moves {
        game.play_san(mv).unwrap();
    }
    game
}

#[test]
fn winner_and_loser_are_correct_for_both_colors() {
    for white_wins in [false, true] {
        for is_black in [false, true] {
            let mut app = App::new("me".into());
            app.start_game("opponent".into(), is_black);
            app.update_game(mate(white_wins));
            app.finish_game("Checkmate".into());
            assert_eq!(matches!(app.game_over_reason, Some(GameOverReason::YouWin(_))), white_wins != is_black);
        }
    }
}

#[test]
fn final_board_stays_visible_and_unchanged_in_both_orientations() {
    for is_black in [false, true] {
        let mut app = App::new("me".into());
        app.start_game("opponent".into(), is_black);
        app.update_game(mate(false));
        let area = Area::new(0, 0, 100, 30);
        let mut before = Buffer::empty(area);
        render(&app, &mut before);
        app.finish_game("Checkmate".into());
        let mut after = Buffer::empty(area);
        render(&app, &mut after);
        // Full layout: help is 18 columns, side panel is 26. The board never moves.
        for y in 0..30 {
            for x in 18..74 {
                assert_eq!(before[(x, y)], after[(x, y)]);
            }
        }
        let rendered = text(&after);
        assert!(rendered.contains("Checkmate"));
        assert!(rendered.contains("Qh4#"));
        assert!(rendered.contains("ENTER: lobby"));
        assert!(!rendered.contains("/resign"));
        let fen = app.game().unwrap().fen();
        assert_eq!(app.handle_input(InputEvent::Key(KeyCode::Char('e'), KeyModifiers::NONE)), AppAction::NoAction);
        assert_eq!(app.game().unwrap().fen(), fen);
        assert_eq!(app.view(), AppView::GameOver);
        assert_eq!(app.handle_input(InputEvent::Key(KeyCode::Enter, KeyModifiers::NONE)), AppAction::ReturnToLobby);
        assert_eq!(app.view(), AppView::Lobby);
        assert!(app.game().is_none());
        app.start_game("next".into(), false);
        assert!(app.game_over_reason.is_none());
        assert_eq!(app.game().unwrap().move_count(), 0);
    }
}

#[test]
fn compact_terminal_shows_final_position_result_and_navigation() {
    let mut app = App::new("me".into());
    app.start_game("opponent".into(), false);
    app.update_game(mate(false));
    app.finish_game("Checkmate".into());
    let mut buffer = Buffer::empty(Area::new(0, 0, 44, 24));
    render(&app, &mut buffer);
    let rendered = text(&buffer);
    assert!(rendered.contains("YOU LOSE - Checkmate"));
    assert!(rendered.contains("ENTER: lobby | Q: quit"));
    assert!(rendered.contains('♚'));
    assert!(rendered.contains('♔'));
}

#[test]
fn unicode_input_does_not_panic_and_promoted_positions_render() {
    let mut app = App::new("me".into());
    app.start_solo_game();
    app.handle_input(InputEvent::Key(KeyCode::Char('💥'), KeyModifiers::NONE));
    app.update_game(Game::from_fen("Q6k/8/8/8/8/8/8/3Q3K b - - 0 1").unwrap());
    let mut buffer = Buffer::empty(Area::new(0, 0, 100, 30));
    render(&app, &mut buffer);
}

#[test]
fn side_panel_lists_moves_captures_and_the_player_to_move() {
    let mut app = App::new("me".into());
    app.start_game("opponent".into(), false);
    let mut game = Game::new();
    for mv in ["e4", "d5", "exd5"] {
        game.play_san(mv).unwrap();
    }
    app.update_game(game);
    let mut buffer = Buffer::empty(Area::new(0, 0, 100, 30));
    render(&app, &mut buffer);
    let rendered = text(&buffer);
    assert!(rendered.contains("1. e4 d5"));
    assert!(rendered.contains("2. exd5"));
    assert!(rendered.contains('♟'));
    assert!(rendered.contains("To move"));
    assert!(rendered.contains("opponent"));
}

#[test]
fn cursor_follows_the_typed_move_only_on_the_game_screen() {
    let mut app = App::new("me".into());
    let area = Rect::new(0, 0, 100, 30);
    app.set_area(area);
    assert_eq!(app.cursor(area), None);
    app.start_solo_game();
    let start = app.cursor(area).unwrap();
    key(&mut app, KeyCode::Char('e'));
    key(&mut app, KeyCode::Char('4'));
    let typed = app.cursor(area).unwrap();
    assert_eq!(typed, (start.0 + 2, start.1));
    key(&mut app, KeyCode::Backspace);
    key(&mut app, KeyCode::Backspace);
    key(&mut app, KeyCode::Char('é'));
    assert_eq!(app.cursor(area).unwrap(), (start.0 + 2, start.1));
}
