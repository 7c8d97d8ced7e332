use chessh::chess::game::{Game, GameResult};
use chessh::chess::types::{Color, Role, Square};
use chessh::engine::{
    classify_line, engine_line, engine_position, options_command, parse_bestmove, position_command, EngineAction,
    EngineStage, LineVerdict,
};
use chessh::server::matchmaking::Matchmaking;
use chessh::ssh::auth::{AuthHandler, AuthReply};
use chessh::ssh::session::{Session, SessionId};
use chessh::ui::output::{color_to_terminal, draw_commands, Attr, Attrs, CellColor, CellLook, TermColor, TermCommand};
use chessh::text::byte_len;
use chessh::ui::board::BoardWidget;
use chessh::ui::draw::Tint;
use chessh::ui::game_view::{captured_pieces, GameView};
use chessh::ui::geometry::Rect;
use chessh::ui::lobby::LobbyView;
use chessh::ui::sprites::{get_sprite, init_sprites, render_sprite_half_blocks, HalfBlockPixel, Sprite};
use chessh::ui::terminal::{parse_input, resize_message, InputDecoder, InputEvent, KeyCode, KeyModifiers};

fn key(code: KeyCode) -> InputEvent {
    InputEvent::Key(code, KeyModifiers::NONE)
}

#[test]
fn single_reads_decode_to_keys() {
    assert_eq!(parse_input(b"q"), key(KeyCode::Char('q')));
    assert_eq!(parse_input(b"\r"), key(KeyCode::Enter));
    assert_eq!(parse_input(&[0x1b]), key(KeyCode::Esc));
    assert_eq!(parse_input(&[0x7f]), key(KeyCode::Backspace));
    assert_eq!(parse_input(&[0x03]), InputEvent::Key(KeyCode::Char('c'), KeyModifiers::CONTROL));
    assert_eq!(parse_input(b"\x1b[A"), key(KeyCode::Up));
    assert_eq!(parse_input(b"\x1b[D"), key(KeyCode::Left));
    assert_eq!(parse_input(b"\x1b[3~"), key(KeyCode::Delete));
    assert_eq!(parse_input("é".as_bytes()), key(KeyCode::Char('é')));
    assert_eq!(parse_input(b""), InputEvent::Unknown);
}

#[test]
fn decoder_reads_mouse_resize_and_split_sequences() {
    let mut decoder = InputDecoder::new();
    assert_eq!(decoder.feed(b"\x1b[<0;11;6M"), vec![InputEvent::Click(10, 5)]);
    let mut bytes = resize_message(120, 40);
    bytes.extend_from_slice(b"ab");
    assert_eq!(
        decoder.feed(&bytes),
        vec![InputEvent::Resize(120, 40), key(KeyCode::Char('a')), key(KeyCode::Char('b'))]
    );
    let whole = InputDecoder::new().feed(b"x\x1b[Bq\x1bOP");
    let mut split_decoder = InputDecoder::new();
    let mut pieces = split_decoder.feed(b"x\x1b[");
    pieces.extend(split_decoder.feed(b"Bq\x1bO"));
    pieces.extend(split_decoder.feed(b"P"));
    assert_eq!(whole, pieces);
    assert_eq!(whole, vec![key(KeyCode::Char('x')), key(KeyCode::Down), key(KeyCode::Char('q')), key(KeyCode::F(1))]);
    let mut lone = InputDecoder::new();
    assert_eq!(lone.feed(&[0x1b]), vec![]);
    assert_eq!(lone.flush_escape(), Some(key(KeyCode::Esc)));
    assert_eq!(lone.flush_escape(), None);
}

#[test]
fn resize_message_holds_both_sizes_high_byte_first() {
    assert_eq!(resize_message(300, 2), vec![0xFF, 0xFE, 1, 44, 0, 2]);
}

#[test]
fn engine_commands_and_replies() {
    assert_eq!(
        options_command(7),
        "setoption name Threads value 1\nsetoption name Hash value 16\nsetoption name UCI_LimitStrength value false\nsetoption name Skill Level value 7\n"
    );
    assert!(options_command(30).ends_with("Skill Level value 20\n"));
    let mut game = Game::new();
    game.play_uci("e2e4").unwrap();
    game.play_uci("e7e5").unwrap();
    assert_eq!(position_command(&game), "position startpos moves e2e4 e7e5\ngo movetime 1000\n");
    assert_eq!(parse_bestmove("bestmove e7e5 ponder g1f3"), Ok("e7e5".to_string()));
    assert_eq!(parse_bestmove("bestmove"), Err("Missing bestmove".to_string()));
    assert_eq!(classify_line("bestmove e7e5", "bestmove"), LineVerdict::Answer);
    assert_eq!(classify_line("uciok", "uciok"), LineVerdict::Answer);
    assert_eq!(classify_line("info string error incorrect protocol", "bestmove"), LineVerdict::Error);
    assert_eq!(classify_line("info depth 1 score cp 0", "bestmove"), LineVerdict::Other);
}

#[test]
fn matchmaking_pairs_in_arrival_order_without_duplicates() {
    let mut queue = Matchmaking::new();
    let ids: Vec<SessionId> = (1..=3).map(SessionId).collect();
    for id in &ids {
        queue.add_to_queue(*id);
    }
    queue.add_to_queue(ids[0]);
    assert_eq!(queue.queue_size(), 3);
    assert_eq!(queue.queue_position(ids[2]), Some(2));
    queue.remove_from_queue(ids[1]);
    assert_eq!(queue.queue_position(ids[2]), Some(1));
    assert_eq!(queue.try_match(), Some((ids[0], ids[2])));
    assert_eq!(queue.try_match(), None);
    assert_eq!(queue.queue_size(), 0);
}

#[test]
fn games_follow_the_rules_and_report_errors() {
    let mut game = Game::new();
    assert!(game.play_san("e5").is_err());
    assert!(game.play_uci("e2e5").is_err());
    assert_eq!(game.move_count(), 0);
    game.play_san("e4").unwrap();
    game.play_uci("e7e5").unwrap();
    assert_eq!(game.san_history(), ["e4", "e5"]);
    assert_eq!(game.turn(), Color::White);
    assert!(Game::from_fen("not a position").is_err());
    game.resign(Color::White);
    assert_eq!(game.result(), GameResult::WhiteResigned);
    assert!(game.play_san("Nf3").is_err());
}

#[test]
fn captured_pieces_count_what_left_the_board() {
    let game = Game::from_fen("4k3/8/8/8/8/8/8/4K3 w - - 0 1").unwrap();
    let gone = captured_pieces(&game.fen(), Color::Black);
    assert_eq!(gone.len(), 15);
    assert_eq!(gone.iter().filter(|r| **r == Role::Pawn).count(), 8);
    assert_eq!(gone[14], Role::Queen);
    assert!(captured_pieces(&Game::new().fen(), Color::White).is_empty());
}

#[test]
fn board_geometry_and_clicked_squares_agree_in_both_orientations() {
    let area = Rect::new(0, 0, 100, 30);
    let board = GameView::board_area(area);
    let g = BoardWidget::geometry(board).unwrap();
    assert!(!g.sprites);
    assert_eq!((g.square_width, g.square_height), (4, 2));
    assert_eq!(BoardWidget::square_at(board, g.left, g.top, false), Square::parse_str("a8"));
    assert_eq!(BoardWidget::square_at(board, g.left, g.top, true), Square::parse_str("h1"));
    assert_eq!(BoardWidget::square_at(board, g.left + 4 * 8, g.top, false), None);
    let big = BoardWidget::geometry(Rect::new(0, 0, 100, 45)).unwrap();
    assert!(big.sprites);
    assert_eq!((big.square_width, big.square_height), (10, 5));
}

#[test]
fn layout_split_divides_the_columns_of_the_game_screen() {
    let parts = GameView::columns(Rect::new(0, 0, 100, 30));
    assert_eq!(parts, vec![Rect::new(0, 0, 18, 30), Rect::new(18, 0, 56, 30), Rect::new(74, 0, 26, 30)]);
}

#[test]
fn lobby_menu_entries_answer_clicks_on_their_rows() {
    let area = Rect::new(0, 0, 100, 30);
    let inner = LobbyView::menu_inner(area);
    assert_eq!(LobbyView::option_at(area, inner.x + 1, inner.y + 2), Some(0));
    assert_eq!(LobbyView::option_at(area, inner.x + 1, inner.y + 3), Some(0));
    assert_eq!(LobbyView::option_at(area, inner.x + 1, inner.y + 4), None);
    assert_eq!(LobbyView::option_at(area, inner.x + 1, inner.y + 14), Some(4));
    assert_eq!(LobbyView::option_at(area, inner.x + 1, inner.y + 1), None);
    let tiny = Rect::new(0, 0, 40, 16);
    let small = LobbyView::menu_inner(tiny);
    assert_eq!(LobbyView::option_at(tiny, small.x + 1, small.y + 6), Some(4));
}

fn sheet() -> Vec<u8> {
    let mut img = image::RgbImage::new(60, 40);
    img.put_pixel(2, 31, image::Rgb([10, 20, 30]));
    img.put_pixel(13, 0, image::Rgb([200, 0, 0]));
    let mut bytes = std::io::Cursor::new(Vec::new());
    img.write_to(&mut bytes, image::ImageFormat::Png).unwrap();
    bytes.into_inner()
}

#[test]
fn sprite_sheet_is_cut_into_pieces() {
    assert!(init_sprites(b"not a picture").is_none());
    let cache = init_sprites(&sheet()).unwrap();
    let pawn = get_sprite(Some(&cache), Color::White, Role::Pawn).unwrap();
    assert_eq!((pawn.width, pawn.height), (10, 10));
    assert_eq!(pawn.pixel(2, 1), (10, 20, 30));
    assert_eq!(pawn.pixel(0, 0), (0, 0, 0));
    let knight = get_sprite(Some(&cache), Color::Black, Role::Knight).unwrap();
    assert_eq!(knight.pixel(3, 0), (0, 0, 0));
    assert!(get_sprite(None, Color::White, Role::King).is_none());
    let mut small = image::RgbImage::new(10, 10);
    small.put_pixel(0, 0, image::Rgb([1, 1, 1]));
    let mut bytes = std::io::Cursor::new(Vec::new());
    small.write_to(&mut bytes, image::ImageFormat::Png).unwrap();
    assert!(init_sprites(&bytes.into_inner()).is_none());
}

#[test]
fn half_blocks_pair_pixel_rows() {
    let mut sprite = Sprite::new(2, 3);
    sprite.pixels[0] = (100, 0, 0);
    sprite.pixels[2] = (110, 5, 0);
    sprite.pixels[3] = (0, 0, 90);
    sprite.pixels[4] = (7, 7, 7);
    let bg = Tint::Rgb(1, 2, 3);
    let rows = render_sprite_half_blocks(&sprite, bg);
    assert_eq!(
        rows,
        vec![
            vec![
                HalfBlockPixel { char: '█', fg: Tint::Rgb(100, 0, 0), bg },
                HalfBlockPixel { char: '▄', fg: Tint::Rgb(0, 0, 90), bg },
            ],
            vec![
                HalfBlockPixel { char: '▀', fg: Tint::Rgb(7, 7, 7), bg },
                HalfBlockPixel { char: ' ', fg: bg, bg },
            ],
        ]
    );
    sprite.pixels[2] = (0, 200, 0);
    let rows = render_sprite_half_blocks(&sprite, bg);
    assert_eq!(rows[0][0], HalfBlockPixel { char: '▀', fg: Tint::Rgb(100, 0, 0), bg: Tint::Rgb(0, 200, 0) });
}

#[test]
fn sessions_are_named_by_number_and_every_login_is_accepted() {
    assert_eq!(SessionId(7).to_text(), "session-7");
    assert_eq!(AuthHandler::auth_password("alice", "secret"), AuthReply::Accept);
    assert_eq!(AuthHandler::auth_none(), AuthReply::Accept);
}

fn look(x: u16, y: u16, fg: CellColor, bold: bool) -> CellLook {
    CellLook {
        x,
        y,
        fg,
        bg: CellColor::Reset,
        attrs: Attrs { bold, dim: false, underlined: false, reversed: false },
    }
}

#[test]
fn terminal_output_moves_only_when_cells_are_not_adjacent() {
    let cells = [
        look(3, 1, CellColor::Reset, false),
        look(4, 1, CellColor::Red, true),
        look(0, 2, CellColor::Red, false),
    ];
    assert_eq!(
        draw_commands(&cells),
        vec![
            TermCommand::MoveTo(3, 1),
            TermCommand::Symbol(0),
            TermCommand::Foreground(TermColor::DarkRed),
            TermCommand::Attribute(Attr::Bold),
            TermCommand::Symbol(1),
            TermCommand::MoveTo(0, 2),
            TermCommand::Attribute(Attr::NormalIntensity),
            TermCommand::Symbol(2),
            TermCommand::Foreground(TermColor::Reset),
            TermCommand::Background(TermColor::Reset),
            TermCommand::Attribute(Attr::Reset),
        ]
    );
    assert_eq!(draw_commands(&[]).len(), 3);
    assert_eq!(color_to_terminal(CellColor::LightRed), TermColor::Red);
    assert_eq!(color_to_terminal(CellColor::Gray), TermColor::Grey);
    assert_eq!(color_to_terminal(CellColor::Indexed(9)), TermColor::AnsiValue(9));
}

#[test]
fn new_sessions_start_with_a_classic_terminal() {
    let mut session = Session::new();
    assert_eq!((session.terminal_size.width, session.terminal_size.height), (80, 24));
    assert!(session.username.is_none());
    session.set_terminal_size(120, 40);
    assert_eq!((session.terminal_size.width, session.terminal_size.height), (120, 40));
    assert!(session.events.is_empty());
}

#[test]
fn texts_are_measured_in_utf8_bytes() {
    assert_eq!(byte_len(""), 0);
    assert_eq!(byte_len("aé💥€"), 1 + 2 + 4 + 3);
}

#[test]
fn uci_texts_are_measured_in_bytes() {
    let mut game = Game::new();
    assert_eq!(game.play_uci("éé"), Err("Invalid from square".to_string()));
    assert_eq!(game.play_uci("e2é"), Err("Invalid to square".to_string()));
    assert_eq!(game.play_uci("e2e"), Err("Invalid UCI notation".to_string()));
    assert_eq!(game.play_uci(" e2e4 "), Ok(()));
}

#[test]
fn the_engine_dialogue_greets_prepares_and_answers_moves() {
    let (stage, action) = engine_line(EngineStage::Greeting, "id name Zander", 5, None);
    assert_eq!(stage, EngineStage::Greeting);
    assert!(matches!(action, EngineAction::Wait));
    let (stage, action) = engine_line(stage, "uciok", 5, Some("net.bin"));
    assert_eq!(stage, EngineStage::Preparing);
    match action {
        EngineAction::Send(text) => {
            assert!(text.starts_with(&options_command(5)));
            assert!(text.ends_with("setoption name EvalFile value net.bin\nucinewgame\nisready\n"));
        },
        _ => panic!("the setup is sent"),
    }
    let (stage, action) = engine_line(stage, "readyok", 5, None);
    assert_eq!(stage, EngineStage::Idle);
    assert!(matches!(action, EngineAction::Ready));
    let game = Game::new();
    let (stage, action) = engine_position(stage, &game);
    assert_eq!(stage, EngineStage::Thinking);
    assert!(matches!(action, EngineAction::Send(t) if t == position_command(&game)));
    let (stage, action) = engine_line(stage, "bestmove e7e5 ponder g1f3", 5, None);
    assert_eq!(stage, EngineStage::Idle);
    assert!(matches!(action, EngineAction::Move(m) if m == "e7e5"));
    let (stage, action) = engine_line(EngineStage::Thinking, "info string error no network", 5, None);
    assert_eq!(stage, EngineStage::Failed);
    assert!(matches!(action, EngineAction::Fail(e) if e == "info string error no network"));
    let (stage, _) = engine_line(EngineStage::Greeting, "uciok", 5, Some("bad\npath"));
    assert_eq!(stage, EngineStage::Failed);
}
