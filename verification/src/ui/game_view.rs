//! The game screen: what it shows and where its parts lie.
use vstd::prelude::*;

use super::app::area_ok;
use super::board::{piece_symbol, spec_board, BoardView, BoardWidget};
use super::controls::{button_areas_in, buttons_fit, footer_cells, footer_split, spec_button_areas, GameControl};
use super::draw::{
    accent, add_line, add_span, add_text_box, background, bold, border_tint, count_text, drawn, fg, line, muted, one_line, panel_of,
    plain, put, put_all, spans_of, text_box, text_in, text_tint, Drawn, Span, SpanView, Style, Tint, Widget, Wrap,
};
use super::geometry::{clip, min_int, sat_add16, sat_sub, split, split_facts, Constraint, Rect};
use super::sprites::SpriteCache;
use crate::chess::game::texts_of;
use crate::chess::rules::{piece_at, piece_from_letter, position_facts, spec_facts, spec_piece_at};
use crate::chess::types::{Color, Role, Square};
use crate::text::{byte_len, chars_of, chars_starts_with, contains_text, decimal, has_part, string_of, utf8_len};

verus! {

/// Everything the game screen shows.
pub struct GameView {
    pub fen: String,
    pub san_history: Vec<String>,
    pub white_name: String,
    pub black_name: String,
    pub status_message: Option<String>,
    pub selected_square: Option<Square>,
    pub last_move: Option<(Square, Square)>,
    pub is_black_perspective: bool,
    pub highlight_origins: Vec<Square>,
    pub highlight_destinations: Vec<Square>,
    pub input_buffer: String,
    pub is_my_turn: bool,
    pub is_multiplayer: bool,
    pub computer: bool,
    pub finished: Option<String>,
}

/// What a game view shows.
pub struct GameScreen {
    pub fen: Seq<char>,
    pub sans: Seq<Seq<char>>,
    pub white_name: Seq<char>,
    pub black_name: Seq<char>,
    pub status_message: Option<Seq<char>>,
    pub selected_square: Option<Square>,
    pub last_move: Option<(Square, Square)>,
    pub is_black_perspective: bool,
    pub highlight_origins: Seq<Square>,
    pub highlight_destinations: Seq<Square>,
    pub input_buffer: Seq<char>,
    pub is_my_turn: bool,
    pub is_multiplayer: bool,
    pub computer: bool,
    pub finished: Option<Seq<char>>,
}

pub open spec fn opt_text(o: Option<String>) -> Option<Seq<char>> {
    match o {
        Some(s) => Some(s@),
        None => None,
    }
}

impl View for GameView {
    type V = GameScreen;

    open spec fn view(&self) -> GameScreen {
        GameScreen {
            fen: self.fen@,
            sans: texts_of(self.san_history@),
            white_name: self.white_name@,
            black_name: self.black_name@,
            status_message: opt_text(self.status_message),
            selected_square: self.selected_square,
            last_move: self.last_move,
            is_black_perspective: self.is_black_perspective,
            highlight_origins: self.highlight_origins@,
            highlight_destinations: self.highlight_destinations@,
            input_buffer: self.input_buffer@,
            is_my_turn: self.is_my_turn,
            is_multiplayer: self.is_multiplayer,
            computer: self.computer,
            finished: opt_text(self.finished),
        }
    }
}

/// Which side parts fit beside the board: the help column needs all three
/// widths, the side panel the board's and its own.
pub open spec fn spec_layout_widths(total: int, help: u16, side: u16, min_board: u16) -> (bool, bool, u16, u16) {
    if total >= help + min_board + side {
        (true, true, help, side)
    } else if total >= min_board + side {
        (false, true, 0, side)
    } else {
        (false, false, 0, 0)
    }
}

/// The part of the screen for the game itself: a narrow screen keeps its
/// three bottom rows for the buttons.
pub open spec fn spec_content_area(area: Rect) -> Rect {
    if area.width < 78 {
        Rect::spec_new(area.x, area.y, area.width, sat_sub(area.height as int, 3) as u16)
    } else {
        area
    }
}

/// The columns of the game screen: help, board and side panel, as they fit.
pub open spec fn column_constraints(help: bool, side: bool) -> Seq<Constraint> {
    (if help { seq![Constraint::Length(18)] } else { Seq::empty() }) + seq![Constraint::Min(34)] + (if side {
        seq![Constraint::Length(26)]
    } else {
        Seq::empty()
    })
}

/// Whether the game screen has room for the help column (left of the
/// board) and for the side panel (right of it).
pub open spec fn spec_game_columns(area: Rect) -> (bool, bool) {
    let a = spec_content_area(area);
    let (help, side, _, _) = spec_layout_widths(a.width as int, 18, 26, 34);
    (help, side)
}

/// How many columns the game screen is divided into.
pub open spec fn column_count(area: Rect) -> int {
    let (help, side) = spec_game_columns(area);
    column_constraints(help, side).len() as int
}

/// The rows of the side panel: the top player (3), their captures (2),
/// the moves (at least 5), the bottom player's captures (2), the bottom
/// player (3), the status (3) and the input (3).
pub open spec fn side_row_constraints() -> Seq<Constraint> {
    seq![
        Constraint::Length(3),
        Constraint::Length(2),
        Constraint::Min(5),
        Constraint::Length(2),
        Constraint::Length(3),
        Constraint::Length(3),
        Constraint::Length(3),
    ]
}

/// `cols` is a division the layout solver can give of the game's part of
/// the screen into its columns.
pub open spec fn columns_split(area: Rect, cols: Seq<Rect>) -> bool {
    let (help, side) = spec_game_columns(area);
    split_facts(clip(spec_content_area(area)), true, column_constraints(help, side), cols)
}

/// `rows` is a division the layout solver can give of the side panel (the
/// screen divided into `cols`) into its rows.
pub open spec fn side_split(area: Rect, cols: Seq<Rect>, rows: Seq<Rect>) -> bool {
    split_facts(clip(side_panel_area(area, cols)), false, side_row_constraints(), rows)
}

/// Where the board is drawn: the column after the help column, if there is
/// one, of the columns `cols` the game screen is divided into.
pub open spec fn spec_board_area(area: Rect, cols: Seq<Rect>) -> Rect {
    let (help, _) = spec_game_columns(area);
    cols[if help { 1int } else { 0int }]
}

/// The area the side panel's rows divide: the column of the side panel
/// when there is one, else the part of the screen for the game.
pub open spec fn side_panel_area(area: Rect, cols: Seq<Rect>) -> Rect {
    let (help, side) = spec_game_columns(area);
    if side {
        cols[if help { 2int } else { 1int }]
    } else {
        spec_content_area(area)
    }
}

/// Where the text cursor stands: after the typed text in the move box (the
/// last of the side panel's `rows`, never past its frame), or on the last
/// row of a screen without a side panel.
pub open spec fn spec_input_position(area: Rect, rows: Seq<Rect>, typed: nat) -> (u16, u16) {
    let a = spec_content_area(area);
    let (_, side) = spec_game_columns(area);
    if !side {
        (sat_add16(a.x as int, 1) as u16, sat_add16(a.y as int, sat_sub(a.height as int, 1)) as u16)
    } else {
        let input = rows[6];
        (min_int(min_int(input.x + 3 + typed, u16::MAX as int), sat_sub(input.spec_right(), 2)) as u16, sat_add16(input.y as int, 1) as u16)
    }
}

fn column_list(help: bool, side: bool) -> (v: Vec<Constraint>)
    ensures
        v@ == column_constraints(help, side),
{
    let mut v: Vec<Constraint> = Vec::new();
    if help {
        v.push(Constraint::Length(18));
    }
    v.push(Constraint::Min(34));
    if side {
        v.push(Constraint::Length(26));
    }
    proof {
        assert(v@ =~= column_constraints(help, side));
    }
    v
}

impl GameView {
    /// A view of a position with its moves, seen from White's side.
    pub fn new(fen: &str, san_history: &[String]) -> (v: GameView)
        ensures
            v.fen@ == fen@,
            texts_of(v.san_history@) == texts_of(san_history@),
            v.white_name@ == "White"@,
            v.black_name@ == "Black"@,
            v.status_message is None,
            v.selected_square is None,
            v.last_move is None,
            !v.is_black_perspective,
            v.highlight_origins@.len() == 0,
            v.highlight_destinations@.len() == 0,
            v.input_buffer@.len() == 0,
            v.is_my_turn,
            !v.is_multiplayer,
            !v.computer,
            v.finished is None,
    {
        GameView {
            fen: String::from_str(fen),
            san_history: copy_strings(san_history),
            white_name: String::from_str("White"),
            black_name: String::from_str("Black"),
            status_message: None,
            selected_square: None,
            last_move: None,
            is_black_perspective: false,
            highlight_origins: Vec::new(),
            highlight_destinations: Vec::new(),
            input_buffer: String::new(),
            is_my_turn: true,
            is_multiplayer: false,
            computer: false,
            finished: None,
        }
    }

    /// Which parts fit beside the board in an area of `total` columns.
    pub fn compute_layout_widths(area: Rect, help_width: u16, side_width: u16, min_board_width: u16) -> (r: (
        bool,
        bool,
        u16,
        u16,
    ))
        requires
            help_width + min_board_width + side_width <= u16::MAX,
        ensures
            r == spec_layout_widths(area.width as int, help_width, side_width, min_board_width),
    {
        let total = area.width;
        if total >= help_width + min_board_width + side_width {
            (true, true, help_width, side_width)
        } else if total >= min_board_width + side_width {
            (false, true, 0, side_width)
        } else {
            (false, false, 0, 0)
        }
    }

    /// The part of the screen for the game itself.
    pub fn content_area(area: Rect) -> (r: Rect)
        ensures
            r == spec_content_area(area),
    {
        if area.width < 78 {
            Rect::new(area.x, area.y, area.width, area.height.saturating_sub(3))
        } else {
            area
        }
    }

    /// The columns of the game screen (help, board and side panel, as they
    /// fit), as the layout solver divides the screen.
    pub fn columns(area: Rect) -> (r: Vec<Rect>)
        ensures
            r@.len() == column_count(area),
            columns_split(area, r@),
    {
        let a = Self::content_area(area);
        let (help, side, _, _) = Self::compute_layout_widths(a, 18, 26, 34);
        split(a, true, column_list(help, side).as_slice())
    }

    /// The rows of the side panel (the top player, their captures, the moves,
    /// the bottom player's captures, the bottom player, the status and the
    /// input), as the layout solver
    /// divides the side panel's column (or, without one, the game's part
    /// of the screen), the screen divided into the columns `cols`.
    pub fn side_cells(area: Rect, cols: &[Rect]) -> (r: Vec<Rect>)
        requires
            cols@.len() == column_count(area),
        ensures
            r@.len() == 7,
            side_split(area, cols@, r@),
    {
        let a = Self::content_area(area);
        let (help, side, _, _) = Self::compute_layout_widths(a, 18, 26, 34);
        let panel = if side {
            cols[if help { 2 } else { 1 }]
        } else {
            a
        };
        let rows = [
            Constraint::Length(3),
            Constraint::Length(2),
            Constraint::Min(5),
            Constraint::Length(2),
            Constraint::Length(3),
            Constraint::Length(3),
            Constraint::Length(3),
        ];
        proof {
            assert(rows@ =~= side_row_constraints());
        }
        split(panel, false, &rows)
    }

    /// Where the board is drawn, the screen divided into the columns `cols`.
    pub fn board_area_in(area: Rect, cols: &[Rect]) -> (r: Rect)
        requires
            cols@.len() == column_count(area),
        ensures
            r == spec_board_area(area, cols@),
    {
        let a = Self::content_area(area);
        let (help, _, _, _) = Self::compute_layout_widths(a, 18, 26, 34);
        cols[if help { 1 } else { 0 }]
    }

    /// Where the board is drawn, the screen laid out by the layout solver.
    pub fn board_area(area: Rect) -> (r: Rect)
        ensures
            exists|cols: Seq<Rect>|
                cols.len() == column_count(area) && columns_split(area, cols) && r == #[trigger] spec_board_area(area, cols),
    {
        let cols = Self::columns(area);
        let r = Self::board_area_in(area, cols.as_slice());
        proof {
            assert(cols@.len() == column_count(area) && columns_split(area, cols@) && r == spec_board_area(area, cols@));
        }
        r
    }

    /// Where the text cursor stands on the game screen, the side panel
    /// divided into `rows`.
    pub fn get_input_position_in(&self, area: Rect, rows: &[Rect]) -> (p: (u16, u16))
        requires
            rows@.len() == 7,
        ensures
            p == spec_input_position(area, rows@, utf8_len(self.input_buffer@)),
    {
        let a = Self::content_area(area);
        let (_, side, _, _) = Self::compute_layout_widths(a, 18, 26, 34);
        if !side {
            return (a.x.saturating_add(1), a.y.saturating_add(a.height.saturating_sub(1)));
        }
        let input = rows[6];
        let typed = byte_len(self.input_buffer.as_str());
        let room: usize = if input.x <= 65532 { (65532 - input.x) as usize } else { 0 };
        let capped: u16 = if input.x <= 65532 && typed <= room {
            input.x + 3 + typed as u16
        } else {
            65535
        };
        let limit = input.right().saturating_sub(2);
        (if capped <= limit { capped } else { limit }, input.y.saturating_add(1))
    }

    /// Where the text cursor stands on the game screen, the screen laid out
    /// by the layout solver.
    pub fn get_input_position(&self, area: Rect) -> (p: (u16, u16))
        ensures
            exists|cols: Seq<Rect>, rows: Seq<Rect>|
                cols.len() == column_count(area) && columns_split(area, cols) && rows.len() == 7 && #[trigger] side_split(
                    area,
                    cols,
                    rows,
                ) && p == spec_input_position(area, rows, utf8_len(self.input_buffer@)),
    {
        let cols = Self::columns(area);
        let rows = Self::side_cells(area, cols.as_slice());
        let p = self.get_input_position_in(area, rows.as_slice());
        proof {
            assert(cols@.len() == column_count(area) && columns_split(area, cols@) && rows@.len() == 7 && side_split(
                area,
                cols@,
                rows@,
            ) && p == spec_input_position(area, rows@, utf8_len(self.input_buffer@)));
        }
        p
    }
}

/// A copy of a list of texts.
pub fn copy_strings(v: &[String]) -> (r: Vec<String>)
    ensures
        texts_of(r@) == texts_of(v@),
{
    let mut r: Vec<String> = Vec::new();
    let mut i: usize = 0;
    while i < v.len()
        invariant
            i <= v@.len(),
            r@.len() == i,
            forall|k: int| 0 <= k < i ==> (#[trigger] r@[k])@ == v@[k]@,
        decreases v@.len() - i,
    {
        r.push(v[i].clone());
        i = i + 1;
    }
    proof {
        assert(texts_of(r@) =~= texts_of(v@));
    }
    r
}


/// The side to move in the position a FEN describes (White when it
/// describes none).
pub open spec fn fen_turn(fen: Seq<char>) -> Color {
    match spec_facts(fen) {
        Some(f) => if f.white_to_move {
            Color::White
        } else {
            Color::Black
        },
        None => Color::White,
    }
}

/// How many pieces of a colour and kind stand on the first `k` squares.
pub open spec fn count_on(fen: Seq<char>, color: Color, role: Role, k: nat) -> nat
    decreases k,
{
    if k == 0 {
        0
    } else {
        count_on(fen, color, role, (k - 1) as nat) + if piece_from_letter(spec_piece_at(fen, Square((k - 1) as u8)))
            == Some((color, role)) {
            1nat
        } else {
            0nat
        }
    }
}

/// One piece kind as often as it is missing from its starting number.
pub open spec fn missing(fen: Seq<char>, color: Color, role: Role, start: nat) -> Seq<Role> {
    Seq::new(sat_sub(start as int, count_on(fen, color, role, 64) as int) as nat, |i: int| role)
}

/// The pieces of a colour that are no longer on the board, by kind: pawns,
/// knights, bishops, rooks, queen.
pub open spec fn spec_captured(fen: Seq<char>, color: Color) -> Seq<Role> {
    missing(fen, color, Role::Pawn, 8) + missing(fen, color, Role::Knight, 2) + missing(fen, color, Role::Bishop, 2)
        + missing(fen, color, Role::Rook, 2) + missing(fen, color, Role::Queen, 1)
}

/// How many pieces of a kind a side starts with.
pub open spec fn start_count(role: Role) -> nat {
    match role {
        Role::Pawn => 8,
        Role::Knight => 2,
        Role::Bishop => 2,
        Role::Rook => 2,
        Role::Queen => 1,
        Role::King => 1,
    }
}

/// How often a kind occurs in a list.
pub open spec fn occurrences(s: Seq<Role>, role: Role) -> nat
    decreases s.len(),
{
    if s.len() == 0 {
        0
    } else {
        occurrences(s.drop_last(), role) + if s.last() == role {
            1nat
        } else {
            0nat
        }
    }
}

proof fn lemma_occurrences_concat(a: Seq<Role>, b: Seq<Role>, role: Role)
    ensures
        occurrences(a + b, role) == occurrences(a, role) + occurrences(b, role),
    decreases b.len(),
{
    if b.len() > 0 {
        assert((a + b).drop_last() =~= a + b.drop_last());
        lemma_occurrences_concat(a, b.drop_last(), role);
    } else {
        assert(a + b =~= a);
    }
}

proof fn lemma_occurrences_repeat(n: nat, r: Role, role: Role)
    ensures
        occurrences(Seq::new(n, |i: int| r), role) == if r == role {
            n
        } else {
            0
        },
    decreases n,
{
    if n > 0 {
        assert(Seq::new(n, |i: int| r).drop_last() =~= Seq::new((n - 1) as nat, |i: int| r));
        lemma_occurrences_repeat((n - 1) as nat, r, role);
    }
}

/// The captured list of a side holds each kind of piece as often as the
/// side has lost it: its starting number less (down to none) those of its
/// pieces of that kind still on the board; it never holds a king.
pub proof fn lemma_captured_counts(fen: Seq<char>, color: Color, role: Role)
    ensures
        occurrences(spec_captured(fen, color), role) == if role == Role::King {
            0
        } else {
            sat_sub(start_count(role) as int, count_on(fen, color, role, 64) as int) as nat
        },
{
    let p = missing(fen, color, Role::Pawn, 8);
    let n = missing(fen, color, Role::Knight, 2);
    let b = missing(fen, color, Role::Bishop, 2);
    let r = missing(fen, color, Role::Rook, 2);
    let q = missing(fen, color, Role::Queen, 1);
    lemma_occurrences_concat(p + n + b + r, q, role);
    lemma_occurrences_concat(p + n + b, r, role);
    lemma_occurrences_concat(p + n, b, role);
    lemma_occurrences_concat(p, n, role);
    lemma_occurrences_repeat(sat_sub(8, count_on(fen, color, Role::Pawn, 64) as int) as nat, Role::Pawn, role);
    lemma_occurrences_repeat(sat_sub(2, count_on(fen, color, Role::Knight, 64) as int) as nat, Role::Knight, role);
    lemma_occurrences_repeat(sat_sub(2, count_on(fen, color, Role::Bishop, 64) as int) as nat, Role::Bishop, role);
    lemma_occurrences_repeat(sat_sub(2, count_on(fen, color, Role::Rook, 64) as int) as nat, Role::Rook, role);
    lemma_occurrences_repeat(sat_sub(1, count_on(fen, color, Role::Queen, 64) as int) as nat, Role::Queen, role);
}

/// The captured pieces of a colour as symbols.
pub open spec fn captured_text(fen: Seq<char>, color: Color) -> Seq<char> {
    spec_captured(fen, color).map_values(|r: Role| piece_symbol(color, r))
}

/// Line `i` of the move list: the move number, White's move and Black's.
pub open spec fn move_text(sans: Seq<Seq<char>>, i: int) -> Seq<char> {
    decimal((i + 1) as nat) + ". "@ + sans[2 * i] + " "@ + if 2 * i + 1 < sans.len() {
        sans[2 * i + 1]
    } else {
        Seq::empty()
    }
}

/// The first `k` lines of the move list.
pub open spec fn move_lines(sans: Seq<Seq<char>>, k: nat) -> Seq<SpanView> {
    Seq::new(k, |i: int| line(move_text(sans, i), plain()))
}

/// A framed player name, highlighted with a title when it is their move.
pub open spec fn player_box(area: Rect, name: Seq<char>, to_move: bool) -> Seq<Drawn> {
    seq![
        panel_of(area, if to_move { " To move "@ } else { ""@ }, if to_move { bold(accent()) } else { plain() }),
        text_in(area.spec_bordered_inner(), seq![line(name, plain())], plain()),
    ]
}

/// A row of captured pieces.
pub open spec fn captured_row(area: Rect, fen: Seq<char>, color: Color) -> Drawn {
    text_in(area, seq![line(captured_text(fen, color), plain())], fg(Tint::Gray))
}

/// The colour of a result: green for a win, red for a loss, yellow else.
pub open spec fn result_tint(result: Seq<char>) -> Tint {
    if "YOU WIN"@.is_prefix_of(result) {
        Tint::Green
    } else if "YOU LOSE"@.is_prefix_of(result) {
        Tint::Red
    } else {
        Tint::Yellow
    }
}

/// The style of a status: bold red for a check, bold green for a win,
/// yellow else.
pub open spec fn status_style(status: Seq<char>) -> Style {
    if has_part(status, "Check"@) {
        bold(Tint::Red)
    } else if has_part(status, "Checkmate"@) || has_part(status, "wins"@) {
        bold(Tint::Green)
    } else {
        fg(Tint::Yellow)
    }
}

/// The side panel, in its `rows`: the players with their captured pieces
/// around the moves, then the result and the way on, or the status and the
/// move being typed.
pub open spec fn side_panel(v: GameScreen, rows: Seq<Rect>) -> Seq<Drawn> {
    side_head(v, rows) + side_tail(v, rows)
}

/// The players, their captured pieces and the moves.
pub open spec fn side_head(v: GameScreen, rows: Seq<Rect>) -> Seq<Drawn> {
    let top_color = if v.is_black_perspective { Color::White } else { Color::Black };
    let bottom_color = if v.is_black_perspective { Color::Black } else { Color::White };
    let top_name = if v.is_black_perspective { v.white_name } else { v.black_name };
    let bottom_name = if v.is_black_perspective { v.black_name } else { v.white_name };
    let turn = fen_turn(v.fen);
    let sans = v.sans;
    player_box(rows[0], top_name, v.finished is None && turn == top_color) + seq![
        captured_row(rows[1], v.fen, top_color),
        panel_of(rows[2], " Moves "@, plain()),
        text_in(rows[2].spec_bordered_inner(), move_lines(sans, ((sans.len() + 1) / 2) as nat), plain()),
        captured_row(rows[3], v.fen, bottom_color),
    ] + player_box(rows[4], bottom_name, v.finished is None && turn == bottom_color)
}

/// The result and the way on, or the status and the move being typed.
pub open spec fn side_tail(v: GameScreen, rows: Seq<Rect>) -> Seq<Drawn> {
    match v.finished {
        Some(result) => text_box(
            rows[5],
            " Result "@,
            result,
            Style { fg: result_tint(result), bg: Tint::Inherit, bold: true },
        ) + text_box(rows[6], " Review "@, "ENTER: lobby | Q: quit"@, plain()),
        None => (match v.status_message {
            Some(s) => text_box(rows[5], " Status "@, s, status_style(s)),
            None => Seq::empty(),
        }) + text_box(
            rows[6],
            " Move "@,
            (if v.is_my_turn { "> "@ } else { "· "@ }) + v.input_buffer,
            if v.is_my_turn { plain() } else { fg(Tint::DarkGray) },
        ),
    }
}

/// The column left of the board: the name and the kind of game.
pub open spec fn help_panel(v: GameScreen, area: Rect) -> Seq<Drawn> {
    seq![
        text_in(
            area,
            seq![
                line(" CheSSH"@, bold(accent())),
                line(
                    if v.finished is Some {
                        " Final position"@
                    } else if v.computer {
                        " Against Zander"@
                    } else if v.is_multiplayer {
                        " Online game"@
                    } else {
                        " Practice"@
                    },
                    plain(),
                ),
            ],
            plain(),
        ),
    ]
}

/// Without a side panel: the result or status on the first row, and the
/// way on or the move being typed on the last.
pub open spec fn narrow_lines(v: GameScreen, a: Rect) -> Seq<Drawn> {
    let status = match v.finished {
        Some(f) => f,
        None => match v.status_message {
            Some(s) => s,
            None => "Click a piece or type a move"@,
        },
    };
    seq![
        text_in(
            Rect::spec_new(a.x, a.y, a.width, min_int(a.height as int, 1) as u16),
            seq![line(status, plain())],
            fg(accent()),
        ),
    ] + if a.height > 0 {
        seq![
            text_in(
                Rect::spec_new(a.x, (a.spec_bottom() - 1) as u16, a.width, 1),
                seq![line(if v.finished is Some { "ENTER: lobby | Q: quit"@ } else { "> "@ + v.input_buffer }, plain())],
                plain(),
            ),
        ]
    } else {
        Seq::empty()
    }
}

/// Whether a button can be used: no resigning or draw offers after the
/// end, and draws only against another player.
pub open spec fn button_enabled(v: GameScreen, c: GameControl) -> bool {
    match c {
        GameControl::Resign => v.finished is None,
        GameControl::Draw => v.finished is None && v.is_multiplayer,
        _ => true,
    }
}

/// The text of a button: on a wide screen the draw button offers to
/// accept a draw that was offered, and the last one reads "Disconnect".
pub open spec fn button_text(v: GameScreen, c: GameControl, wide: bool) -> Seq<char> {
    if c == GameControl::Draw && wide && v.status_message is Some && has_part(
        v.status_message->Some_0,
        "offers a draw"@,
    ) {
        "F3 Accept draw"@
    } else if c == GameControl::Disconnect && wide {
        "F5 Disconnect"@
    } else {
        c.spec_label()
    }
}

pub open spec fn button(v: GameScreen, c: GameControl, rect: Rect, wide: bool) -> Seq<Drawn> {
    text_box(rect, ""@, button_text(v, c, wide), fg(if button_enabled(v, c) { accent() } else { muted() }))
}

/// The four buttons, the footer bar of a narrow screen divided into `footer`.
pub open spec fn buttons(v: GameScreen, area: Rect, footer: Seq<Rect>) -> Seq<Drawn> {
    let b = spec_button_areas(area, footer);
    let wide = area.width >= 78;
    button(v, GameControl::Resign, b[0], wide) + button(v, GameControl::Draw, b[1], wide) + button(
        v,
        GameControl::Lobby,
        b[2],
        wide,
    ) + button(v, GameControl::Disconnect, b[3], wide)
}

/// The board the view shows.
pub open spec fn board_of(v: GameScreen) -> BoardView {
    BoardView {
        fen: v.fen,
        selected_square: v.selected_square,
        last_move: v.last_move,
        legal_moves: v.highlight_destinations,
        candidate_origins: v.highlight_origins,
        flipped: v.is_black_perspective,
    }
}

/// The game screen: the background, the help column, the board, the side
/// panel (or, without room for it, a status row and an input row) and the
/// buttons; the screen divided into the columns `cols`, the side panel into
/// `rows` and a narrow screen's footer bar into `footer`.
pub open spec fn spec_game_screen(
    v: GameScreen,
    area: Rect,
    sprites: Option<&SpriteCache>,
    cols: Seq<Rect>,
    rows: Seq<Rect>,
    footer: Seq<Rect>,
) -> Seq<Drawn> {
    let a = spec_content_area(area);
    let (help, side) = spec_game_columns(area);
    seq![Drawn::Fill { area, style: Style { fg: text_tint(), bg: background(), bold: false }, clear: false }] + (if help
        && side {
        help_panel(v, cols[0])
    } else {
        Seq::empty()
    }) + spec_board(board_of(v), spec_board_area(area, cols), sprites) + (if side {
        side_panel(v, rows)
    } else {
        narrow_lines(v, a)
    }) + buttons(v, area, footer)
}

/// How many pieces of each kind (pawn, knight, bishop, rook, queen) of a
/// colour stand on the board.
fn piece_counts(fen: &str, color: Color) -> (c: (usize, usize, usize, usize, usize))
    ensures
        c.0 == count_on(fen@, color, Role::Pawn, 64),
        c.1 == count_on(fen@, color, Role::Knight, 64),
        c.2 == count_on(fen@, color, Role::Bishop, 64),
        c.3 == count_on(fen@, color, Role::Rook, 64),
        c.4 == count_on(fen@, color, Role::Queen, 64),
{
    let mut pawns: usize = 0;
    let mut knights: usize = 0;
    let mut bishops: usize = 0;
    let mut rooks: usize = 0;
    let mut queens: usize = 0;
    let mut k: u8 = 0;
    while k < 64
        invariant
            k <= 64,
            pawns == count_on(fen@, color, Role::Pawn, k as nat),
            knights == count_on(fen@, color, Role::Knight, k as nat),
            bishops == count_on(fen@, color, Role::Bishop, k as nat),
            rooks == count_on(fen@, color, Role::Rook, k as nat),
            queens == count_on(fen@, color, Role::Queen, k as nat),
            pawns <= k && knights <= k && bishops <= k && rooks <= k && queens <= k,
        decreases 64 - k,
    {
        match piece_at(fen, Square(k)) {
            Some((pc, role)) => {
                if pc == color {
                    match role {
                        Role::Pawn => pawns = pawns + 1,
                        Role::Knight => knights = knights + 1,
                        Role::Bishop => bishops = bishops + 1,
                        Role::Rook => rooks = rooks + 1,
                        Role::Queen => queens = queens + 1,
                        Role::King => {},
                    }
                }
            },
            None => {},
        }
        k = k + 1;
    }
    (pawns, knights, bishops, rooks, queens)
}

/// Adds a piece kind `n` times.
fn push_times(out: &mut Vec<Role>, role: Role, n: usize)
    ensures
        final(out)@ == old(out)@ + Seq::new(n as nat, |i: int| role),
{
    let ghost before = out@;
    let mut i: usize = 0;
    while i < n
        invariant
            i <= n,
            out@ == before + Seq::new(i as nat, |j: int| role),
        decreases n - i,
    {
        out.push(role);
        i = i + 1;
        proof {
            assert(out@ =~= before + Seq::new(i as nat, |j: int| role));
        }
    }
}

/// The pieces of a colour missing from the board, by kind.
pub fn captured_pieces(fen: &str, color: Color) -> (r: Vec<Role>)
    ensures
        r@ == spec_captured(fen@, color),
{
    let c = piece_counts(fen, color);
    let mut r: Vec<Role> = Vec::new();
    push_times(&mut r, Role::Pawn, 8usize.saturating_sub(c.0));
    push_times(&mut r, Role::Knight, 2usize.saturating_sub(c.1));
    push_times(&mut r, Role::Bishop, 2usize.saturating_sub(c.2));
    push_times(&mut r, Role::Rook, 2usize.saturating_sub(c.3));
    push_times(&mut r, Role::Queen, 1usize.saturating_sub(c.4));
    proof {
        assert(r@ =~= spec_captured(fen@, color));
    }
    r
}

/// The chess symbol of a piece.
pub fn role_to_symbol(role: Role, color: Color) -> (c: char)
    ensures
        c == piece_symbol(color, role),
{
    BoardWidget::piece_char(role, color)
}

/// The symbols of the pieces of a colour that have been captured.
fn captured_string(fen: &str, color: Color) -> (s: String)
    ensures
        s@ == captured_text(fen@, color),
{
    let roles = captured_pieces(fen, color);
    let mut chars: Vec<char> = Vec::new();
    let mut i: usize = 0;
    while i < roles.len()
        invariant
            i <= roles@.len(),
            roles@ == spec_captured(fen@, color),
            chars@ == roles@.take(i as int).map_values(|r: Role| piece_symbol(color, r)),
        decreases roles@.len() - i,
    {
        chars.push(role_to_symbol(roles[i], color));
        proof {
            assert(roles@.take(i + 1) =~= roles@.take(i as int).push(roles@[i as int]));
            assert(chars@ =~= roles@.take(i + 1).map_values(|r: Role| piece_symbol(color, r)));
        }
        i = i + 1;
    }
    proof {
        assert(roles@.take(roles@.len() as int) =~= roles@);
    }
    string_of(chars.as_slice())
}

/// A copy of a list of squares.
pub fn copy_squares(v: &Vec<Square>) -> (r: Vec<Square>)
    ensures
        r@ == v@,
{
    let mut r: Vec<Square> = Vec::new();
    let mut i: usize = 0;
    while i < v.len()
        invariant
            i <= v@.len(),
            r@ == v@.take(i as int),
        decreases v@.len() - i,
    {
        r.push(v[i]);
        proof {
            assert(r@ =~= v@.take(i + 1));
        }
        i = i + 1;
    }
    proof {
        assert(v@.take(v@.len() as int) =~= v@);
    }
    r
}

impl GameView {
    /// Marks the game as over, with the result to show.
    pub fn finished(self, result: String) -> (v: GameView)
        ensures
            v == (GameView { finished: Some(result), ..self }),
    {
        GameView { finished: Some(result), ..self }
    }

    /// Names the players.
    pub fn players(self, white: String, black: String) -> (v: GameView)
        ensures
            v == (GameView { white_name: white, black_name: black, ..self }),
    {
        GameView { white_name: white, black_name: black, ..self }
    }

    /// A status line to show.
    pub fn status(self, message: String) -> (v: GameView)
        ensures
            v == (GameView { status_message: Some(message), ..self }),
    {
        GameView { status_message: Some(message), ..self }
    }

    /// The selected square.
    pub fn selected(self, square: Option<Square>) -> (v: GameView)
        ensures
            v == (GameView { selected_square: square, ..self }),
    {
        GameView { selected_square: square, ..self }
    }

    /// The last move's squares.
    pub fn last_move(self, from: Square, to: Square) -> (v: GameView)
        ensures
            v == (GameView { last_move: Some((from, to)), ..self }),
    {
        GameView { last_move: Some((from, to)), ..self }
    }

    /// Whose side is at the bottom.
    pub fn perspective(self, is_black: bool) -> (v: GameView)
        ensures
            v == (GameView { is_black_perspective: is_black, ..self }),
    {
        GameView { is_black_perspective: is_black, ..self }
    }

    /// Candidate origins and destinations to mark.
    pub fn highlights(self, origins: Vec<Square>, destinations: Vec<Square>) -> (v: GameView)
        ensures
            v == (GameView { highlight_origins: origins, highlight_destinations: destinations, ..self }),
    {
        GameView { highlight_origins: origins, highlight_destinations: destinations, ..self }
    }

    /// Whether the game is against the computer.
    pub fn computer(self, value: bool) -> (v: GameView)
        ensures
            v == (GameView { computer: value, ..self }),
    {
        GameView { computer: value, ..self }
    }

    /// The move being typed, whose turn it is and whether another player
    /// takes part.
    pub fn input(self, buffer: String, is_my_turn: bool, is_multiplayer: bool) -> (v: GameView)
        ensures
            v == (GameView { input_buffer: buffer, is_my_turn, is_multiplayer, ..self }),
    {
        GameView { input_buffer: buffer, is_my_turn, is_multiplayer, ..self }
    }

    /// The column left of the board.
    fn render_help_panel(&self, area: Rect) -> (r: Vec<Widget>)
        ensures
            drawn(r@) == help_panel(self@, area),
    {
        let mut spans: Vec<Span> = Vec::new();
        add_line(&mut spans, " CheSSH", bold(accent()));
        let mode = if self.finished.is_some() {
            " Final position"
        } else if self.computer {
            " Against Zander"
        } else if self.is_multiplayer {
            " Online game"
        } else {
            " Practice"
        };
        add_line(&mut spans, mode, plain());
        proof {
            assert(spans_of(spans@) =~= seq![
                line(" CheSSH"@, bold(accent())),
                line(mode@, plain()),
            ]);
        }
        let mut out: Vec<Widget> = Vec::new();
        put(&mut out, Widget::Text { area, spans, style: plain(), centered: false, wrap: Wrap::Cut });
        proof {
            assert(drawn(out@) =~= help_panel(self@, area));
        }
        out
    }

    /// The move list.
    fn move_spans(&self) -> (r: Vec<Span>)
        ensures
            spans_of(r@) == move_lines(
                texts_of(self.san_history@),
                ((self.san_history@.len() + 1) / 2) as nat,
            ),
    {
        let ghost sans = texts_of(self.san_history@);
        let n = self.san_history.len();
        let pairs = n / 2 + n % 2;
        let mut out: Vec<Span> = Vec::new();
        let mut i: usize = 0;
        while i < pairs
            invariant
                sans == texts_of(self.san_history@),
                n == self.san_history@.len(),
                pairs == (n + 1) / 2,
                i <= pairs,
                spans_of(out@) == move_lines(sans, i as nat),
            decreases pairs - i,
        {
            let mut text = count_text(i + 1);
            text.append(". ");
            text.append(self.san_history[2 * i].as_str());
            text.append(" ");
            if 2 * i + 1 < n {
                text.append(self.san_history[2 * i + 1].as_str());
            }
            let ghost before = spans_of(out@);
            add_span(&mut out, text, plain(), true);
            i = i + 1;
            proof {
                assert(spans_of(out@) =~= move_lines(sans, i as nat));
            }
        }
        out
    }

    /// The side panel, in its rows.
    fn render_side_panel(&self, rows: &Vec<Rect>) -> (r: Vec<Widget>)
        requires
            rows@.len() == 7,
        ensures
            drawn(r@) == side_panel(self@, rows@),
    {
        let mut out = self.render_side_head(rows);
        let tail = self.render_side_tail(rows);
        put_all(&mut out, tail);
        out
    }

    /// The players, their captured pieces and the moves.
    fn render_side_head(&self, rows: &Vec<Rect>) -> (r: Vec<Widget>)
        requires
            rows@.len() == 7,
        ensures
            drawn(r@) == side_head(self@, rows@),
    {
        let (top_color, bottom_color) = if self.is_black_perspective {
            (Color::White, Color::Black)
        } else {
            (Color::Black, Color::White)
        };
        let top_name = if self.is_black_perspective { self.white_name.clone() } else { self.black_name.clone() };
        let bottom_name = if self.is_black_perspective { self.black_name.clone() } else { self.white_name.clone() };
        let turn = match position_facts(self.fen.as_str()) {
            Some(f) => if f.white_to_move {
                Color::White
            } else {
                Color::Black
            },
            None => Color::White,
        };
        let top_turn = self.finished.is_none() && turn == top_color;
        let bottom_turn = self.finished.is_none() && turn == bottom_color;
        let mut out: Vec<Widget> = Vec::new();
        add_text_box(
            &mut out,
            rows[0],
            String::from_str(if top_turn { " To move " } else { "" }),
            top_name,
            if top_turn { bold(accent()) } else { plain() },
        );
        put(
            &mut out,
            Widget::Text {
                area: rows[1],
                spans: one_line(captured_string(self.fen.as_str(), top_color), plain()),
                style: fg(Tint::Gray),
                centered: false,
                wrap: Wrap::Cut,
            },
        );
        put(
            &mut out,
            Widget::Panel {
                area: rows[2],
                title: String::from_str(" Moves "),
                rounded: true,
                border: fg(border_tint()),
                style: plain(),
            },
        );
        put(
            &mut out,
            Widget::Text {
                area: rows[2].bordered_inner(),
                spans: self.move_spans(),
                style: plain(),
                centered: false,
                wrap: Wrap::Cut,
            },
        );
        put(
            &mut out,
            Widget::Text {
                area: rows[3],
                spans: one_line(captured_string(self.fen.as_str(), bottom_color), plain()),
                style: fg(Tint::Gray),
                centered: false,
                wrap: Wrap::Cut,
            },
        );
        add_text_box(
            &mut out,
            rows[4],
            String::from_str(if bottom_turn { " To move " } else { "" }),
            bottom_name,
            if bottom_turn { bold(accent()) } else { plain() },
        );
        proof {
            assert(drawn(out@) =~= side_head(self@, rows@));
        }
        out
    }

    /// The result and the way on, or the status and the move being typed.
    fn render_side_tail(&self, rows: &Vec<Rect>) -> (r: Vec<Widget>)
        requires
            rows@.len() == 7,
        ensures
            drawn(r@) == side_tail(self@, rows@),
    {
        let mut out: Vec<Widget> = Vec::new();
        match &self.finished {
            Some(result) => {
                let text = result.as_str();
                let chars = chars_of(text);
                let win = chars_of("YOU WIN");
                let lose = chars_of("YOU LOSE");
                let tint = if chars_starts_with(chars.as_slice(), win.as_slice()) {
                    Tint::Green
                } else if chars_starts_with(chars.as_slice(), lose.as_slice()) {
                    Tint::Red
                } else {
                    Tint::Yellow
                };
                add_text_box(
                    &mut out,
                    rows[5],
                    String::from_str(" Result "),
                    result.clone(),
                    Style { fg: tint, bg: Tint::Inherit, bold: true },
                );
                add_text_box(
                    &mut out,
                    rows[6],
                    String::from_str(" Review "),
                    String::from_str("ENTER: lobby | Q: quit"),
                    plain(),
                );
            },
            None => {
                match &self.status_message {
                    Some(status) => {
                        let style = if contains_text(status.as_str(), "Check") {
                            bold(Tint::Red)
                        } else if contains_text(status.as_str(), "Checkmate") || contains_text(status.as_str(), "wins") {
                            bold(Tint::Green)
                        } else {
                            fg(Tint::Yellow)
                        };
                        add_text_box(&mut out, rows[5], String::from_str(" Status "), status.clone(), style);
                    },
                    None => {},
                }
                let mut input = String::from_str(if self.is_my_turn { "> " } else { "· " });
                input.append(self.input_buffer.as_str());
                add_text_box(
                    &mut out,
                    rows[6],
                    String::from_str(" Move "),
                    input,
                    if self.is_my_turn { plain() } else { fg(Tint::DarkGray) },
                );
            },
        }
        proof {
            assert(drawn(out@) =~= side_tail(self@, rows@));
        }
        out
    }

    /// The status and input rows of a screen without a side panel.
    fn render_narrow(&self, a: Rect) -> (r: Vec<Widget>)
        ensures
            drawn(r@) == narrow_lines(self@, a),
    {
        let status = match &self.finished {
            Some(f) => f.clone(),
            None => match &self.status_message {
                Some(s) => s.clone(),
                None => String::from_str("Click a piece or type a move"),
            },
        };
        let mut out: Vec<Widget> = Vec::new();
        put(
            &mut out,
            Widget::Text {
                area: Rect::new(a.x, a.y, a.width, if a.height < 1 { a.height } else { 1 }),
                spans: one_line(status, plain()),
                style: fg(accent()),
                centered: false,
                wrap: Wrap::Cut,
            },
        );
        if a.height > 0 {
            let text = if self.finished.is_some() {
                String::from_str("ENTER: lobby | Q: quit")
            } else {
                let mut t = String::from_str("> ");
                t.append(self.input_buffer.as_str());
                t
            };
            put(
                &mut out,
                Widget::Text {
                    area: Rect::new(a.x, a.bottom() - 1, a.width, 1),
                    spans: one_line(text, plain()),
                    style: plain(),
                    centered: false,
                    wrap: Wrap::Cut,
                },
            );
        }
        proof {
            assert(drawn(out@) =~= narrow_lines(self@, a));
        }
        out
    }

    /// The four buttons, the footer bar of a narrow screen divided into
    /// `footer`.
    fn render_buttons(&self, area: Rect, footer: &Vec<Rect>) -> (r: Vec<Widget>)
        requires
            buttons_fit(area),
            footer@.len() == 4,
        ensures
            drawn(r@) == buttons(self@, area, footer@),
    {
        let rects = button_areas_in(area, footer.as_slice());
        let wide = area.width >= 78;
        let offered = match &self.status_message {
            Some(s) => contains_text(s.as_str(), "offers a draw"),
            None => false,
        };
        let controls = GameControl::all();
        let mut out: Vec<Widget> = Vec::new();
        let mut i: usize = 0;
        while i < 4
            invariant
                i <= 4,
                rects@ == spec_button_areas(area, footer@),
                wide == (area.width >= 78),
                offered == (self.status_message is Some && has_part(self.status_message->Some_0@, "offers a draw"@)),
                controls@ == seq![GameControl::Resign, GameControl::Draw, GameControl::Lobby, GameControl::Disconnect],
                drawn(out@) == if i == 0 {
                    Seq::empty()
                } else if i == 1 {
                    button(self@, GameControl::Resign, rects@[0], wide)
                } else if i == 2 {
                    button(self@, GameControl::Resign, rects@[0], wide) + button(self@, GameControl::Draw, rects@[1], wide)
                } else if i == 3 {
                    button(self@, GameControl::Resign, rects@[0], wide) + button(self@, GameControl::Draw, rects@[1], wide)
                        + button(self@, GameControl::Lobby, rects@[2], wide)
                } else {
                    buttons(self@, area, footer@)
                },
            decreases 4 - i,
        {
            let control = controls[i];
            let enabled = match control {
                GameControl::Resign => self.finished.is_none(),
                GameControl::Draw => self.finished.is_none() && self.is_multiplayer,
                _ => true,
            };
            let label = if control == GameControl::Draw && wide && offered {
                "F3 Accept draw"
            } else if control == GameControl::Disconnect && wide {
                "F5 Disconnect"
            } else {
                control.label()
            };
            let ghost before = drawn(out@);
            add_text_box(
                &mut out,
                rects[i],
                String::from_str(""),
                String::from_str(label),
                fg(if enabled { accent() } else { muted() }),
            );
            proof {
                assert(drawn(out@) =~= before + button(self@, controls@[i as int], rects@[i as int], wide));
            }
            i = i + 1;
        }
        out
    }

    /// The board as this view shows it.
    fn board(&self) -> (b: BoardWidget)
        ensures
            b@ == board_of(self@),
    {
        let mut b = BoardWidget::new(self.fen.as_str())
            .selected(self.selected_square)
            .flipped(self.is_black_perspective)
            .highlights(copy_squares(&self.highlight_origins), copy_squares(&self.highlight_destinations));
        match self.last_move {
            Some((from, to)) => {
                b = b.last_move(from, to);
            },
            None => {},
        }
        b
    }

    /// The game screen, what to draw in order: the screen divided into the
    /// columns `cols`, the side panel into `rows` and a narrow screen's
    /// footer bar into `footer`.
    pub fn render_in(
        &self,
        area: Rect,
        sprites: Option<&SpriteCache>,
        cols: &Vec<Rect>,
        rows: &Vec<Rect>,
        footer: &Vec<Rect>,
    ) -> (r: Vec<Widget>)
        requires
            area_ok(area),
            sprites matches Some(c) ==> c.wf(),
            cols@.len() == column_count(area),
            rows@.len() == 7,
            footer@.len() == 4,
        ensures
            drawn(r@) == spec_game_screen(self@, area, sprites, cols@, rows@, footer@),
    {
        let mut out: Vec<Widget> = Vec::new();
        put(
            &mut out,
            Widget::Fill { area, style: Style { fg: text_tint(), bg: background(), bold: false }, clear: false },
        );
        let a = Self::content_area(area);
        let (help, side, _, _) = Self::compute_layout_widths(a, 18, 26, 34);
        if help && side {
            let part = self.render_help_panel(cols[0]);
            put_all(&mut out, part);
        }
        let board_area = Self::board_area_in(area, cols.as_slice());
        let board = self.board();
        let part = board.render(board_area, sprites);
        put_all(&mut out, part);
        if side {
            let part = self.render_side_panel(rows);
            put_all(&mut out, part);
        } else {
            let part = self.render_narrow(a);
            put_all(&mut out, part);
        }
        let part = self.render_buttons(area, footer);
        put_all(&mut out, part);
        proof {
            assert(drawn(out@) =~= spec_game_screen(self@, area, sprites, cols@, rows@, footer@));
        }
        out
    }

    /// The game screen, what to draw in order, laid out by the layout
    /// solver.
    pub fn render(&self, area: Rect, sprites: Option<&SpriteCache>) -> (r: Vec<Widget>)
        requires
            area_ok(area),
            sprites matches Some(c) ==> c.wf(),
        ensures
            exists|cols: Seq<Rect>, rows: Seq<Rect>, footer: Seq<Rect>|
                cols.len() == column_count(area) && rows.len() == 7 && footer.len() == 4 && columns_split(area, cols)
                    && side_split(area, cols, rows) && footer_split(area, footer) && drawn(r@)
                    == #[trigger] spec_game_screen(self@, area, sprites, cols, rows, footer),
    {
        let cols = Self::columns(area);
        let rows = Self::side_cells(area, cols.as_slice());
        let footer = footer_cells(area);
        let r = self.render_in(area, sprites, &cols, &rows, &footer);
        proof {
            assert(cols@.len() == column_count(area) && rows@.len() == 7 && footer@.len() == 4 && columns_split(
                area,
                cols@,
            ) && side_split(area, cols@, rows@) && footer_split(area, footer@) && drawn(r@) == spec_game_screen(
                self@,
                area,
                sprites,
                cols@,
                rows@,
                footer@,
            ));
        }
        r
    }
}

} // verus!
