//! Where the squares of the board lie on the screen.
use vstd::prelude::*;

use super::draw::{drawn, plain, put, put_all, Drawn, Style, Tint, Widget};
use super::geometry::Rect;
use super::sprites::{get_sprite, render_sprite_half_blocks, spec_half_blocks, SpriteCache, SpriteColumn, SpriteRow};
use crate::chess::game::specs_of;
use crate::chess::rules::{legal_moves, piece_at, piece_from_letter, position_facts, spec_facts, spec_legal_moves, spec_piece_at, MoveSpec};
use crate::chess::types::{Color, Role, Square};

verus! {

/// How a board is laid out in an area: its top-left square's corner, the
/// size of one square, and whether pieces are drawn as pictures.
#[derive(Debug, Clone, Copy, PartialEq, Eq, Structural)]
pub struct BoardGeometry {
    pub left: u16,
    pub top: u16,
    pub square_width: u16,
    pub square_height: u16,
    pub sprites: bool,
}

/// Large squares (10 by 5 cells, room for pictures) where the area holds
/// them, else small ones (4 by 2); no board where even those do not fit.
/// The board is centred, two columns right for the rank labels.
pub open spec fn spec_geometry(area: Rect) -> Option<BoardGeometry> {
    let sprites = area.width >= 82 && area.height >= 41;
    let (sw, sh, bw, bh) = if sprites {
        (10int, 5int, 82int, 41int)
    } else {
        (4int, 2int, 34int, 17int)
    };
    if area.width < bw || area.height < bh || area.x + (area.width - bw) / 2 + 2 > u16::MAX || area.y + (
    area.height - bh) / 2 > u16::MAX {
        None
    } else {
        Some(
            BoardGeometry {
                left: (area.x + (area.width - bw) / 2 + 2) as u16,
                top: (area.y + (area.height - bh) / 2) as u16,
                square_width: sw as u16,
                square_height: sh as u16,
                sprites: sprites,
            },
        )
    }
}

/// The square drawn under the cell `(x, y)`; with `flipped` Black's side is
/// at the bottom.
pub open spec fn spec_square_at(area: Rect, x: int, y: int, flipped: bool) -> Option<Square> {
    match spec_geometry(area) {
        None => None,
        Some(g) => if x < g.left || y < g.top {
            None
        } else {
            let col = (x - g.left) / g.square_width as int;
            let row = (y - g.top) / g.square_height as int;
            if col >= 8 || row >= 8 {
                None
            } else {
                let file = if flipped { 7 - col } else { col };
                let rank = if flipped { row } else { 7 - row };
                Some(Square((rank * 8 + file) as u8))
            }
        },
    }
}

/// A board to draw: the position, the selected square, the last move, the
/// squares marked as destinations and as origins, and which side is at the
/// bottom.
pub struct BoardWidget {
    pub fen: String,
    pub selected_square: Option<Square>,
    pub last_move: Option<(Square, Square)>,
    pub legal_moves: Vec<Square>,
    pub candidate_origins: Vec<Square>,
    pub flipped: bool,
}

/// What a board shows.
pub struct BoardView {
    pub fen: Seq<char>,
    pub selected_square: Option<Square>,
    pub last_move: Option<(Square, Square)>,
    pub legal_moves: Seq<Square>,
    pub candidate_origins: Seq<Square>,
    pub flipped: bool,
}

impl View for BoardWidget {
    type V = BoardView;

    open spec fn view(&self) -> BoardView {
        BoardView {
            fen: self.fen@,
            selected_square: self.selected_square,
            last_move: self.last_move,
            legal_moves: self.legal_moves@,
            candidate_origins: self.candidate_origins@,
            flipped: self.flipped,
        }
    }
}

/// The squares the legal moves from `from` lead to, in the rules' terms (a
/// castling king's move leads to its rook), in order.
pub open spec fn move_targets(ms: Seq<MoveSpec>, from: Square) -> Seq<Square>
    decreases ms.len(),
{
    if ms.len() == 0 {
        Seq::empty()
    } else {
        let r = move_targets(ms.drop_last(), from);
        if ms.last().from == Some(from) {
            r.push(ms.last().to)
        } else {
            r
        }
    }
}

/// The colours of the board.
pub open spec fn light_square() -> Tint {
    Tint::Rgb(240, 217, 181)
}

pub open spec fn dark_square() -> Tint {
    Tint::Rgb(181, 136, 99)
}

pub open spec fn selected_tint() -> Tint {
    Tint::Rgb(130, 151, 105)
}

pub open spec fn last_move_tint() -> Tint {
    Tint::Rgb(205, 210, 106)
}

pub open spec fn legal_move_tint(light: bool) -> Tint {
    if light {
        Tint::Rgb(170, 162, 131)
    } else {
        Tint::Rgb(141, 111, 81)
    }
}

pub open spec fn check_tint() -> Tint {
    Tint::Rgb(220, 80, 80)
}

pub open spec fn origin_tint(light: bool) -> Tint {
    if light {
        Tint::Rgb(180, 180, 130)
    } else {
        Tint::Rgb(150, 130, 90)
    }
}

pub open spec fn piece_tint(c: Color) -> Tint {
    match c {
        Color::White => Tint::Rgb(255, 255, 255),
        Color::Black => Tint::Rgb(0, 0, 0),
    }
}

/// The chess symbol of a piece.
pub open spec fn piece_symbol(color: Color, role: Role) -> char {
    match (color, role) {
        (Color::White, Role::King) => '♔',
        (Color::White, Role::Queen) => '♕',
        (Color::White, Role::Rook) => '♖',
        (Color::White, Role::Bishop) => '♗',
        (Color::White, Role::Knight) => '♘',
        (Color::White, Role::Pawn) => '♙',
        (Color::Black, Role::King) => '♚',
        (Color::Black, Role::Queen) => '♛',
        (Color::Black, Role::Rook) => '♜',
        (Color::Black, Role::Bishop) => '♝',
        (Color::Black, Role::Knight) => '♞',
        (Color::Black, Role::Pawn) => '♟',
    }
}

/// The side to move is in check and its king stands on the square.
pub open spec fn king_in_check_at(fen: Seq<char>, square: Square) -> bool {
    match spec_facts(fen) {
        Some(f) => f.in_check && piece_from_letter(spec_piece_at(fen, square)) == Some(
            (if f.white_to_move { Color::White } else { Color::Black }, Role::King),
        ),
        None => false,
    }
}

/// The background of a square: red under a king in check, else yellow on
/// the last move's squares, else the square's own colour; then the shade of
/// a candidate origin, then that of a destination, then the selection
/// colour, each over the one before.
pub open spec fn spec_shade(b: BoardView, square: Square, light: bool) -> Tint {
    let base = if king_in_check_at(b.fen, square) {
        check_tint()
    } else if b.last_move is Some && (square == b.last_move->Some_0.0 || square == b.last_move->Some_0.1) {
        last_move_tint()
    } else if light {
        light_square()
    } else {
        dark_square()
    };
    let origin = if b.candidate_origins.contains(square) { origin_tint(light) } else { base };
    let target = if b.legal_moves.contains(square) { legal_move_tint(light) } else { origin };
    if b.selected_square == Some(square) {
        selected_tint()
    } else {
        target
    }
}

/// The square drawn in screen row `r` and column `f` (both from the top
/// left).
pub open spec fn square_on_screen(flipped: bool, r: int, f: int) -> Square {
    let rank = if flipped { r } else { 7 - r };
    let file = if flipped { 7 - f } else { f };
    Square((rank * 8 + file) as u8)
}

/// Whether the square in screen row `r` and column `f` is a light one.
pub open spec fn light_on_screen(flipped: bool, r: int, f: int) -> bool {
    let rank = if flipped { r } else { 7 - r };
    let file = if flipped { 7 - f } else { f };
    (file + rank) % 2 == 1
}

/// What is drawn for the square in screen row `r`, column `f`: its
/// background, then its piece, as a picture on large squares (when the
/// pictures have been read) or as a symbol in the middle of a small one.
pub open spec fn square_widgets(
    b: BoardView,
    g: BoardGeometry,
    sprites: Option<&SpriteCache>,
    r: int,
    f: int,
) -> Seq<Drawn> {
    let square = square_on_screen(b.flipped, r, f);
    let bg = spec_shade(b, square, light_on_screen(b.flipped, r, f));
    let x = (g.left + f * g.square_width) as u16;
    let y = (g.top + r * g.square_height) as u16;
    let fill = Drawn::Fill {
        area: Rect { x, y, width: g.square_width, height: g.square_height },
        style: Style { fg: Tint::Inherit, bg, bold: false },
        clear: true,
    };
    match piece_from_letter(spec_piece_at(b.fen, square)) {
        None => seq![fill],
        Some((color, role)) => if g.sprites {
            match sprites {
                Some(c) => seq![
                    fill,
                    Drawn::Blocks {
                        x,
                        y,
                        rows: spec_half_blocks(
                            c.spec_get(SpriteRow::for_color_spec(color), SpriteColumn::from_role_spec(role)),
                            bg,
                        ),
                    },
                ],
                None => seq![fill],
            }
        } else {
            seq![
                fill,
                Drawn::Cell {
                    x: (x + g.square_width / 2) as u16,
                    y: (y + g.square_height / 2) as u16,
                    symbol: piece_symbol(color, role),
                    style: Style { fg: piece_tint(color), bg, bold: false },
                },
            ]
        },
    }
}

/// The first `k` squares, row by row from the top left.
pub open spec fn squares_upto(b: BoardView, g: BoardGeometry, sprites: Option<&SpriteCache>, k: nat) -> Seq<
    Drawn,
>
    decreases k,
{
    if k == 0 {
        Seq::empty()
    } else {
        squares_upto(b, g, sprites, (k - 1) as nat) + square_widgets(b, g, sprites, (k - 1) / 8, (k - 1) % 8)
    }
}

/// The rank numbers left of the first `k` rows.
pub open spec fn rank_labels(flipped: bool, g: BoardGeometry, area: Rect, k: nat) -> Seq<Drawn>
    decreases k,
{
    if k == 0 {
        Seq::empty()
    } else {
        let r = k - 1;
        let rank = if flipped { r } else { 7 - r };
        let y = g.top + r * g.square_height + g.square_height / 2;
        let before = rank_labels(flipped, g, area, (k - 1) as nat);
        if g.left >= 2 && y < area.y + area.height {
            before.push(
                Drawn::Cell { x: (g.left - 2) as u16, y: y as u16, symbol: (49 + rank) as char, style: plain() },
            )
        } else {
            before
        }
    }
}

/// The file letters below the first `k` columns.
pub open spec fn file_labels(flipped: bool, g: BoardGeometry, area: Rect, k: nat) -> Seq<Drawn>
    decreases k,
{
    if k == 0 {
        Seq::empty()
    } else {
        let f = k - 1;
        let file = if flipped { 7 - f } else { f };
        let x = g.left + f * g.square_width + g.square_width / 2;
        let y = g.top + 8 * g.square_height;
        let before = file_labels(flipped, g, area, (k - 1) as nat);
        if x < area.x + area.width && y < area.y + area.height {
            before.push(Drawn::Cell { x: x as u16, y: y as u16, symbol: (97 + file) as char, style: plain() })
        } else {
            before
        }
    }
}

/// The board as drawn in an area: the rank numbers, the file letters, then
/// the squares; nothing where the board does not fit (or the area reaches
/// past the last coordinate).
pub open spec fn spec_board(b: BoardView, area: Rect, sprites: Option<&SpriteCache>) -> Seq<Drawn> {
    if !area.fits() {
        Seq::empty()
    } else {
        match spec_geometry(area) {
        None => Seq::empty(),
        Some(g) => rank_labels(b.flipped, g, area, 8) + file_labels(b.flipped, g, area, 8) + squares_upto(
            b,
            g,
            sprites,
            64,
        ),
        }
    }
}

/// Whether a square is in a list.
pub fn has_square(v: &Vec<Square>, s: Square) -> (r: bool)
    ensures
        r == v@.contains(s),
{
    let mut i: usize = 0;
    while i < v.len()
        invariant
            i <= v@.len(),
            forall|k: int| 0 <= k < i ==> v@[k] != s,
        decreases v@.len() - i,
    {
        if v[i] == s {
            return true;
        }
        i = i + 1;
    }
    false
}

/// A board's geometry lies inside an area that lies within the coordinates.
proof fn lemma_board_inside(area: Rect)
    requires
        area.fits(),
        spec_geometry(area) is Some,
    ensures
        ({
            let g = spec_geometry(area)->Some_0;
            &&& g.left + 8 * g.square_width <= area.x + area.width
            &&& g.top + 8 * g.square_height < area.y + area.height
            &&& g.left >= 2
            &&& g.square_width == 10 || g.square_width == 4
            &&& g.square_height == 5 || g.square_height == 2
        }),
{
}

impl BoardWidget {
    /// A board of a position with nothing marked, White at the bottom.
    pub fn new(fen: &str) -> (b: BoardWidget)
        ensures
            b.fen@ == fen@,
            b.selected_square is None,
            b.last_move is None,
            b.legal_moves@.len() == 0,
            b.candidate_origins@.len() == 0,
            !b.flipped,
    {
        BoardWidget {
            fen: String::from_str(fen),
            selected_square: None,
            last_move: None,
            legal_moves: Vec::new(),
            candidate_origins: Vec::new(),
            flipped: false,
        }
    }

    /// Selects a square, marking where its piece's legal moves lead; no
    /// selection clears the marks.
    pub fn selected(self, square: Option<Square>) -> (b: BoardWidget)
        ensures
            b.selected_square == square,
            b.legal_moves@ == (match square {
                Some(sq) => move_targets(spec_legal_moves(self.fen@), sq),
                None => Seq::empty(),
            }),
            b.fen == self.fen,
            b.last_move == self.last_move,
            b.candidate_origins == self.candidate_origins,
            b.flipped == self.flipped,
    {
        let mut b = self;
        b.selected_square = square;
        match square {
            Some(sq) => {
                let ms = legal_moves(b.fen.as_str());
                let ghost ps = specs_of(ms@);
                proof {
                    assert(ps =~= spec_legal_moves(b.fen@));
                    assert(ps.take(0) =~= Seq::<MoveSpec>::empty());
                }
                let mut targets: Vec<Square> = Vec::new();
                let mut i: usize = 0;
                while i < ms.len()
                    invariant
                        ps == specs_of(ms@),
                        i <= ms@.len(),
                        targets@ == move_targets(ps.take(i as int), sq),
                    decreases ms@.len() - i,
                {
                    proof {
                        assert(ps.take(i + 1).drop_last() =~= ps.take(i as int));
                    }
                    if ms[i].from == Some(sq) {
                        targets.push(ms[i].to);
                    }
                    i = i + 1;
                }
                proof {
                    assert(ps.take(ms@.len() as int) =~= ps);
                }
                b.legal_moves = targets;
            },
            None => {
                b.legal_moves = Vec::new();
            },
        }
        b
    }

    /// Marks candidate origins and destinations.
    pub fn highlights(self, origins: Vec<Square>, destinations: Vec<Square>) -> (b: BoardWidget)
        ensures
            b.candidate_origins == origins,
            b.legal_moves == destinations,
            b.fen == self.fen,
            b.selected_square == self.selected_square,
            b.last_move == self.last_move,
            b.flipped == self.flipped,
    {
        BoardWidget { candidate_origins: origins, legal_moves: destinations, ..self }
    }

    /// Marks the last move's squares.
    pub fn last_move(self, from: Square, to: Square) -> (b: BoardWidget)
        ensures
            b.last_move == Some((from, to)),
            b.fen == self.fen,
            b.selected_square == self.selected_square,
            b.legal_moves == self.legal_moves,
            b.candidate_origins == self.candidate_origins,
            b.flipped == self.flipped,
    {
        BoardWidget { last_move: Some((from, to)), ..self }
    }

    /// Puts Black's side at the bottom, or White's.
    pub fn flipped(self, flipped: bool) -> (b: BoardWidget)
        ensures
            b.flipped == flipped,
            b.fen == self.fen,
            b.selected_square == self.selected_square,
            b.last_move == self.last_move,
            b.legal_moves == self.legal_moves,
            b.candidate_origins == self.candidate_origins,
    {
        BoardWidget { flipped, ..self }
    }

    /// Whether the side to move is in check with its king on the square.
    fn is_king_in_check(&self, square: Square) -> (r: bool)
        requires
            square.0 < 64,
        ensures
            r == king_in_check_at(self.fen@, square),
    {
        match position_facts(self.fen.as_str()) {
            Some(f) => {
                if !f.in_check {
                    return false;
                }
                let turn = if f.white_to_move { Color::White } else { Color::Black };
                match piece_at(self.fen.as_str(), square) {
                    Some((c, r)) => c == turn && r == Role::King,
                    None => false,
                }
            },
            None => false,
        }
    }

    /// The chess symbol of a piece.
    pub fn piece_char(role: Role, color: Color) -> (c: char)
        ensures
            c == piece_symbol(color, role),
    {
        match (color, role) {
            (Color::White, Role::King) => '♔',
            (Color::White, Role::Queen) => '♕',
            (Color::White, Role::Rook) => '♖',
            (Color::White, Role::Bishop) => '♗',
            (Color::White, Role::Knight) => '♘',
            (Color::White, Role::Pawn) => '♙',
            (Color::Black, Role::King) => '♚',
            (Color::Black, Role::Queen) => '♛',
            (Color::Black, Role::Rook) => '♜',
            (Color::Black, Role::Bishop) => '♝',
            (Color::Black, Role::Knight) => '♞',
            (Color::Black, Role::Pawn) => '♟',
        }
    }

    /// The background of a square.
    fn shade(&self, square: Square, light: bool) -> (t: Tint)
        requires
            square.0 < 64,
        ensures
            t == spec_shade(self@, square, light),
    {
        let mut bg = if self.is_king_in_check(square) {
            Tint::Rgb(220, 80, 80)
        } else {
            let on_last = match self.last_move {
                Some((from, to)) => square == from || square == to,
                None => false,
            };
            if on_last {
                Tint::Rgb(205, 210, 106)
            } else if light {
                Tint::Rgb(240, 217, 181)
            } else {
                Tint::Rgb(181, 136, 99)
            }
        };
        if has_square(&self.candidate_origins, square) {
            bg = if light { Tint::Rgb(180, 180, 130) } else { Tint::Rgb(150, 130, 90) };
        }
        if has_square(&self.legal_moves, square) {
            bg = if light { Tint::Rgb(170, 162, 131) } else { Tint::Rgb(141, 111, 81) };
        }
        if self.selected_square == Some(square) {
            bg = Tint::Rgb(130, 151, 105);
        }
        bg
    }

    /// How a board is laid out in an area, if it fits.
    pub fn geometry(area: Rect) -> (g: Option<BoardGeometry>)
        ensures
            g == spec_geometry(area),
    {
        let sprites = area.width >= 82 && area.height >= 41;
        let (sw, sh, bw, bh): (u16, u16, u16, u16) = if sprites {
            (10, 5, 82, 41)
        } else {
            (4, 2, 34, 17)
        };
        if area.width < bw || area.height < bh {
            return None;
        }
        let margin = (area.width - bw) / 2 + 2;
        let drop = (area.height - bh) / 2;
        if area.x > u16::MAX - margin || area.y > u16::MAX - drop {
            return None;
        }
        Some(
            BoardGeometry {
                left: area.x + margin,
                top: area.y + drop,
                square_width: sw,
                square_height: sh,
                sprites,
            },
        )
    }

    /// The square under a clicked cell, if the click hits the board.
    pub fn square_at(area: Rect, x: u16, y: u16, flipped: bool) -> (s: Option<Square>)
        ensures
            s == spec_square_at(area, x as int, y as int, flipped),
            s matches Some(sq) ==> sq.0 < 64,
    {
        let g = match Self::geometry(area) {
            Some(g) => g,
            None => return None,
        };
        if x < g.left || y < g.top {
            return None;
        }
        let col = (x - g.left) / g.square_width;
        let row = (y - g.top) / g.square_height;
        if col >= 8 || row >= 8 {
            return None;
        }
        let file: u8 = if flipped { 7 - col as u8 } else { col as u8 };
        let rank: u8 = if flipped { row as u8 } else { 7 - row as u8 };
        Some(Square::from_coords(file, rank))
    }
}

impl BoardWidget {
    /// What is drawn for one square.
    fn square_parts(&self, g: BoardGeometry, sprites: Option<&SpriteCache>, r: u16, f: u16) -> (v: Vec<Widget>)
        requires
            r < 8,
            f < 8,
            g.left + 8 * g.square_width <= u16::MAX,
            g.top + 8 * g.square_height <= u16::MAX,
            g.square_width == 10 || g.square_width == 4,
            g.square_height == 5 || g.square_height == 2,
            sprites matches Some(c) ==> c.wf(),
        ensures
            drawn(v@) == square_widgets(self@, g, sprites, r as int, f as int),
    {
        let rank: u8 = if self.flipped { r as u8 } else { 7 - r as u8 };
        let file: u8 = if self.flipped { 7 - f as u8 } else { f as u8 };
        let square = Square::from_coords(file, rank);
        let light = (file + rank) % 2 == 1;
        let bg = self.shade(square, light);
        proof {
            assert(f * g.square_width <= 7 * g.square_width) by (nonlinear_arith)
                requires
                    f < 8,
            ;
            assert(r * g.square_height <= 7 * g.square_height) by (nonlinear_arith)
                requires
                    r < 8,
            ;
        }
        let x = g.left + f * g.square_width;
        let y = g.top + r * g.square_height;
        let mut out: Vec<Widget> = Vec::new();
        put(
            &mut out,
            Widget::Fill {
                area: Rect { x, y, width: g.square_width, height: g.square_height },
                style: Style { fg: Tint::Inherit, bg, bold: false },
                clear: true,
            },
        );
        proof {
            assert(square == square_on_screen(self.flipped, r as int, f as int));
            assert(light == light_on_screen(self.flipped, r as int, f as int));
        }
        match piece_at(self.fen.as_str(), square) {
            Some((color, role)) => {
                if g.sprites {
                    match get_sprite(sprites, color, role) {
                        Some(sprite) => {
                            let rows = render_sprite_half_blocks(sprite, bg);
                            put(&mut out, Widget::Blocks { x, y, rows });
                        },
                        None => {},
                    }
                } else {
                    let ink = match color {
                        Color::White => Tint::Rgb(255, 255, 255),
                        Color::Black => Tint::Rgb(0, 0, 0),
                    };
                    put(
                        &mut out,
                        Widget::Cell {
                            x: x + g.square_width / 2,
                            y: y + g.square_height / 2,
                            symbol: Self::piece_char(role, color),
                            style: Style { fg: ink, bg, bold: false },
                        },
                    );
                }
            },
            None => {},
        }
        proof {
            assert(drawn(out@) =~= square_widgets(self@, g, sprites, r as int, f as int));
        }
        out
    }

    /// The board as drawn in an area: labels, squares and pieces; nothing
    /// where it does not fit.
    pub fn render(&self, area: Rect, sprites: Option<&SpriteCache>) -> (r: Vec<Widget>)
        requires
            sprites matches Some(c) ==> c.wf(),
        ensures
            drawn(r@) == spec_board(self@, area, sprites),
    {
        if area.x as u32 + area.width as u32 > 65535 || area.y as u32 + area.height as u32 > 65535 {
            let v: Vec<Widget> = Vec::new();
            proof {
                assert(drawn(v@) =~= spec_board(self@, area, sprites));
            }
            return v;
        }
        let g = match Self::geometry(area) {
            Some(g) => g,
            None => {
                let v: Vec<Widget> = Vec::new();
                proof {
                    assert(drawn(v@) =~= spec_board(self@, area, sprites));
                }
                return v;
            },
        };
        proof {
            lemma_board_inside(area);
        }
        let bottom = area.y + area.height;
        let right = area.x + area.width;
        let mut out: Vec<Widget> = Vec::new();
        let mut k: u16 = 0;
        while k < 8
            invariant
                k <= 8,
                Some(g) == spec_geometry(area),
                area.fits(),
                bottom == area.y + area.height,
                g.left + 8 * g.square_width <= area.x + area.width,
                g.top + 8 * g.square_height < area.y + area.height,
                g.square_height == 5 || g.square_height == 2,
                drawn(out@) == rank_labels(self.flipped, g, area, k as nat),
            decreases 8 - k,
        {
            let rank: u8 = if self.flipped { k as u8 } else { 7 - k as u8 };
            proof {
                assert(k * g.square_height <= 7 * g.square_height) by (nonlinear_arith)
                    requires
                        k < 8,
                ;
            }
            let y = g.top + k * g.square_height + g.square_height / 2;
            if g.left >= 2 && y < bottom {
                put(&mut out, Widget::Cell { x: g.left - 2, y, symbol: (49u8 + rank) as char, style: plain() });
            }
            k = k + 1;
        }
        let mut labels: Vec<Widget> = Vec::new();
        k = 0;
        while k < 8
            invariant
                k <= 8,
                Some(g) == spec_geometry(area),
                area.fits(),
                bottom == area.y + area.height,
                right == area.x + area.width,
                g.left + 8 * g.square_width <= area.x + area.width,
                g.top + 8 * g.square_height < area.y + area.height,
                g.square_width == 10 || g.square_width == 4,
                drawn(labels@) == file_labels(self.flipped, g, area, k as nat),
            decreases 8 - k,
        {
            let file: u8 = if self.flipped { 7 - k as u8 } else { k as u8 };
            proof {
                assert(k * g.square_width <= 7 * g.square_width) by (nonlinear_arith)
                    requires
                        k < 8,
                ;
            }
            let x = g.left + k * g.square_width + g.square_width / 2;
            let y = g.top + 8 * g.square_height;
            if x < right && y < bottom {
                put(&mut labels, Widget::Cell { x, y, symbol: (97u8 + file) as char, style: plain() });
            }
            k = k + 1;
        }
        put_all(&mut out, labels);
        let mut squares: Vec<Widget> = Vec::new();
        let mut i: u16 = 0;
        while i < 64
            invariant
                i <= 64,
                Some(g) == spec_geometry(area),
                g.left + 8 * g.square_width <= area.x + area.width,
                g.top + 8 * g.square_height < area.y + area.height,
                area.fits(),
                g.square_width == 10 || g.square_width == 4,
                g.square_height == 5 || g.square_height == 2,
                sprites matches Some(c) ==> c.wf(),
                drawn(squares@) == squares_upto(self@, g, sprites, i as nat),
            decreases 64 - i,
        {
            let parts = self.square_parts(g, sprites, i / 8, i % 8);
            put_all(&mut squares, parts);
            i = i + 1;
        }
        put_all(&mut out, squares);
        proof {
            assert(drawn(out@) =~= spec_board(self@, area, sprites));
        }
        out
    }
}


/// A click on any cell of a drawn square lands on that square: the squares
/// the board draws and the squares clicks select agree, in both
/// orientations.
pub proof fn lemma_click_hits_drawn_square(area: Rect, flipped: bool, r: int, f: int, x: int, y: int)
    requires
        spec_geometry(area) is Some,
        0 <= r < 8,
        0 <= f < 8,
        spec_geometry(area)->Some_0.left + f * spec_geometry(area)->Some_0.square_width <= x,
        x < spec_geometry(area)->Some_0.left + (f + 1) * spec_geometry(area)->Some_0.square_width,
        spec_geometry(area)->Some_0.top + r * spec_geometry(area)->Some_0.square_height <= y,
        y < spec_geometry(area)->Some_0.top + (r + 1) * spec_geometry(area)->Some_0.square_height,
    ensures
        spec_square_at(area, x, y, flipped) == Some(square_on_screen(flipped, r, f)),
{
    let g = spec_geometry(area)->Some_0;
    let sw = g.square_width as int;
    let sh = g.square_height as int;
    let dx = x - g.left;
    let dy = y - g.top;
    assert(sw > 0 && sh > 0);
    assert(dx / sw == f) by (nonlinear_arith)
        requires
            f * sw <= dx,
            dx < (f + 1) * sw,
            sw > 0,
    ;
    assert(dy / sh == r) by (nonlinear_arith)
        requires
            r * sh <= dy,
            dy < (r + 1) * sh,
            sh > 0,
    ;
    assert(f * sw >= 0) by (nonlinear_arith)
        requires
            f >= 0,
            sw > 0,
    ;
    assert(r * sh >= 0) by (nonlinear_arith)
        requires
            r >= 0,
            sh > 0,
    ;
}

} // verus!
