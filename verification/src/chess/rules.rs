//! The chess rules, as computed by `shakmaty`.
//!
//! A position is carried as its FEN text, the form in which `shakmaty`
//! writes it out (`Fen::from_position` with `EnPassantMode::Legal`) and reads
//! it back (`into_position` with `CastlingMode::Standard`). Each function here
//! reads the position from that text and answers with plain values.
use vstd::prelude::*;

use shakmaty::fen::Fen;
use shakmaty::san::{San, SanPlus};
use shakmaty::{CastlingMode, Chess, EnPassantMode, Position};

use super::types::{Color, Role, Square};

verus! {

/// A legal move, described by plain values.
pub struct MoveInfo {
    /// Lowercase letter of the moving piece (`p`, `n`, `b`, `r`, `q`, `k`).
    pub role: char,
    /// Square the piece leaves.
    pub from: Option<Square>,
    /// Square of the move in `shakmaty`'s own terms; for castling this is
    /// the rook's square.
    pub to: Square,
    /// Origin in standard UCI notation.
    pub uci_from: Option<Square>,
    /// Destination in standard UCI notation (the king's target when castling).
    pub uci_to: Option<Square>,
    /// Lowercase letter of the piece a pawn promotes to.
    pub promotion: Option<char>,
    /// Standard algebraic notation, without check marks.
    pub san: String,
    /// `+` when the move gives check, `#` when it mates.
    pub suffix: Option<char>,
}

/// The value of a [`MoveInfo`].
pub struct MoveSpec {
    pub role: char,
    pub from: Option<Square>,
    pub to: Square,
    pub uci_from: Option<Square>,
    pub uci_to: Option<Square>,
    pub promotion: Option<char>,
    pub san: Seq<char>,
    pub suffix: Option<char>,
}

impl View for MoveInfo {
    type V = MoveSpec;

    open spec fn view(&self) -> MoveSpec {
        MoveSpec {
            role: self.role,
            from: self.from,
            to: self.to,
            uci_from: self.uci_from,
            uci_to: self.uci_to,
            promotion: self.promotion,
            san: self.san@,
            suffix: self.suffix,
        }
    }
}

impl Clone for MoveInfo {
    fn clone(&self) -> (m: MoveInfo)
        ensures
            m@ == self@,
    {
        MoveInfo {
            role: self.role,
            from: self.from,
            to: self.to,
            uci_from: self.uci_from,
            uci_to: self.uci_to,
            promotion: self.promotion,
            san: self.san.clone(),
            suffix: self.suffix,
        }
    }
}

/// A move as standard UCI identifies it: origin, destination, promotion.
#[derive(Debug, Clone, Copy, PartialEq, Eq, Structural)]
pub struct UciKey {
    pub from: Option<Square>,
    pub to: Option<Square>,
    pub promotion: Option<char>,
}

/// What the rules say of a position besides its moves.
#[derive(Debug, Clone, Copy, PartialEq, Eq, Structural)]
pub struct PositionFacts {
    pub white_to_move: bool,
    pub in_check: bool,
    /// Neither side has enough material to mate.
    pub insufficient_material: bool,
}

/// The legal moves of the position a FEN describes, in the order of
/// `Position::legal_moves`; none when the text describes no position.
pub uninterp spec fn spec_legal_moves(fen: Seq<char>) -> Seq<MoveSpec>;

/// The FEN of the position after the legal move at `index`.
pub uninterp spec fn spec_fen_after(fen: Seq<char>, index: nat) -> Seq<char>;

/// Turn, check and material of the position a FEN describes, if it
/// describes one.
pub uninterp spec fn spec_facts(fen: Seq<char>) -> Option<PositionFacts>;

/// Reading a FEN: the FEN as `shakmaty` writes the position back, or the
/// failure (`true` when the text is not FEN, `false` when the FEN is not a
/// legal chess position) with `shakmaty`'s description of it.
pub uninterp spec fn spec_fen_parse(text: Seq<char>) -> Result<Seq<char>, (bool, Seq<char>)>;

/// Reading a move in standard algebraic notation in a position: the move in
/// UCI terms, or the failure (`true` when the text is not SAN, `false` when no
/// single legal move matches) with `shakmaty`'s description; `None` when the
/// FEN describes no position.
pub uninterp spec fn spec_san_lookup(fen: Seq<char>, text: Seq<char>) -> Option<
    Result<UciKey, (bool, Seq<char>)>,
>;

/// The piece on a square of the position a FEN describes, if any (none when
/// the text describes no position).
pub uninterp spec fn spec_piece_at(fen: Seq<char>, square: Square) -> Option<(bool, char)>;

/// The FEN of the standard starting position.
pub open spec fn start_fen_text() -> Seq<char> {
    "rnbqkbnr/pppppppp/8/8/8/8/PPPPPPPP/RNBQKBNR w KQkq - 0 1"@
}

/// The starting position of a chess game.
///
/// Writes `Chess::default()` as FEN. `shakmaty` documents the default
/// position as the standard starting position, whose FEN is stated here.
#[verifier::external_body]
pub fn start_fen() -> (s: String)
    ensures
        s@ == start_fen_text(),
{
    Fen::from_position(&Chess::default(), EnPassantMode::Legal).to_string()
}

/// No two of the moves share their origin, destination and promotion in
/// standard UCI terms.
pub open spec fn uci_keys_distinct(ms: Seq<MoveSpec>) -> bool {
    forall|i: int, j: int|
        0 <= i < j < ms.len() ==> (#[trigger] ms[i].uci_from, ms[i].uci_to, ms[i].promotion) != (
            #[trigger] ms[j].uci_from,
            ms[j].uci_to,
            ms[j].promotion,
        )
}

/// Number of legal moves of the position a FEN describes.
///
/// Reads the FEN (`Fen::from_str`, `into_position::<Chess>` in standard
/// castling mode) and counts `Position::legal_moves`; 0 when the text
/// describes no position. The list names each move once, and no two of its
/// moves share origin, destination and promotion in standard UCI: a normal
/// move is fixed by these (its piece and capture by the board), an en
/// passant capture lands on an empty square no other pawn move reaches, and
/// standard castling mode (`Castles::from_setup`) admits castling only with
/// the king on the e-file and the rook in the corner, so a castle's UCI (the
/// king two files over) is no king step.
#[verifier::external_body]
pub fn legal_move_count(fen: &str) -> (n: usize)
    ensures
        n == spec_legal_moves(fen@).len(),
        uci_keys_distinct(spec_legal_moves(fen@).take(n as int)),
{
    let Ok(setup) = fen.parse::<Fen>() else { return 0 };
    let Ok(pos) = setup.into_position::<Chess>(CastlingMode::Standard) else { return 0 };
    pos.legal_moves().len()
}

/// The legal move at `index` of the position a FEN describes.
///
/// Takes entry `index` of `Position::legal_moves` and describes it with
/// `Move::role`, `from`, `to`, `promotion`, `Move::to_uci` in standard castling
/// mode and `SanPlus::from_move`.
#[verifier::external_body]
pub fn legal_move_at(fen: &str, index: usize) -> (m: MoveInfo)
    requires
        index < spec_legal_moves(fen@).len(),
    ensures
        m@ == spec_legal_moves(fen@)[index as int],
{
    let pos: Chess = fen.parse::<Fen>().unwrap().into_position(CastlingMode::Standard).unwrap();
    let mv = pos.legal_moves()[index];
    let uci = mv.to_uci(CastlingMode::Standard);
    let plus = SanPlus::from_move(pos, mv);
    let sq = |s: shakmaty::Square| Square(s as u8);
    MoveInfo {
        role: mv.role().char(),
        from: mv.from().map(sq),
        to: sq(mv.to()),
        uci_from: uci.from().map(sq),
        uci_to: uci.to().map(sq),
        promotion: mv.promotion().map(|r| r.char()),
        san: plus.san.to_string(),
        suffix: plus.suffix.map(|s| s.char()),
    }
}

/// The position after the legal move at `index`, as FEN.
///
/// Plays entry `index` of `Position::legal_moves` with `Position::play` and
/// writes the result with `Fen::from_position` (`EnPassantMode::Legal`).
#[verifier::external_body]
pub fn fen_after_move(fen: &str, index: usize) -> (after: String)
    requires
        index < spec_legal_moves(fen@).len(),
    ensures
        after@ == spec_fen_after(fen@, index as nat),
{
    let pos: Chess = fen.parse::<Fen>().unwrap().into_position(CastlingMode::Standard).unwrap();
    let mv = pos.legal_moves()[index];
    Fen::from_position(&pos.play(mv).unwrap(), EnPassantMode::Legal).to_string()
}

/// Turn, check and material of the position a FEN describes.
///
/// Calls `Position::turn`, `Position::is_check` and
/// `Position::is_insufficient_material`; `None` when the text describes no
/// position.
#[verifier::external_body]
pub fn position_facts(fen: &str) -> (f: Option<PositionFacts>)
    ensures
        f == spec_facts(fen@),
{
    let Ok(setup) = fen.parse::<Fen>() else { return None };
    let Ok(pos) = setup.into_position::<Chess>(CastlingMode::Standard) else { return None };
    Some(PositionFacts {
        white_to_move: pos.turn().is_white(),
        in_check: pos.is_check(),
        insufficient_material: pos.is_insufficient_material(),
    })
}

/// Reads a FEN and writes the position back in `shakmaty`'s form.
///
/// Calls `Fen::from_str`, `Fen::into_position::<Chess>` in standard castling
/// mode and `Fen::from_position` (`EnPassantMode::Legal`); a failure carries
/// the `Display` text of `shakmaty`'s error.
#[verifier::external_body]
pub fn parse_fen(text: &str) -> (r: Result<String, (bool, String)>)
    ensures
        match (r, spec_fen_parse(text@)) {
            (Ok(f), Ok(g)) => f@ == g,
            (Err((a, d)), Err((b, e))) => a == b && d@ == e,
            _ => false,
        },
{
    let setup = match text.parse::<Fen>() {
        Ok(setup) => setup,
        Err(e) => return Err((true, e.to_string())),
    };
    match setup.into_position::<Chess>(CastlingMode::Standard) {
        Ok(pos) => Ok(Fen::from_position(&pos, EnPassantMode::Legal).to_string()),
        Err(e) => Err((false, e.to_string())),
    }
}

/// Resolves a move in standard algebraic notation in the position a FEN
/// describes.
///
/// Calls `San::from_str` and `San::to_move`, then gives the move in standard
/// UCI terms (`Move::to_uci`); a failure carries the `Display` text of
/// `shakmaty`'s error.
#[verifier::external_body]
pub fn san_lookup(fen: &str, text: &str) -> (r: Option<Result<UciKey, (bool, String)>>)
    ensures
        match (r, spec_san_lookup(fen@, text@)) {
            (None, None) => true,
            (Some(Ok(k)), Some(Ok(l))) => k == l,
            (Some(Err((a, d))), Some(Err((b, e)))) => a == b && d@ == e,
            _ => false,
        },
{
    let pos: Chess = fen.parse::<Fen>().ok()?.into_position(CastlingMode::Standard).ok()?;
    let san = match text.parse::<San>() {
        Ok(san) => san,
        Err(e) => return Some(Err((true, e.to_string()))),
    };
    Some(match san.to_move(&pos) {
        Ok(mv) => {
            let u = mv.to_uci(CastlingMode::Standard);
            Ok(UciKey { from: u.from().map(|s| Square(s as u8)), to: u.to().map(|s| Square(s as u8)), promotion: u.promotion().map(|r| r.char()) })
        },
        Err(e) => Err((false, e.to_string())),
    })
}

/// The piece on a square of the position a FEN describes: whether it is
/// White's, and the lowercase letter of its kind.
///
/// Reads the FEN (`Fen::from_str`, `into_position::<Chess>` in standard
/// castling mode) and calls `Board::piece_at`; `None` when the text describes
/// no position or the square is empty.
#[verifier::external_body]
pub fn piece_letter_at(fen: &str, square: Square) -> (p: Option<(bool, char)>)
    requires
        square.0 < 64,
    ensures
        p == spec_piece_at(fen@, square),
{
    let pos: Chess = fen.parse::<Fen>().ok()?.into_position(CastlingMode::Standard).ok()?;
    let piece = pos.board().piece_at(shakmaty::Square::new(square.0 as u32))?;
    Some((piece.color.is_white(), piece.role.char()))
}

/// The piece on a square, by its letter as the rules give it.
pub open spec fn piece_from_letter(p: Option<(bool, char)>) -> Option<(Color, Role)> {
    match p {
        Some((white, c)) => match Role::spec_from_char(c) {
            Some(r) => Some((if white { Color::White } else { Color::Black }, r)),
            None => None,
        },
        None => None,
    }
}

/// The piece on a square of the position a FEN describes.
pub fn piece_at(fen: &str, square: Square) -> (p: Option<(Color, Role)>)
    requires
        square.0 < 64,
    ensures
        p == piece_from_letter(spec_piece_at(fen@, square)),
{
    match piece_letter_at(fen, square) {
        Some((white, c)) => match Role::from_char(c) {
            Some(r) => Some((if white { Color::White } else { Color::Black }, r)),
            None => None,
        },
        None => None,
    }
}

/// All legal moves of the position a FEN describes.
pub fn legal_moves(fen: &str) -> (v: Vec<MoveInfo>)
    ensures
        v@.len() == spec_legal_moves(fen@).len(),
        forall|i: int| 0 <= i < v@.len() ==> (#[trigger] v@[i])@ == spec_legal_moves(fen@)[i],
        uci_keys_distinct(spec_legal_moves(fen@)),
{
    let n = legal_move_count(fen);
    proof {
        assert(spec_legal_moves(fen@).take(n as int) =~= spec_legal_moves(fen@));
    }
    let mut v: Vec<MoveInfo> = Vec::new();
    let mut i: usize = 0;
    while i < n
        invariant
            n == spec_legal_moves(fen@).len(),
            i <= n,
            v@.len() == i,
            forall|k: int| 0 <= k < i ==> (#[trigger] v@[k])@ == spec_legal_moves(fen@)[k],
        decreases n - i,
    {
        v.push(legal_move_at(fen, i));
        i = i + 1;
    }
    v
}

} // verus!
