//! A chess game: the position, the moves played and the result.
use vstd::prelude::*;

use super::rules::{
    fen_after_move, legal_move_count, legal_moves, parse_fen, position_facts, san_lookup,
    spec_facts, spec_fen_after, spec_fen_parse, spec_legal_moves, spec_san_lookup, start_fen,
    start_fen_text, uci_keys_distinct, MoveInfo, MoveSpec, UciKey,
};
use super::types::{Color, Square};
use crate::text::{byte_len, chars_of, prefixed, slice_chars, string_of, trim, trim_chars, utf8_len};

verus! {

/// How a game stands.
#[derive(Debug, Clone, Copy, PartialEq, Eq, Structural)]
pub enum GameResult {
    Ongoing,
    WhiteWins,
    BlackWins,
    Draw,
    WhiteResigned,
    BlackResigned,
}

/// The outcome the rules give a position.
#[derive(Debug, Clone, Copy, PartialEq, Eq, Structural)]
pub enum Outcome {
    Decisive(Color),
    Draw,
    Unknown,
}

/// The value of a [`Game`].
pub struct GameView {
    pub fen: Seq<char>,
    pub moves: Seq<MoveSpec>,
    pub sans: Seq<Seq<char>>,
    pub result: GameResult,
}

pub open spec fn specs_of(v: Seq<MoveInfo>) -> Seq<MoveSpec> {
    v.map_values(|m: MoveInfo| m@)
}

pub open spec fn texts_of(v: Seq<String>) -> Seq<Seq<char>> {
    v.map_values(|s: String| s@)
}

/// The UCI identification of a move.
pub open spec fn key_of(m: MoveSpec) -> UciKey {
    UciKey { from: m.uci_from, to: m.uci_to, promotion: m.promotion }
}

pub open spec fn has_match(ms: Seq<MoveSpec>, k: UciKey) -> bool {
    exists|i: int| 0 <= i < ms.len() && #[trigger] key_of(ms[i]) == k
}

/// `i` is the first move of `ms` identified by `k`.
pub open spec fn is_first_match(ms: Seq<MoveSpec>, k: UciKey, i: int) -> bool {
    &&& 0 <= i < ms.len()
    &&& key_of(ms[i]) == k
    &&& forall|j: int| 0 <= j < i ==> #[trigger] key_of(ms[j]) != k
}

pub open spec fn first_match(ms: Seq<MoveSpec>, k: UciKey) -> int {
    choose|i: int| is_first_match(ms, k, i)
}

pub proof fn lemma_first_match_unique(ms: Seq<MoveSpec>, k: UciKey, i: int)
    requires
        is_first_match(ms, k, i),
    ensures
        first_match(ms, k) == i,
        has_match(ms, k),
{
    let j = first_match(ms, k);
    assert(is_first_match(ms, k, j));
    if j < i {
        assert(key_of(ms[j]) != k);
    }
    if i < j {
        assert(key_of(ms[i]) != k);
    }
}

/// A move's notation with its check or mate mark, as `SanPlus` writes it.
pub open spec fn san_plus(m: MoveSpec) -> Seq<char> {
    match m.suffix {
        Some(c) => m.san.push(c),
        None => m.san,
    }
}

/// The result once a move has reached the position `fen`: checkmate decides
/// the game, stalemate and insufficient material draw it.
pub open spec fn settled_result(fen: Seq<char>, prior: GameResult) -> GameResult {
    match spec_facts(fen) {
        Some(f) => if spec_legal_moves(fen).len() == 0 {
            if f.in_check {
                if f.white_to_move {
                    GameResult::BlackWins
                } else {
                    GameResult::WhiteWins
                }
            } else {
                GameResult::Draw
            }
        } else if f.insufficient_material {
            GameResult::Draw
        } else {
            prior
        },
        None => prior,
    }
}

/// The game after the legal move at `i` is played.
pub open spec fn after_move(g: GameView, i: int) -> GameView {
    let m = spec_legal_moves(g.fen)[i];
    let fen = spec_fen_after(g.fen, i as nat);
    GameView {
        fen: fen,
        moves: g.moves.push(m),
        sans: g.sans.push(san_plus(m)),
        result: settled_result(fen, g.result),
    }
}

pub open spec fn over_message() -> Seq<char> {
    "Game is already over"@
}

pub open spec fn illegal_message() -> Seq<char> {
    "Illegal move"@
}

/// Playing the move identified by `k`: refused once the game is over or when
/// no legal move has this identification.
pub open spec fn play_key_spec(g: GameView, k: UciKey) -> (Result<(), Seq<char>>, GameView) {
    if g.result != GameResult::Ongoing {
        (Err(over_message()), g)
    } else if has_match(spec_legal_moves(g.fen), k) {
        (Ok(()), after_move(g, first_match(spec_legal_moves(g.fen), k)))
    } else {
        (Err(illegal_message()), g)
    }
}

/// The promotion named by the fifth character of a UCI move.
pub open spec fn uci_promotion(t: Seq<char>) -> Option<char> {
    if t.len() > 4 && (t[4] == 'q' || t[4] == 'r' || t[4] == 'b' || t[4] == 'n') {
        Some(t[4])
    } else {
        None
    }
}

/// `n`, or the length of `t` when that is shorter.
pub open spec fn min_len(t: Seq<char>, n: int) -> int {
    if t.len() < n {
        t.len() as int
    } else {
        n
    }
}

/// Reading a (trimmed) move in UCI notation, such as `e2e4` or `a7a8q`: a
/// text shorter than four bytes is refused outright, then the first two
/// characters name the origin and the next two the destination.
pub open spec fn parse_uci(t: Seq<char>) -> Result<UciKey, Seq<char>> {
    if utf8_len(t) < 4 {
        Err("Invalid UCI notation"@)
    } else if Square::spec_parse(t.subrange(0, min_len(t, 2))) is None {
        Err("Invalid from square"@)
    } else if Square::spec_parse(t.subrange(2, min_len(t, 4))) is None {
        Err("Invalid to square"@)
    } else {
        Ok(
            UciKey {
                from: Square::spec_parse(t.subrange(0, 2)),
                to: Square::spec_parse(t.subrange(2, 4)),
                promotion: uci_promotion(t),
            },
        )
    }
}

pub open spec fn uci_play_spec(g: GameView, text: Seq<char>) -> (Result<(), Seq<char>>, GameView) {
    if g.result != GameResult::Ongoing {
        (Err(over_message()), g)
    } else {
        match parse_uci(trim(text)) {
            Err(msg) => (Err(msg), g),
            Ok(k) => play_key_spec(g, k),
        }
    }
}

pub open spec fn san_play_spec(g: GameView, text: Seq<char>) -> (Result<(), Seq<char>>, GameView) {
    if g.result != GameResult::Ongoing {
        (Err(over_message()), g)
    } else {
        match spec_san_lookup(g.fen, text) {
            None => (Err(illegal_message()), g),
            Some(Err((syntax, detail))) => (
                Err(
                    if syntax {
                        "Invalid SAN: "@ + detail
                    } else {
                        "Illegal move: "@ + detail
                    },
                ),
                g,
            ),
            Some(Ok(k)) => play_key_spec(g, k),
        }
    }
}

/// What a `Result<(), String>` says, with the message as characters.
pub open spec fn status_of(r: Result<(), String>) -> Result<(), Seq<char>> {
    match r {
        Ok(()) => Ok(()),
        Err(e) => Err(e@),
    }
}

/// A chess game in progress or finished.
pub struct Game {
    fen: String,
    move_history: Vec<MoveInfo>,
    san_history: Vec<String>,
    result: GameResult,
}

impl View for Game {
    type V = GameView;

    closed spec fn view(&self) -> GameView {
        GameView {
            fen: self.fen@,
            moves: specs_of(self.move_history@),
            sans: texts_of(self.san_history@),
            result: self.result,
        }
    }
}

fn clone_moves(v: &Vec<MoveInfo>) -> (r: Vec<MoveInfo>)
    ensures
        specs_of(r@) == specs_of(v@),
{
    let mut r: Vec<MoveInfo> = Vec::new();
    let mut i: usize = 0;
    while i < v.len()
        invariant
            i <= v@.len(),
            r@.len() == i,
            forall|k: int| 0 <= k < i ==> (#[trigger] r@[k])@ == v@[k]@,
        decreases v@.len() - i,
    {
        r.push(v[i].clone());
        i = i + 1;
    }
    proof {
        assert(specs_of(r@) =~= specs_of(v@));
    }
    r
}

fn clone_texts(v: &Vec<String>) -> (r: Vec<String>)
    ensures
        texts_of(r@) == texts_of(v@),
{
    let mut r: Vec<String> = Vec::new();
    let mut i: usize = 0;
    while i < v.len()
        invariant
            i <= v@.len(),
            r@.len() == i,
            forall|k: int| 0 <= k < i ==> (#[trigger] r@[k])@ == v@[k]@,
        decreases v@.len() - i,
    {
        r.push(v[i].clone());
        i = i + 1;
    }
    proof {
        assert(texts_of(r@) =~= texts_of(v@));
    }
    r
}

impl Clone for Game {
    fn clone(&self) -> (g: Game)
        ensures
            g@ == self@,
    {
        Game {
            fen: self.fen.clone(),
            move_history: clone_moves(&self.move_history),
            san_history: clone_texts(&self.san_history),
            result: self.result,
        }
    }
}

impl Game {
    /// The value of a game that has just begun.
    pub open spec fn new_spec() -> GameView {
        GameView {
            fen: start_fen_text(),
            moves: Seq::empty(),
            sans: Seq::empty(),
            result: GameResult::Ongoing,
        }
    }

    /// A game from the standard starting position.
    pub fn new() -> (g: Game)
        ensures
            g@ == Game::new_spec(),
    {
        let g = Game {
            fen: start_fen(),
            move_history: Vec::new(),
            san_history: Vec::new(),
            result: GameResult::Ongoing,
        };
        proof {
            assert(specs_of(g.move_history@) =~= Seq::<MoveSpec>::empty());
            assert(texts_of(g.san_history@) =~= Seq::<Seq<char>>::empty());
        }
        g
    }

    /// A game from the position a FEN describes, with no moves played.
    pub fn from_fen(fen: &str) -> (r: Result<Game, String>)
        ensures
            match (r, spec_fen_parse(fen@)) {
                (Ok(g), Ok(f)) => g@.fen == f && g@.moves.len() == 0 && g@.sans.len() == 0
                    && g@.result == GameResult::Ongoing,
                (Err(e), Err((true, d))) => e@ == "Invalid FEN: "@ + d,
                (Err(e), Err((false, d))) => e@ == "Invalid position: "@ + d,
                _ => false,
            },
    {
        match parse_fen(fen) {
            Ok(f) => {
                let g = Game {
                    fen: f,
                    move_history: Vec::new(),
                    san_history: Vec::new(),
                    result: GameResult::Ongoing,
                };
                proof {
                    assert(specs_of(g.move_history@) =~= Seq::<MoveSpec>::empty());
                    assert(texts_of(g.san_history@) =~= Seq::<Seq<char>>::empty());
                }
                Ok(g)
            },
            Err((syntax, detail)) => {
                let d = chars_of(detail.as_str());
                if syntax {
                    Err(prefixed("Invalid FEN: ", d.as_slice()))
                } else {
                    Err(prefixed("Invalid position: ", d.as_slice()))
                }
            },
        }
    }

    pub fn find_key(moves: &Vec<MoveInfo>, k: UciKey) -> (r: Option<usize>)
        ensures
            match r {
                Some(i) => is_first_match(specs_of(moves@), k, i as int),
                None => !has_match(specs_of(moves@), k),
            },
    {
        let ghost ms = specs_of(moves@);
        let mut i: usize = 0;
        while i < moves.len()
            invariant
                ms == specs_of(moves@),
                i <= moves@.len(),
                forall|j: int| 0 <= j < i ==> #[trigger] key_of(ms[j]) != k,
            decreases moves@.len() - i,
        {
            let m = &moves[i];
            let key = UciKey { from: m.uci_from, to: m.uci_to, promotion: m.promotion };
            proof {
                assert(ms[i as int] == m@);
            }
            if key == k {
                return Some(i);
            }
            i = i + 1;
        }
        None
    }

    /// The notation of a move with its check or mate mark.
    fn san_plus_text(m: &MoveInfo) -> (s: String)
        ensures
            s@ == san_plus(m@),
    {
        match m.suffix {
            Some(c) => {
                let mut v = chars_of(m.san.as_str());
                v.push(c);
                string_of(v.as_slice())
            },
            None => m.san.clone(),
        }
    }

    /// Settles the result from the position reached.
    fn update_result(&mut self)
        ensures
            final(self)@ == (GameView { result: settled_result(old(self)@.fen, old(self)@.result), ..old(self)@ }),
    {
        match position_facts(self.fen.as_str()) {
            Some(f) => {
                if legal_move_count(self.fen.as_str()) == 0 {
                    if f.in_check {
                        if f.white_to_move {
                            self.result = GameResult::BlackWins;
                        } else {
                            self.result = GameResult::WhiteWins;
                        }
                    } else {
                        self.result = GameResult::Draw;
                    }
                } else if f.insufficient_material {
                    self.result = GameResult::Draw;
                }
            },
            None => {},
        }
    }

    /// Plays the move identified by `k` if it is legal and the game goes on.
    fn play_key(&mut self, k: UciKey) -> (r: Result<(), String>)
        ensures
            (status_of(r), final(self)@) == play_key_spec(old(self)@, k),
    {
        if self.result != GameResult::Ongoing {
            return Err(String::from_str("Game is already over"));
        }
        let moves = legal_moves(self.fen.as_str());
        proof {
            assert(specs_of(moves@) =~= spec_legal_moves(self@.fen));
        }
        match Self::find_key(&moves, k) {
            None => Err(String::from_str("Illegal move")),
            Some(i) => {
                proof {
                    lemma_first_match_unique(spec_legal_moves(self@.fen), k, i as int);
                }
                let after = fen_after_move(self.fen.as_str(), i);
                let m = moves[i].clone();
                let san = Self::san_plus_text(&m);
                self.fen = after;
                self.move_history.push(m);
                self.san_history.push(san);
                proof {
                    assert(specs_of(self.move_history@) =~= specs_of(old(self).move_history@).push(
                        m@,
                    ));
                    assert(texts_of(self.san_history@) =~= texts_of(old(self).san_history@).push(
                        san@,
                    ));
                }
                self.update_result();
                Ok(())
            },
        }
    }

    /// Plays a move given in standard algebraic notation, such as `Nf3`,
    /// `O-O` or `a8=Q+`.
    pub fn play_san(&mut self, san_str: &str) -> (r: Result<(), String>)
        ensures
            (status_of(r), final(self)@) == san_play_spec(old(self)@, san_str@),
    {
        if self.result != GameResult::Ongoing {
            return Err(String::from_str("Game is already over"));
        }
        match san_lookup(self.fen.as_str(), san_str) {
            None => Err(String::from_str("Illegal move")),
            Some(Err((syntax, detail))) => {
                let d = chars_of(detail.as_str());
                if syntax {
                    Err(prefixed("Invalid SAN: ", d.as_slice()))
                } else {
                    Err(prefixed("Illegal move: ", d.as_slice()))
                }
            },
            Some(Ok(k)) => self.play_key(k),
        }
    }

    /// Plays a move given in UCI notation, such as `e2e4`, `e1g1` or `a7a8q`.
    pub fn play_uci(&mut self, uci_str: &str) -> (r: Result<(), String>)
        ensures
            (status_of(r), final(self)@) == uci_play_spec(old(self)@, uci_str@),
    {
        if self.result != GameResult::Ongoing {
            return Err(String::from_str("Game is already over"));
        }
        let raw = chars_of(uci_str);
        let t = trim_chars(raw.as_slice());
        let text = string_of(t.as_slice());
        if byte_len(text.as_str()) < 4 {
            return Err(String::from_str("Invalid UCI notation"));
        }
        let n = t.len();
        let from = match Square::parse(slice_chars(t.as_slice(), 0, if n < 2 { n } else { 2 }).as_slice()) {
            Some(s) => s,
            None => return Err(String::from_str("Invalid from square")),
        };
        let to = match Square::parse(slice_chars(t.as_slice(), 2, if n < 4 { n } else { 4 }).as_slice()) {
            Some(s) => s,
            None => return Err(String::from_str("Invalid to square")),
        };
        let promotion = if t.len() > 4 && (t[4] == 'q' || t[4] == 'r' || t[4] == 'b' || t[4]
            == 'n') {
            Some(t[4])
        } else {
            None
        };
        let k = UciKey { from: Some(from), to: Some(to), promotion };
        proof {
            assert(parse_uci(trim(uci_str@)) == Ok::<UciKey, Seq<char>>(k));
        }
        self.play_key(k)
    }

    /// Plays one of the legal moves of the position.
    pub fn play_move(&mut self, mv: &MoveInfo) -> (r: Result<(), String>)
        ensures
            (status_of(r), final(self)@) == play_key_spec(old(self)@, key_of(mv@)),
    {
        self.play_key(UciKey { from: mv.uci_from, to: mv.uci_to, promotion: mv.promotion })
    }

    /// Ends the game by the resignation of one side.
    pub fn resign(&mut self, color: Color)
        ensures
            final(self)@ == (GameView {
                result: match color {
                    Color::White => GameResult::WhiteResigned,
                    Color::Black => GameResult::BlackResigned,
                },
                ..old(self)@
            }),
    {
        self.result = match color {
            Color::White => GameResult::WhiteResigned,
            Color::Black => GameResult::BlackResigned,
        };
    }

    /// Records a result decided outside the board, such as an agreed draw.
    pub fn set_result(&mut self, result: GameResult)
        ensures
            final(self)@ == (GameView { result: result, ..old(self)@ }),
    {
        self.result = result;
    }

    /// The legal moves of the current position.
    pub fn legal_moves(&self) -> (v: Vec<MoveInfo>)
        ensures
            specs_of(v@) == spec_legal_moves(self@.fen),
            uci_keys_distinct(spec_legal_moves(self@.fen)),
    {
        let v = legal_moves(self.fen.as_str());
        proof {
            assert(specs_of(v@) =~= spec_legal_moves(self@.fen));
        }
        v
    }

    /// Whether a move is among the legal moves of the current position.
    pub fn is_legal(&self, mv: &MoveInfo) -> (b: bool)
        ensures
            b == has_match(spec_legal_moves(self@.fen), key_of(mv@)),
    {
        let moves = self.legal_moves();
        Self::find_key(&moves, UciKey { from: mv.uci_from, to: mv.uci_to, promotion: mv.promotion }).is_some()
    }

    /// Whether the side to move is in check.
    pub fn is_check(&self) -> (b: bool)
        ensures
            b == (spec_facts(self@.fen) matches Some(f) && f.in_check),
    {
        match position_facts(self.fen.as_str()) {
            Some(f) => f.in_check,
            None => false,
        }
    }

    /// Whether the side to move is mated: in check with no legal move.
    pub fn is_checkmate(&self) -> (b: bool)
        ensures
            b == (spec_facts(self@.fen) matches Some(f) && f.in_check && spec_legal_moves(
                self@.fen,
            ).len() == 0),
    {
        match position_facts(self.fen.as_str()) {
            Some(f) => f.in_check && legal_move_count(self.fen.as_str()) == 0,
            None => false,
        }
    }

    /// Whether the side to move is stalemated: not in check, no legal move.
    pub fn is_stalemate(&self) -> (b: bool)
        ensures
            b == (spec_facts(self@.fen) matches Some(f) && !f.in_check && spec_legal_moves(
                self@.fen,
            ).len() == 0),
    {
        match position_facts(self.fen.as_str()) {
            Some(f) => !f.in_check && legal_move_count(self.fen.as_str()) == 0,
            None => false,
        }
    }

    /// Whether the game has ended, by a result or by the position.
    pub fn is_game_over(&self) -> (b: bool)
        ensures
            b == (self@.result != GameResult::Ongoing || spec_legal_moves(self@.fen).len() == 0
                || (spec_facts(self@.fen) matches Some(f) && f.insufficient_material)),
    {
        if self.result != GameResult::Ongoing {
            return true;
        }
        if legal_move_count(self.fen.as_str()) == 0 {
            return true;
        }
        match position_facts(self.fen.as_str()) {
            Some(f) => f.insufficient_material,
            None => false,
        }
    }

    /// The outcome the rules give the current position.
    pub fn outcome(&self) -> (o: Outcome)
        ensures
            o == (match spec_facts(self@.fen) {
                Some(f) => if spec_legal_moves(self@.fen).len() == 0 {
                    if f.in_check {
                        Outcome::Decisive(if f.white_to_move { Color::Black } else { Color::White })
                    } else {
                        Outcome::Draw
                    }
                } else if f.insufficient_material {
                    Outcome::Draw
                } else {
                    Outcome::Unknown
                },
                None => Outcome::Unknown,
            }),
    {
        match position_facts(self.fen.as_str()) {
            Some(f) => {
                if legal_move_count(self.fen.as_str()) == 0 {
                    if f.in_check {
                        Outcome::Decisive(if f.white_to_move { Color::Black } else { Color::White })
                    } else {
                        Outcome::Draw
                    }
                } else if f.insufficient_material {
                    Outcome::Draw
                } else {
                    Outcome::Unknown
                }
            },
            None => Outcome::Unknown,
        }
    }

    /// The side to move.
    pub fn turn(&self) -> (c: Color)
        ensures
            c == (match spec_facts(self@.fen) {
                Some(f) => if f.white_to_move { Color::White } else { Color::Black },
                None => Color::White,
            }),
    {
        match position_facts(self.fen.as_str()) {
            Some(f) => if f.white_to_move { Color::White } else { Color::Black },
            None => Color::White,
        }
    }

    /// The current position as FEN.
    pub fn fen(&self) -> (s: String)
        ensures
            s@ == self@.fen,
    {
        self.fen.clone()
    }

    pub fn result(&self) -> (r: GameResult)
        ensures
            r == self@.result,
    {
        self.result
    }

    /// The moves played, first to last.
    pub fn move_history(&self) -> (h: &[MoveInfo])
        ensures
            specs_of(h@) == self@.moves,
    {
        self.move_history.as_slice()
    }

    /// The moves played in SAN with check marks, first to last.
    pub fn san_history(&self) -> (h: &[String])
        ensures
            texts_of(h@) == self@.sans,
    {
        self.san_history.as_slice()
    }

    pub fn move_count(&self) -> (n: usize)
        ensures
            n == self@.moves.len(),
    {
        self.move_history.len()
    }

    /// The notation of a move (without check marks).
    pub fn format_move_san(&self, mv: &MoveInfo) -> (s: String)
        ensures
            s@ == mv@.san,
    {
        mv.san.clone()
    }
}

} // verus!
