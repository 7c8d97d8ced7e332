//! Which legal moves a partly typed move may stand for.
use vstd::prelude::*;

use crate::chess::game::{first_match, has_match, is_first_match, specs_of, Game};
use crate::chess::rules::{legal_moves, san_lookup, spec_legal_moves, spec_san_lookup, MoveInfo, MoveSpec, UciKey};
use crate::chess::types::Square;
use crate::server::game_session::{normalize_san, normalize_san_chars};
use crate::text::{chars_of, chars_starts_with, lowercase, spec_lowercase, string_of, text_is};

verus! {

/// What `str::to_uppercase` gives: the Unicode uppercase mapping of a text.
pub uninterp spec fn spec_uppercase(s: Seq<char>) -> Seq<char>;

/// Unicode uppercase of a text.
///
/// Calls `str::to_uppercase`. The result is named, not described: the
/// Unicode mapping tables are not restated here.
#[verifier::external_body]
pub fn uppercase(s: &str) -> (r: String)
    ensures
        r@ == spec_uppercase(s@),
{
    s.to_uppercase()
}

/// A text without its dashes.
pub open spec fn no_dash(s: Seq<char>) -> Seq<char> {
    s.filter(|c: char| c != '-')
}

/// How typed text is compared with the notation of the legal moves.
#[derive(Debug, Clone, Copy, PartialEq, Eq, Structural)]
pub enum MatchKind {
    /// Exactly this castling.
    Castle,
    /// The start of a castling, with or without its dashes.
    CastlePrefix,
    /// A move of the piece with this letter whose notation goes on with the rest of the text.
    Piece(char),
    /// A pawn move whose notation starts (in lowercase) with the text.
    Pawn,
}

/// Whether the legal move `m` fits the text `n` compared in the way `kind`.
pub open spec fn fits(kind: MatchKind, n: Seq<char>, m: MoveSpec) -> bool {
    match kind {
        MatchKind::Castle => m.san == n,
        MatchKind::CastlePrefix => n.is_prefix_of(m.san) || no_dash(n).is_prefix_of(no_dash(m.san)),
        MatchKind::Piece(r) => m.role == r && (n.len() <= 1 || (m.san.len() > 0 && n.drop_first().is_prefix_of(
            m.san.drop_first(),
        ))),
        MatchKind::Pawn => m.role == 'p' && spec_lowercase(n).is_prefix_of(spec_lowercase(m.san)),
    }
}

/// The legal moves that fit a text, in the order the rules list them.
pub open spec fn fitting(moves: Seq<MoveSpec>, kind: MatchKind, n: Seq<char>) -> Seq<MoveSpec> {
    moves.filter(|m: MoveSpec| fits(kind, n, m))
}

/// The lowercase letter of a piece letter as SAN writes it.
pub open spec fn piece_letter(c: char) -> Option<char> {
    if c == 'N' {
        Some('n')
    } else if c == 'B' {
        Some('b')
    } else if c == 'R' {
        Some('r')
    } else if c == 'Q' {
        Some('q')
    } else if c == 'K' {
        Some('k')
    } else {
        None
    }
}

/// A file letter, in either case, other than `B` (which names a bishop).
pub open spec fn file_letter(c: char) -> bool {
    ('a' <= c <= 'h') || ('A' <= c <= 'H')
}

/// The legal moves that a normalized, partly typed move `n` may stand for.
pub open spec fn by_prefix(moves: Seq<MoveSpec>, n: Seq<char>) -> Seq<MoveSpec> {
    if n.len() == 0 {
        Seq::empty()
    } else if n == "O-O"@ || n == "O-O-O"@ {
        fitting(moves, MatchKind::Castle, n)
    } else if n[0] == 'O' || n[0] == '0' {
        fitting(moves, MatchKind::CastlePrefix, spec_uppercase(n))
    } else if piece_letter(n[0]) is Some {
        fitting(moves, MatchKind::Piece(piece_letter(n[0])->Some_0), n)
    } else if file_letter(n[0]) {
        fitting(moves, MatchKind::Pawn, n)
    } else {
        Seq::empty()
    }
}

/// The legal moves a typed text may stand for: the one move it names when
/// it is complete SAN, else those whose notation it begins.
pub open spec fn spec_matching_moves(fen: Seq<char>, input: Seq<char>) -> Seq<MoveSpec> {
    let moves = spec_legal_moves(fen);
    match spec_san_lookup(fen, input) {
        Some(Ok(k)) => if has_match(moves, k) {
            seq![moves[first_match(moves, k)]]
        } else {
            by_prefix(moves, normalize_san(input))
        },
        _ => by_prefix(moves, normalize_san(input)),
    }
}

proof fn lemma_filter_take<A>(s: Seq<A>, f: spec_fn(A) -> bool, i: int)
    requires
        0 <= i < s.len(),
    ensures
        s.take(i + 1).filter(f) == if f(s[i]) {
            s.take(i).filter(f).push(s[i])
        } else {
            s.take(i).filter(f)
        },
{
    reveal(Seq::filter);
    assert(s.take(i + 1).drop_last() =~= s.take(i));
}

/// A text without its dashes.
fn without_dashes(s: &[char]) -> (r: Vec<char>)
    ensures
        r@ == no_dash(s@),
{
    let mut r: Vec<char> = Vec::new();
    let mut i: usize = 0;
    proof {
        reveal(Seq::filter);
        assert(s@.take(0) =~= Seq::<char>::empty());
    }
    while i < s.len()
        invariant
            i <= s@.len(),
            r@ == no_dash(s@.take(i as int)),
        decreases s@.len() - i,
    {
        proof {
            lemma_filter_take(s@, |c: char| c != '-', i as int);
        }
        if s[i] != '-' {
            r.push(s[i]);
        }
        i = i + 1;
    }
    proof {
        assert(s@.take(s@.len() as int) =~= s@);
    }
    r
}

fn lower_chars(s: &[char]) -> (r: Vec<char>)
    ensures
        r@ == spec_lowercase(s@),
{
    let text = string_of(s);
    chars_of(lowercase(text.as_str()).as_str())
}

/// Whether a legal move fits a text compared in the way `kind`.
fn fits_move(kind: MatchKind, n: &[char], m: &MoveInfo) -> (b: bool)
    ensures
        b == fits(kind, n@, m@),
{
    let san = chars_of(m.san.as_str());
    match kind {
        MatchKind::Castle => crate::text::chars_eq(san.as_slice(), n),
        MatchKind::CastlePrefix => {
            if chars_starts_with(san.as_slice(), n) {
                true
            } else {
                let a = without_dashes(san.as_slice());
                let b = without_dashes(n);
                chars_starts_with(a.as_slice(), b.as_slice())
            }
        },
        MatchKind::Piece(r) => {
            if m.role != r {
                false
            } else if n.len() <= 1 {
                true
            } else if san.len() == 0 {
                false
            } else {
                let rest = crate::text::slice_chars(n, 1, n.len());
                let tail = crate::text::slice_chars(san.as_slice(), 1, san.len());
                proof {
                    assert(rest@ =~= n@.drop_first());
                    assert(tail@ =~= m@.san.drop_first());
                }
                chars_starts_with(tail.as_slice(), rest.as_slice())
            }
        },
        MatchKind::Pawn => {
            if m.role != 'p' {
                false
            } else {
                let a = lower_chars(san.as_slice());
                let b = lower_chars(n);
                chars_starts_with(a.as_slice(), b.as_slice())
            }
        },
    }
}

/// The legal moves that fit a text, in order.
fn fitting_moves(moves: &Vec<MoveInfo>, kind: MatchKind, n: &[char]) -> (r: Vec<MoveInfo>)
    ensures
        specs_of(r@) == fitting(specs_of(moves@), kind, n@),
{
    let ghost ms = specs_of(moves@);
    let mut r: Vec<MoveInfo> = Vec::new();
    let mut i: usize = 0;
    proof {
        reveal(Seq::filter);
        assert(ms.take(0) =~= Seq::<MoveSpec>::empty());
        assert(specs_of(r@) =~= Seq::<MoveSpec>::empty());
    }
    while i < moves.len()
        invariant
            ms == specs_of(moves@),
            i <= moves@.len(),
            specs_of(r@) == fitting(ms.take(i as int), kind, n@),
        decreases moves@.len() - i,
    {
        proof {
            lemma_filter_take(ms, |m: MoveSpec| fits(kind, n@, m), i as int);
        }
        if fits_move(kind, n, &moves[i]) {
            let ghost before = r@;
            r.push(moves[i].clone());
            proof {
                assert(specs_of(r@) =~= specs_of(before).push(ms[i as int]));
            }
        }
        i = i + 1;
    }
    proof {
        assert(ms.take(moves@.len() as int) =~= ms);
    }
    r
}

/// The legal moves of a position that a typed text may stand for.
pub fn matching_moves(fen: &str, input: &str) -> (r: Vec<MoveInfo>)
    ensures
        specs_of(r@) == spec_matching_moves(fen@, input@),
{
    let moves = legal_moves(fen);
    let ghost ms = spec_legal_moves(fen@);
    proof {
        assert(specs_of(moves@) =~= ms);
    }
    match san_lookup(fen, input) {
        Some(Ok(k)) => match Game::find_key(&moves, k) {
            Some(i) => {
                proof {
                    crate::chess::game::lemma_first_match_unique(ms, k, i as int);
                }
                let r = vec![moves[i].clone()];
                proof {
                    assert(specs_of(r@) =~= seq![ms[i as int]]);
                }
                return r;
            },
            None => {},
        },
        _ => {},
    }
    let n = normalize_san_chars(chars_of(input).as_slice());
    if n.len() == 0 {
        let r: Vec<MoveInfo> = Vec::new();
        proof {
            assert(specs_of(r@) =~= Seq::<MoveSpec>::empty());
        }
        return r;
    }
    if text_is(n.as_slice(), "O-O") || text_is(n.as_slice(), "O-O-O") {
        return fitting_moves(&moves, MatchKind::Castle, n.as_slice());
    }
    let c = n[0];
    if c == 'O' || c == '0' {
        let p = chars_of(uppercase(string_of(n.as_slice()).as_str()).as_str());
        return fitting_moves(&moves, MatchKind::CastlePrefix, p.as_slice());
    }
    let piece = if c == 'N' {
        Some('n')
    } else if c == 'B' {
        Some('b')
    } else if c == 'R' {
        Some('r')
    } else if c == 'Q' {
        Some('q')
    } else if c == 'K' {
        Some('k')
    } else {
        None
    };
    match piece {
        Some(r) => return fitting_moves(&moves, MatchKind::Piece(r), n.as_slice()),
        None => {},
    }
    if ('a' <= c && c <= 'h') || ('A' <= c && c <= 'H') {
        return fitting_moves(&moves, MatchKind::Pawn, n.as_slice());
    }
    let r: Vec<MoveInfo> = Vec::new();
    proof {
        assert(specs_of(r@) =~= Seq::<MoveSpec>::empty());
    }
    r
}

/// The squares of a list, each kept at its first place.
pub open spec fn distinct(s: Seq<Square>) -> Seq<Square>
    decreases s.len(),
{
    if s.len() == 0 {
        s
    } else {
        let r = distinct(s.drop_last());
        if r.contains(s.last()) {
            r
        } else {
            r.push(s.last())
        }
    }
}

/// The squares the moves start from (castling included), in order.
pub open spec fn origins_of(ms: Seq<MoveSpec>) -> Seq<Square>
    decreases ms.len(),
{
    if ms.len() == 0 {
        Seq::empty()
    } else {
        let r = origins_of(ms.drop_last());
        match ms.last().from {
            Some(f) => r.push(f),
            None => r,
        }
    }
}

/// The squares the moves go to, in the rules' own terms, in order.
pub open spec fn targets_of(ms: Seq<MoveSpec>) -> Seq<Square> {
    ms.map_values(|m: MoveSpec| m.to)
}

fn push_new(v: &mut Vec<Square>, sq: Square)
    ensures
        final(v)@ == if old(v)@.contains(sq) {
            old(v)@
        } else {
            old(v)@.push(sq)
        },
{
    let mut i: usize = 0;
    while i < v.len()
        invariant
            i <= v@.len(),
            forall|k: int| 0 <= k < i ==> v@[k] != sq,
        decreases v@.len() - i,
    {
        if v[i] == sq {
            return;
        }
        i = i + 1;
    }
    v.push(sq);
}

/// The squares the moves start from and go to, each once, in order.
pub fn move_squares(moves: &[MoveInfo]) -> (r: (Vec<Square>, Vec<Square>))
    ensures
        r.0@ == distinct(origins_of(specs_of(moves@))),
        r.1@ == distinct(targets_of(specs_of(moves@))),
{
    let ghost ms = specs_of(moves@);
    let mut origins: Vec<Square> = Vec::new();
    let mut targets: Vec<Square> = Vec::new();
    let mut i: usize = 0;
    proof {
        assert(ms.take(0) =~= Seq::<MoveSpec>::empty());
        assert(targets_of(ms.take(0)) =~= Seq::<Square>::empty());
    }
    while i < moves.len()
        invariant
            ms == specs_of(moves@),
            i <= moves@.len(),
            origins@ == distinct(origins_of(ms.take(i as int))),
            targets@ == distinct(targets_of(ms.take(i as int))),
        decreases moves@.len() - i,
    {
        proof {
            assert(ms.take(i + 1).drop_last() =~= ms.take(i as int));
            assert(targets_of(ms.take(i + 1)) =~= targets_of(ms.take(i as int)).push(moves@[i as int].to));
            assert(targets_of(ms.take(i + 1)).drop_last() =~= targets_of(ms.take(i as int)));
        }
        match moves[i].from {
            Some(f) => {
                proof {
                    assert(origins_of(ms.take(i + 1)) == origins_of(ms.take(i as int)).push(f));
                    assert(origins_of(ms.take(i + 1)).drop_last() =~= origins_of(ms.take(i as int)));
                }
                push_new(&mut origins, f);
            },
            None => {},
        }
        push_new(&mut targets, moves[i].to);
        i = i + 1;
    }
    proof {
        assert(ms.take(moves@.len() as int) =~= ms);
    }
    (origins, targets)
}

} // verus!
