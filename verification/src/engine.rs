//! The text of the UCI conversation with a chess engine. The engine runs as
//! a separate program driven by the embedding application; these functions
//! write what is sent to it and read what it answers.
use vstd::prelude::*;

use crate::chess::game::{specs_of, Game};
use crate::chess::rules::MoveSpec;
use crate::server::game_session::{uci_of, uci_text};
use crate::text::{chars_of, chars_eq, chars_starts_with, decimal, decimal_chars, is_space, is_space_char, prefixed, string_of};

verus! {

/// How a line the engine wrote stands to the answer awaited.
#[derive(Debug, Clone, Copy, PartialEq, Eq, Structural)]
pub enum LineVerdict {
    /// The engine reports an error (`info string error ...`).
    Error,
    /// The awaited answer: the word itself, or the word and more after a space.
    Answer,
    /// Anything else, to be skipped.
    Other,
}

/// How a line stands to the awaited answer `word`.
pub open spec fn spec_classify(line: Seq<char>, word: Seq<char>) -> LineVerdict {
    if "info string error "@.is_prefix_of(line) {
        LineVerdict::Error
    } else if line == word || (word + " "@).is_prefix_of(line) {
        LineVerdict::Answer
    } else {
        LineVerdict::Other
    }
}

/// Whether a line of the engine is an error, the awaited answer, or other.
pub fn classify_line(line: &str, word: &str) -> (v: LineVerdict)
    ensures
        v == spec_classify(line@, word@),
{
    let l = chars_of(line);
    let err = chars_of("info string error ");
    if chars_starts_with(l.as_slice(), err.as_slice()) {
        return LineVerdict::Error;
    }
    let w = chars_of(word);
    let mut ws = chars_of(word);
    ws.push(' ');
    proof {
        reveal_strlit(" ");
        assert(ws@ =~= word@ + " "@);
    }
    if chars_eq(l.as_slice(), w.as_slice()) || chars_starts_with(l.as_slice(), ws.as_slice()) {
        LineVerdict::Answer
    } else {
        LineVerdict::Other
    }
}

/// The options set before a game: one thread, 16 MB of hash, full strength
/// limits off, and the skill level (at most 20).
pub open spec fn spec_options_command(level: u8) -> Seq<char> {
    "setoption name Threads value 1\nsetoption name Hash value 16\nsetoption name UCI_LimitStrength value false\nsetoption name Skill Level value "@
        + decimal(if level <= 20 { level as nat } else { 20 }) + "\n"@
}

pub fn options_command(level: u8) -> (s: String)
    ensures
        s@ == spec_options_command(level),
{
    let capped: u8 = if level <= 20 { level } else { 20 };
    let mut digits = decimal_chars(capped as u64);
    digits.push('\n');
    proof {
        reveal_strlit("\n");
        assert(digits@ =~= decimal(capped as nat) + "\n"@);
    }
    let s = prefixed(
        "setoption name Threads value 1\nsetoption name Hash value 16\nsetoption name UCI_LimitStrength value false\nsetoption name Skill Level value ",
        digits.as_slice(),
    );
    proof {
        assert(s@ =~= spec_options_command(level));
    }
    s
}

/// The command naming the evaluation network; a path that would break the
/// line is refused.
pub fn eval_file_command(network: &str) -> (r: Result<String, String>)
    ensures
        match r {
            Ok(s) => !network@.contains('\n') && !network@.contains('\r') && s@ == "setoption name EvalFile value "@
                + network@ + "\n"@,
            Err(e) => (network@.contains('\n') || network@.contains('\r')) && e@ == "Invalid EvalFile path"@,
        },
{
    let v = chars_of(network);
    let mut i: usize = 0;
    while i < v.len()
        invariant
            v@ == network@,
            i <= v@.len(),
            forall|k: int| 0 <= k < i ==> v@[k] != '\n' && v@[k] != '\r',
        decreases v@.len() - i,
    {
        if v[i] == '\n' || v[i] == '\r' {
            proof {
                assert(network@.contains(v@[i as int]));
            }
            return Err(String::from_str("Invalid EvalFile path"));
        }
        i = i + 1;
    }
    let mut tail = chars_of(network);
    tail.push('\n');
    proof {
        reveal_strlit("\n");
        assert(tail@ =~= network@ + "\n"@);
    }
    let s = prefixed("setoption name EvalFile value ", tail.as_slice());
    proof {
        assert(s@ =~= "setoption name EvalFile value "@ + network@ + "\n"@);
    }
    Ok(s)
}

/// The moves of a game in UCI notation, separated by single spaces.
pub open spec fn joined_moves(ms: Seq<MoveSpec>) -> Seq<char>
    decreases ms.len(),
{
    if ms.len() == 0 {
        Seq::empty()
    } else if ms.len() == 1 {
        uci_text(ms[0])
    } else {
        joined_moves(ms.drop_last()) + " "@ + uci_text(ms.last())
    }
}

/// The command asking for a move in a game: its moves from the start, and
/// one second to think.
pub open spec fn spec_position_command(ms: Seq<MoveSpec>) -> Seq<char> {
    "position startpos moves "@ + joined_moves(ms) + "\ngo movetime 1000\n"@
}

pub fn position_command(game: &Game) -> (s: String)
    ensures
        s@ == spec_position_command(game@.moves),
{
    let h = game.move_history();
    let ghost ms = specs_of(h@);
    let mut out: Vec<char> = Vec::new();
    let mut i: usize = 0;
    proof {
        reveal_strlit(" ");
        assert(ms.take(0) =~= Seq::<MoveSpec>::empty());
    }
    while i < h.len()
        invariant
            ms == specs_of(h@),
            i <= h@.len(),
            out@ == joined_moves(ms.take(i as int)),
        decreases h@.len() - i,
    {
        let u = chars_of(uci_of(&h[i]).as_str());
        proof {
            assert(ms.take(i + 1).drop_last() =~= ms.take(i as int));
            assert(ms.take(i + 1).last() == h@[i as int]@);
        }
        let ghost before = out@;
        if i > 0 {
            out.push(' ');
        }
        let mut k: usize = 0;
        let ghost base = out@;
        while k < u.len()
            invariant
                k <= u@.len(),
                out@ == base + u@.take(k as int),
            decreases u@.len() - k,
        {
            out.push(u[k]);
            proof {
                assert(out@ =~= base + u@.take(k + 1));
            }
            k = k + 1;
        }
        proof {
            assert(u@.take(u@.len() as int) =~= u@);
            if i == 0 {
                assert(ms.take(1) =~= seq![ms[0]]);
                assert(out@ =~= uci_text(ms[0]));
            } else {
                reveal_strlit(" ");
                assert(base == before.push(' '));
                assert(u@ == uci_text(ms[i as int]));
                assert(out@ =~= joined_moves(ms.take(i as int)) + " "@ + uci_text(ms[i as int]));
            }
        }
        i = i + 1;
    }
    proof {
        assert(ms.take(h@.len() as int) =~= ms);
    }
    let mut tail: Vec<char> = out;
    let end = chars_of("\ngo movetime 1000\n");
    let mut k: usize = 0;
    let ghost base = tail@;
    while k < end.len()
        invariant
            k <= end@.len(),
            tail@ == base + end@.take(k as int),
        decreases end@.len() - k,
    {
        tail.push(end[k]);
        proof {
            assert(tail@ =~= base + end@.take(k + 1));
        }
        k = k + 1;
    }
    proof {
        assert(end@.take(end@.len() as int) =~= end@);
    }
    let s = prefixed("position startpos moves ", tail.as_slice());
    proof {
        assert(s@ =~= spec_position_command(game@.moves));
    }
    s
}

/// Where the first whitespace-free word starting at or after `from` begins
/// (the length when there is none).
pub open spec fn word_start(s: Seq<char>, from: int) -> int
    decreases s.len() - from,
{
    if from >= s.len() {
        s.len() as int
    } else if is_space(s[from]) {
        word_start(s, from + 1)
    } else {
        from
    }
}

/// Where the word starting at `from` ends.
pub open spec fn word_end(s: Seq<char>, from: int) -> int
    decreases s.len() - from,
{
    if from >= s.len() {
        s.len() as int
    } else if is_space(s[from]) {
        from
    } else {
        word_end(s, from + 1)
    }
}

/// The second whitespace-separated word of a line, if it has one.
pub open spec fn second_word(s: Seq<char>) -> Option<Seq<char>> {
    let a = word_start(s, 0);
    let b = word_end(s, a);
    let c = word_start(s, b);
    let d = word_end(s, c);
    if c < s.len() {
        Some(s.subrange(c, d))
    } else {
        None
    }
}

proof fn lemma_word_bounds(s: Seq<char>, from: int)
    requires
        0 <= from <= s.len(),
    ensures
        from <= word_start(s, from) <= s.len(),
        from <= word_end(s, from) <= s.len(),
    decreases s.len() - from,
{
    if from < s.len() {
        lemma_word_bounds(s, from + 1);
    }
}

fn skip_spaces(s: &[char], from: usize) -> (r: usize)
    requires
        from <= s@.len(),
    ensures
        r == word_start(s@, from as int),
{
    let mut i = from;
    while i < s.len() && is_space_char(s[i])
        invariant
            from <= i <= s@.len(),
            word_start(s@, i as int) == word_start(s@, from as int),
        decreases s@.len() - i,
    {
        i = i + 1;
    }
    i
}

fn skip_word(s: &[char], from: usize) -> (r: usize)
    requires
        from <= s@.len(),
    ensures
        r == word_end(s@, from as int),
{
    let mut i = from;
    while i < s.len() && !is_space_char(s[i])
        invariant
            from <= i <= s@.len(),
            word_end(s@, i as int) == word_end(s@, from as int),
        decreases s@.len() - i,
    {
        i = i + 1;
    }
    i
}

/// The move of the engine's `bestmove` line: its second word.
pub fn parse_bestmove(line: &str) -> (r: Result<String, String>)
    ensures
        match second_word(line@) {
            Some(w) => r matches Ok(m) && m@ == w,
            None => r matches Err(e) && e@ == "Missing bestmove"@,
        },
{
    let s = chars_of(line);
    proof {
        lemma_word_bounds(s@, 0);
    }
    let a = skip_spaces(s.as_slice(), 0);
    proof {
        lemma_word_bounds(s@, a as int);
    }
    let b = skip_word(s.as_slice(), a);
    proof {
        lemma_word_bounds(s@, b as int);
    }
    let c = skip_spaces(s.as_slice(), b);
    proof {
        lemma_word_bounds(s@, c as int);
    }
    let d = skip_word(s.as_slice(), c);
    if c < s.len() {
        let w = crate::text::slice_chars(s.as_slice(), c, d);
        Ok(string_of(w.as_slice()))
    } else {
        Err(String::from_str("Missing bestmove"))
    }
}

/// Where the dialogue with the engine stands.
#[derive(Debug, Clone, Copy, PartialEq, Eq, Structural)]
pub enum EngineStage {
    /// `uci` was sent; `uciok` is awaited.
    Greeting,
    /// The options and `isready` were sent; `readyok` is awaited.
    Preparing,
    /// Ready for a position.
    Idle,
    /// A position was sent; `bestmove` is awaited.
    Thinking,
    /// The dialogue broke off.
    Failed,
}

/// What the worker that talks to the engine does next.
pub enum EngineAction {
    /// Write this text to the engine.
    Send(String),
    /// Tell the player that the engine is ready.
    Ready,
    /// Tell the player the engine's move.
    Move(String),
    /// Stop, with this reason.
    Fail(String),
    /// Read on.
    Wait,
}

/// The value of an [`EngineAction`].
pub enum EngineActionView {
    Send(Seq<char>),
    Ready,
    Move(Seq<char>),
    Fail(Seq<char>),
    Wait,
}

impl View for EngineAction {
    type V = EngineActionView;

    open spec fn view(&self) -> EngineActionView {
        match self {
            EngineAction::Send(t) => EngineActionView::Send(t@),
            EngineAction::Ready => EngineActionView::Ready,
            EngineAction::Move(m) => EngineActionView::Move(m@),
            EngineAction::Fail(e) => EngineActionView::Fail(e@),
            EngineAction::Wait => EngineActionView::Wait,
        }
    }
}

/// The first thing said to the engine.
pub fn engine_greeting() -> (s: &'static str)
    ensures
        s@ == "uci\n"@,
{
    "uci\n"
}

/// A network path that would break the command line.
pub open spec fn bad_path(n: Seq<char>) -> bool {
    n.contains('\n') || n.contains('\r')
}

/// What is sent once the engine has greeted: the options, the network when
/// one is named, a new game and the readiness question.
pub open spec fn setup_text(level: u8, network: Option<Seq<char>>) -> Seq<char> {
    spec_options_command(level) + match network {
        Some(n) => "setoption name EvalFile value "@ + n + "\n"@,
        None => Seq::empty(),
    } + "ucinewgame\nisready\n"@
}

/// What a line the engine wrote does, the dialogue at `stage`: an error
/// line ends it; the answer awaited moves it on (after `uciok` the setup is
/// sent, after `readyok` the player is told, after `bestmove` the move is
/// passed on); any other line is skipped.
pub open spec fn line_step(stage: EngineStage, line: Seq<char>, level: u8, network: Option<Seq<char>>) -> (
    EngineStage,
    EngineActionView,
) {
    match stage {
        EngineStage::Greeting => match spec_classify(line, "uciok"@) {
            LineVerdict::Error => (EngineStage::Failed, EngineActionView::Fail(line)),
            LineVerdict::Answer => if network matches Some(n) && bad_path(n) {
                (EngineStage::Failed, EngineActionView::Fail("Invalid EvalFile path"@))
            } else {
                (EngineStage::Preparing, EngineActionView::Send(setup_text(level, network)))
            },
            LineVerdict::Other => (EngineStage::Greeting, EngineActionView::Wait),
        },
        EngineStage::Preparing => match spec_classify(line, "readyok"@) {
            LineVerdict::Error => (EngineStage::Failed, EngineActionView::Fail(line)),
            LineVerdict::Answer => (EngineStage::Idle, EngineActionView::Ready),
            LineVerdict::Other => (EngineStage::Preparing, EngineActionView::Wait),
        },
        EngineStage::Thinking => match spec_classify(line, "bestmove"@) {
            LineVerdict::Error => (EngineStage::Failed, EngineActionView::Fail(line)),
            LineVerdict::Answer => match second_word(line) {
                Some(w) => (EngineStage::Idle, EngineActionView::Move(w)),
                None => (EngineStage::Failed, EngineActionView::Fail("Missing bestmove"@)),
            },
            LineVerdict::Other => (EngineStage::Thinking, EngineActionView::Wait),
        },
        _ => (stage, EngineActionView::Wait),
    }
}

/// The text of an optional name.
pub open spec fn opt_text(n: Option<&str>) -> Option<Seq<char>> {
    match n {
        Some(s) => Some(s@),
        None => None,
    }
}

/// The dialogue's next step after a line the engine wrote.
pub fn engine_line(stage: EngineStage, line: &str, level: u8, network: Option<&str>) -> (r: (
    EngineStage,
    EngineAction,
))
    ensures
        (r.0, r.1@) == line_step(stage, line@, level, opt_text(network)),
{
    match stage {
        EngineStage::Greeting => match classify_line(line, "uciok") {
            LineVerdict::Error => (EngineStage::Failed, EngineAction::Fail(String::from_str(line))),
            LineVerdict::Answer => {
                let mut text = options_command(level);
                match network {
                    Some(n) => match eval_file_command(n) {
                        Ok(c) => text.append(c.as_str()),
                        Err(e) => return (EngineStage::Failed, EngineAction::Fail(e)),
                    },
                    None => {},
                }
                text.append("ucinewgame\nisready\n");
                proof {
                    assert(text@ =~= setup_text(level, opt_text(network)));
                }
                (EngineStage::Preparing, EngineAction::Send(text))
            },
            LineVerdict::Other => (EngineStage::Greeting, EngineAction::Wait),
        },
        EngineStage::Preparing => match classify_line(line, "readyok") {
            LineVerdict::Error => (EngineStage::Failed, EngineAction::Fail(String::from_str(line))),
            LineVerdict::Answer => (EngineStage::Idle, EngineAction::Ready),
            LineVerdict::Other => (EngineStage::Preparing, EngineAction::Wait),
        },
        EngineStage::Thinking => match classify_line(line, "bestmove") {
            LineVerdict::Error => (EngineStage::Failed, EngineAction::Fail(String::from_str(line))),
            LineVerdict::Answer => match parse_bestmove(line) {
                Ok(m) => (EngineStage::Idle, EngineAction::Move(m)),
                Err(e) => (EngineStage::Failed, EngineAction::Fail(e)),
            },
            LineVerdict::Other => (EngineStage::Thinking, EngineAction::Wait),
        },
        _ => (stage, EngineAction::Wait),
    }
}

/// The dialogue's next step when a position wants a move: a ready engine
/// is sent the position and thinks; otherwise nothing happens.
pub fn engine_position(stage: EngineStage, game: &Game) -> (r: (EngineStage, EngineAction))
    ensures
        stage == EngineStage::Idle ==> r.0 == EngineStage::Thinking && r.1@ == EngineActionView::Send(
            spec_position_command(game@.moves),
        ),
        stage != EngineStage::Idle ==> r.0 == stage && r.1@ == EngineActionView::Wait,
{
    if stage == EngineStage::Idle {
        (EngineStage::Thinking, EngineAction::Send(position_command(game)))
    } else {
        (stage, EngineAction::Wait)
    }
}

} // verus!
