//! Keys and mouse clicks read from a player's terminal.
use vstd::prelude::*;

use crate::text::chars_of;

verus! {

/// A key of the keyboard.
#[derive(Debug, Clone, Copy, PartialEq, Eq, Structural)]
pub enum KeyCode {
    Backspace,
    Enter,
    Left,
    Right,
    Up,
    Down,
    Home,
    End,
    Tab,
    BackTab,
    Delete,
    /// A function key, by its number.
    F(u8),
    Char(char),
    Esc,
}

/// Whether Control was held with a key.
#[allow(non_camel_case_types)]
#[derive(Debug, Clone, Copy, PartialEq, Eq, Structural)]
pub enum KeyModifiers {
    NONE,
    CONTROL,
}

/// Something the player did.
#[derive(Debug, Clone, Copy, PartialEq, Eq, Structural)]
pub enum InputEvent {
    Key(KeyCode, KeyModifiers),
    /// A press of the left mouse button on the cell `(column, row)`, from 0.
    Click(u16, u16),
    /// The terminal now has this many columns and rows.
    Resize(u16, u16),
    Unknown,
}

/// The text UTF-8 bytes encode (well-formed, no overlong encoding, no
/// surrogate, as vstd's UTF-8 model states it), or none when they are not
/// UTF-8.
pub open spec fn utf8_text(bytes: Seq<u8>) -> Option<Seq<char>> {
    if vstd::utf8::valid_utf8(bytes) {
        Some(vstd::utf8::decode_utf8(bytes))
    } else {
        None
    }
}

/// Reads bytes as UTF-8 text.
///
/// Calls `std::str::from_utf8`, which accepts exactly the well-formed UTF-8
/// the standard defines and decodes it; the text is returned when the bytes
/// are valid UTF-8, nothing otherwise.
#[verifier::external_body]
pub fn decode_utf8(bytes: &[u8]) -> (r: Option<String>)
    ensures
        match r {
            Some(s) => utf8_text(bytes@) == Some(s@),
            None => utf8_text(bytes@) is None,
        },
{
    std::str::from_utf8(bytes).ok().map(String::from)
}

pub open spec fn key(code: KeyCode) -> InputEvent {
    InputEvent::Key(code, KeyModifiers::NONE)
}

pub open spec fn ctrl(c: char) -> InputEvent {
    InputEvent::Key(KeyCode::Char(c), KeyModifiers::CONTROL)
}

/// What one byte typed alone means.
pub open spec fn spec_byte_event(c: u8) -> Option<InputEvent> {
    if c == 0x03 {
        Some(ctrl('c'))
    } else if c == 0x04 {
        Some(ctrl('d'))
    } else if c == 0x0D || c == 0x0A {
        Some(key(KeyCode::Enter))
    } else if c == 0x1B {
        Some(key(KeyCode::Esc))
    } else if c == 0x7F || c == 0x08 {
        Some(key(KeyCode::Backspace))
    } else if c == 0x09 {
        Some(key(KeyCode::Tab))
    } else if 0x20 <= c && c < 0x80 {
        Some(key(KeyCode::Char(c as char)))
    } else if 0x01 <= c && c <= 0x1A {
        Some(ctrl((c + 0x60) as char))
    } else {
        None
    }
}

/// The keys whose escape sequences are three bytes, `ESC [ x`.
pub open spec fn spec_csi_key(c: u8) -> Option<KeyCode> {
    if c == 0x41 {
        Some(KeyCode::Up)
    } else if c == 0x42 {
        Some(KeyCode::Down)
    } else if c == 0x43 {
        Some(KeyCode::Right)
    } else if c == 0x44 {
        Some(KeyCode::Left)
    } else if c == 0x48 {
        Some(KeyCode::Home)
    } else if c == 0x46 {
        Some(KeyCode::End)
    } else {
        None
    }
}

/// What the bytes of one read from the terminal mean, taken as one input:
/// a key written as one byte, a cursor key written as an escape sequence,
/// or else the first character of UTF-8 text.
pub open spec fn spec_parse_input(data: Seq<u8>) -> InputEvent {
    if data.len() == 0 {
        InputEvent::Unknown
    } else if data.len() == 1 && spec_byte_event(data[0]) is Some {
        spec_byte_event(data[0])->Some_0
    } else if data.len() == 3 && data[0] == 0x1B && data[1] == 0x5B && spec_csi_key(data[2]) is Some {
        key(spec_csi_key(data[2])->Some_0)
    } else if data =~= seq![0x1Bu8, 0x5Bu8, 0x33u8, 0x7Eu8] {
        key(KeyCode::Delete)
    } else {
        match utf8_text(data) {
            Some(t) => if t.len() > 0 {
                key(KeyCode::Char(t[0]))
            } else {
                InputEvent::Unknown
            },
            None => InputEvent::Unknown,
        }
    }
}

/// What one byte typed alone means, if it has a meaning of its own.
pub fn byte_event(c: u8) -> (r: Option<InputEvent>)
    ensures
        r == spec_byte_event(c),
{
    if c == 0x03 {
        Some(InputEvent::Key(KeyCode::Char('c'), KeyModifiers::CONTROL))
    } else if c == 0x04 {
        Some(InputEvent::Key(KeyCode::Char('d'), KeyModifiers::CONTROL))
    } else if c == 0x0D || c == 0x0A {
        Some(InputEvent::Key(KeyCode::Enter, KeyModifiers::NONE))
    } else if c == 0x1B {
        Some(InputEvent::Key(KeyCode::Esc, KeyModifiers::NONE))
    } else if c == 0x7F || c == 0x08 {
        Some(InputEvent::Key(KeyCode::Backspace, KeyModifiers::NONE))
    } else if c == 0x09 {
        Some(InputEvent::Key(KeyCode::Tab, KeyModifiers::NONE))
    } else if 0x20 <= c && c < 0x80 {
        Some(InputEvent::Key(KeyCode::Char(c as char), KeyModifiers::NONE))
    } else if 0x01 <= c && c <= 0x1A {
        Some(InputEvent::Key(KeyCode::Char((c + 0x60) as char), KeyModifiers::CONTROL))
    } else {
        None
    }
}

fn csi_key(c: u8) -> (r: Option<KeyCode>)
    ensures
        r == spec_csi_key(c),
{
    if c == 0x41 {
        Some(KeyCode::Up)
    } else if c == 0x42 {
        Some(KeyCode::Down)
    } else if c == 0x43 {
        Some(KeyCode::Right)
    } else if c == 0x44 {
        Some(KeyCode::Left)
    } else if c == 0x48 {
        Some(KeyCode::Home)
    } else if c == 0x46 {
        Some(KeyCode::End)
    } else {
        None
    }
}

/// The first character of UTF-8 bytes, if they are UTF-8 and not empty.
fn first_char(bytes: &[u8]) -> (r: Option<char>)
    ensures
        r == (match utf8_text(bytes@) {
            Some(t) => if t.len() > 0 {
                Some(t[0])
            } else {
                None
            },
            None => None,
        }),
{
    match decode_utf8(bytes) {
        Some(s) => {
            let cs = chars_of(s.as_str());
            if cs.len() > 0 {
                Some(cs[0])
            } else {
                None
            }
        },
        None => None,
    }
}

/// Reads one input from the bytes of one read from the terminal.
pub fn parse_input(data: &[u8]) -> (e: InputEvent)
    ensures
        e == spec_parse_input(data@),
{
    if data.len() == 0 {
        return InputEvent::Unknown;
    }
    if data.len() == 1 {
        match byte_event(data[0]) {
            Some(e) => return e,
            None => {},
        }
    }
    if data.len() == 3 && data[0] == 0x1B && data[1] == 0x5B {
        match csi_key(data[2]) {
            Some(k) => return InputEvent::Key(k, KeyModifiers::NONE),
            None => {},
        }
    }
    if data.len() == 4 && data[0] == 0x1B && data[1] == 0x5B && data[2] == 0x33 && data[3] == 0x7E {
        proof {
            assert(data@ =~= seq![0x1Bu8, 0x5Bu8, 0x33u8, 0x7Eu8]);
        }
        return InputEvent::Key(KeyCode::Delete, KeyModifiers::NONE);
    }
    proof {
        if data@ =~= seq![0x1Bu8, 0x5Bu8, 0x33u8, 0x7Eu8] {
            assert(data@[3] == 0x7E);
        }
    }
    match first_char(data) {
        Some(c) => InputEvent::Key(KeyCode::Char(c), KeyModifiers::NONE),
        None => InputEvent::Unknown,
    }
}

} // verus!

verus! {

/// One step of reading the bytes a terminal sends.
#[derive(Debug, Clone, Copy, PartialEq, Eq, Structural)]
pub enum Token {
    /// The bytes so far begin an input that is not complete yet.
    Wait,
    /// An input, read from this many bytes.
    Emit(InputEvent, usize),
    /// This many bytes mean nothing to the game (a mouse release, say).
    Skip(usize),
}

pub open spec fn is_digit(b: u8) -> bool {
    0x30 <= b <= 0x39
}

/// The value of decimal digits.
pub open spec fn dec_value(t: Seq<u8>) -> int
    decreases t.len(),
{
    if t.len() == 0 {
        0
    } else {
        dec_value(t.drop_last()) * 10 + (t.last() - 0x30)
    }
}

/// A number of one to five decimal digits, at most 65535.
pub open spec fn small_number(t: Seq<u8>) -> Option<u16> {
    if 1 <= t.len() <= 5 && (forall|i: int| 0 <= i < t.len() ==> is_digit(#[trigger] t[i])) && dec_value(t)
        <= 65535 {
        Some(dec_value(t) as u16)
    } else {
        None
    }
}

/// Where the first `;` is, or the length when there is none.
pub open spec fn semi(p: Seq<u8>) -> int
    decreases p.len(),
{
    if p.len() == 0 {
        0
    } else if p[0] == 0x3B {
        0
    } else {
        1 + semi(p.drop_first())
    }
}

/// Three numbers separated by `;`, as a mouse report carries them.
pub open spec fn three_fields(p: Seq<u8>) -> Option<(u16, u16, u16)> {
    let a = semi(p);
    if a >= p.len() {
        None
    } else {
        let r1 = p.skip(a + 1);
        let b = semi(r1);
        if b >= r1.len() {
            None
        } else {
            let r2 = r1.skip(b + 1);
            match (small_number(p.take(a)), small_number(r1.take(b)), small_number(r2)) {
                (Some(x), Some(y), Some(z)) => Some((x, y, z)),
                _ => None,
            }
        }
    }
}

/// Where a control sequence `ESC [ ...` ends: the index of its final byte,
/// or the first byte that cannot belong to it, or the length of the bytes
/// when they end first.
pub open spec fn csi_end(s: Seq<u8>, from: int) -> int
    decreases s.len() - from,
{
    if from >= s.len() {
        s.len() as int
    } else if 0x20 <= s[from] <= 0x3F {
        csi_end(s, from + 1)
    } else {
        from
    }
}

/// The key a control sequence `ESC [ n ~` names.
pub open spec fn spec_tilde_key(n: int) -> Option<KeyCode> {
    if n == 3 {
        Some(KeyCode::Delete)
    } else if n == 1 || n == 7 {
        Some(KeyCode::Home)
    } else if n == 4 || n == 8 {
        Some(KeyCode::End)
    } else if 11 <= n <= 15 {
        Some(KeyCode::F((n - 10) as u8))
    } else if 17 <= n <= 21 {
        Some(KeyCode::F((n - 11) as u8))
    } else if n == 23 || n == 24 {
        Some(KeyCode::F((n - 12) as u8))
    } else {
        None
    }
}

/// The longest control sequence read; longer ones are dropped.
pub open spec fn csi_limit() -> int {
    64
}

/// Reading a complete control sequence `ESC [ params final`: a mouse
/// report (`<button;column;row` and `M` for a press), a cursor key, BackTab,
/// or a key numbered before `~`.
pub open spec fn csi_token(s: Seq<u8>, j: int) -> Token {
    let params = s.subrange(2, j);
    let fin = s[j];
    if params.len() > 0 && params[0] == 0x3C && (fin == 0x4D || fin == 0x6D) {
        match three_fields(params.drop_first()) {
            Some((b, x, y)) => if fin == 0x4D && b == 0 && x >= 1 && y >= 1 {
                Token::Emit(InputEvent::Click((x - 1) as u16, (y - 1) as u16), (j + 1) as usize)
            } else {
                Token::Skip((j + 1) as usize)
            },
            None => Token::Emit(InputEvent::Unknown, (j + 1) as usize),
        }
    } else if params.len() == 0 && spec_csi_key(fin) is Some {
        Token::Emit(key(spec_csi_key(fin)->Some_0), (j + 1) as usize)
    } else if params.len() == 0 && fin == 0x5A {
        Token::Emit(key(KeyCode::BackTab), (j + 1) as usize)
    } else if fin == 0x7E && small_number(params) is Some && spec_tilde_key(small_number(params)->Some_0 as int)
        is Some {
        Token::Emit(key(spec_tilde_key(small_number(params)->Some_0 as int)->Some_0), (j + 1) as usize)
    } else {
        Token::Emit(InputEvent::Unknown, (j + 1) as usize)
    }
}

/// The key an application-mode sequence `ESC O x` names.
pub open spec fn spec_ss3_key(c: u8) -> Option<KeyCode> {
    if 0x50 <= c <= 0x53 {
        Some(KeyCode::F((c - 0x4F) as u8))
    } else {
        spec_csi_key(c)
    }
}

/// Reading the first input of the bytes a terminal sent.
pub open spec fn spec_token(s: Seq<u8>) -> Token {
    if s.len() == 0 {
        Token::Wait
    } else if s[0] == 0xFF {
        if s.len() < 2 {
            Token::Wait
        } else if s[1] != 0xFE {
            Token::Emit(InputEvent::Unknown, 1)
        } else if s.len() < 6 {
            Token::Wait
        } else {
            Token::Emit(InputEvent::Resize((s[2] * 256 + s[3]) as u16, (s[4] * 256 + s[5]) as u16), 6)
        }
    } else if s[0] == 0x1B {
        if s.len() < 2 {
            Token::Wait
        } else if s[1] == 0x5B {
            let j = csi_end(s, 2);
            if j >= csi_limit() {
                Token::Emit(InputEvent::Unknown, csi_limit() as usize)
            } else if j >= s.len() {
                Token::Wait
            } else if s[j] < 0x40 || s[j] > 0x7E {
                Token::Emit(InputEvent::Unknown, j as usize)
            } else {
                csi_token(s, j)
            }
        } else if s[1] == 0x4F {
            if s.len() < 3 {
                Token::Wait
            } else if spec_ss3_key(s[2]) is Some {
                Token::Emit(key(spec_ss3_key(s[2])->Some_0), 3)
            } else {
                Token::Emit(InputEvent::Unknown, 3)
            }
        } else {
            Token::Emit(key(KeyCode::Esc), 1)
        }
    } else if s[0] < 0x80 {
        Token::Emit(spec_parse_input(seq![s[0]]), 1)
    } else {
        let n: int = if s[0] < 0xC0 {
            1
        } else if s[0] < 0xE0 {
            2
        } else if s[0] < 0xF0 {
            3
        } else if s[0] < 0xF8 {
            4
        } else {
            1
        };
        if s.len() < n {
            Token::Wait
        } else if n > 1 && utf8_text(s.take(n)) is Some && utf8_text(s.take(n))->Some_0.len() > 0 {
            Token::Emit(key(KeyCode::Char(utf8_text(s.take(n))->Some_0[0])), n as usize)
        } else {
            Token::Emit(InputEvent::Unknown, 1)
        }
    }
}

/// How many bytes a token reads (none for `Wait`).
pub open spec fn token_len(t: Token) -> int {
    match t {
        Token::Wait => 0,
        Token::Emit(_, n) => n as int,
        Token::Skip(n) => n as int,
    }
}

proof fn lemma_csi_end_bounds(s: Seq<u8>, from: int)
    requires
        0 <= from <= s.len(),
    ensures
        from <= csi_end(s, from) <= s.len(),
        forall|k: int| from <= k < csi_end(s, from) ==> 0x20 <= #[trigger] s[k] <= 0x3F,
        csi_end(s, from) < s.len() ==> !(0x20 <= s[csi_end(s, from)] <= 0x3F),
    decreases s.len() - from,
{
    if from < s.len() && 0x20 <= s[from] <= 0x3F {
        lemma_csi_end_bounds(s, from + 1);
    }
}

/// Every token but `Wait` reads at least one of the bytes and no more than
/// there are.
pub proof fn lemma_token_len(s: Seq<u8>)
    ensures
        spec_token(s) !is Wait ==> 1 <= token_len(spec_token(s)) <= s.len(),
{
    if s.len() >= 2 && s[0] == 0x1B && s[1] == 0x5B {
        lemma_csi_end_bounds(s, 2);
    }
}

/// Reads bytes into inputs, one token after another, until the bytes left
/// begin an input that is not complete: the inputs and the bytes left.
pub open spec fn decode(s: Seq<u8>) -> (Seq<InputEvent>, Seq<u8>)
    decreases s.len(),
{
    let t = spec_token(s);
    if 1 <= token_len(t) <= s.len() {
        match t {
            Token::Emit(e, n) => {
                let (es, rest) = decode(s.skip(n as int));
                (seq![e] + es, rest)
            },
            Token::Skip(n) => decode(s.skip(n as int)),
            Token::Wait => (Seq::empty(), s),
        }
    } else {
        (Seq::empty(), s)
    }
}

/// The bytes that carry a new terminal size: 0xFF, 0xFE, then the width and
/// the height, each in two bytes, high byte first.
pub open spec fn spec_resize_message(width: u16, height: u16) -> Seq<u8> {
    seq![0xFFu8, 0xFEu8, (width / 256) as u8, (width % 256) as u8, (height / 256) as u8, (height % 256) as u8]
}

/// The bytes that tell a session its terminal's new size.
pub fn resize_message(width: u16, height: u16) -> (m: Vec<u8>)
    ensures
        m@ == spec_resize_message(width, height),
{
    let m = vec![0xFFu8, 0xFEu8, (width / 256) as u8, (width % 256) as u8, (height / 256) as u8, (height % 256) as u8];
    proof {
        assert(m@ =~= spec_resize_message(width, height));
    }
    m
}

fn csi_end_at(s: &[u8], from: usize) -> (j: usize)
    requires
        from <= s@.len(),
    ensures
        j == csi_end(s@, from as int),
{
    let mut i = from;
    while i < s.len() && 0x20 <= s[i] && s[i] <= 0x3F
        invariant
            from <= i <= s@.len(),
            csi_end(s@, i as int) == csi_end(s@, from as int),
        decreases s@.len() - i,
    {
        i = i + 1;
    }
    i
}

fn semi_at(p: &[u8]) -> (a: usize)
    ensures
        a == semi(p@),
        a <= p@.len(),
{
    let mut i: usize = 0;
    proof {
        assert(p@.skip(0) =~= p@);
    }
    while i < p.len() && p[i] != 0x3B
        invariant
            i <= p@.len(),
            semi(p@) == i + semi(p@.skip(i as int)),
        decreases p@.len() - i,
    {
        proof {
            assert(p@.skip(i as int).drop_first() =~= p@.skip(i + 1));
        }
        i = i + 1;
    }
    proof {
        if i < p@.len() {
            assert(p@.skip(i as int)[0] == p@[i as int]);
        } else {
            assert(p@.skip(i as int).len() == 0);
        }
    }
    i
}

fn small_number_of(t: &[u8]) -> (r: Option<u16>)
    ensures
        r == small_number(t@),
{
    if t.len() < 1 || t.len() > 5 {
        return None;
    }
    let mut v: u32 = 0;
    let mut bound: u32 = 1;
    let mut i: usize = 0;
    proof {
        assert(t@.take(0) =~= Seq::<u8>::empty());
    }
    while i < t.len()
        invariant
            t@.len() <= 5,
            i <= t@.len(),
            forall|k: int| 0 <= k < i ==> is_digit(#[trigger] t@[k]),
            v == dec_value(t@.take(i as int)),
            v < bound,
            bound <= 100000,
            i < 5 ==> bound <= 10000,
            i < 4 ==> bound <= 1000,
            i < 3 ==> bound <= 100,
            i < 2 ==> bound <= 10,
            i < 1 ==> bound <= 1,
        decreases t@.len() - i,
    {
        if t[i] < 0x30 || t[i] > 0x39 {
            return None;
        }
        proof {
            assert(t@.take(i + 1).drop_last() =~= t@.take(i as int));
        }
        v = v * 10 + (t[i] - 0x30) as u32;
        bound = bound * 10;
        i = i + 1;
    }
    proof {
        assert(t@.take(t@.len() as int) =~= t@);
    }
    if v <= 65535 {
        Some(v as u16)
    } else {
        None
    }
}

fn sub_bytes(s: &[u8], from: usize, to: usize) -> (r: Vec<u8>)
    requires
        from <= to <= s@.len(),
    ensures
        r@ == s@.subrange(from as int, to as int),
{
    let mut r: Vec<u8> = Vec::new();
    let mut i = from;
    while i < to
        invariant
            from <= i <= to,
            to <= s@.len(),
            r@ == s@.subrange(from as int, i as int),
        decreases to - i,
    {
        r.push(s[i]);
        proof {
            assert(r@ =~= s@.subrange(from as int, i + 1));
        }
        i = i + 1;
    }
    r
}

fn three_fields_of(p: &[u8]) -> (r: Option<(u16, u16, u16)>)
    ensures
        r == three_fields(p@),
{
    let a = semi_at(p);
    if a >= p.len() {
        return None;
    }
    let r1 = sub_bytes(p, a + 1, p.len());
    proof {
        assert(r1@ =~= p@.skip(a + 1));
    }
    let b = semi_at(r1.as_slice());
    if b >= r1.len() {
        return None;
    }
    let r2 = sub_bytes(r1.as_slice(), b + 1, r1.len());
    proof {
        assert(r2@ =~= r1@.skip(b + 1));
    }
    let f1 = sub_bytes(p, 0, a);
    let f2 = sub_bytes(r1.as_slice(), 0, b);
    proof {
        assert(f1@ =~= p@.take(a as int));
        assert(f2@ =~= r1@.take(b as int));
    }
    match (small_number_of(f1.as_slice()), small_number_of(f2.as_slice()), small_number_of(r2.as_slice())) {
        (Some(x), Some(y), Some(z)) => Some((x, y, z)),
        _ => None,
    }
}

fn tilde_key(n: u16) -> (k: Option<KeyCode>)
    ensures
        k == spec_tilde_key(n as int),
{
    if n == 3 {
        Some(KeyCode::Delete)
    } else if n == 1 || n == 7 {
        Some(KeyCode::Home)
    } else if n == 4 || n == 8 {
        Some(KeyCode::End)
    } else if 11 <= n && n <= 15 {
        Some(KeyCode::F((n - 10) as u8))
    } else if 17 <= n && n <= 21 {
        Some(KeyCode::F((n - 11) as u8))
    } else if n == 23 || n == 24 {
        Some(KeyCode::F((n - 12) as u8))
    } else {
        None
    }
}

fn ss3_key(c: u8) -> (k: Option<KeyCode>)
    ensures
        k == spec_ss3_key(c),
{
    if 0x50 <= c && c <= 0x53 {
        Some(KeyCode::F(c - 0x4F))
    } else {
        csi_key(c)
    }
}

fn csi_token_of(s: &[u8], j: usize) -> (t: Token)
    requires
        2 <= j < s@.len(),
    ensures
        t == csi_token(s@, j as int),
{
    let params = sub_bytes(s, 2, j);
    let fin = s[j];
    if params.len() > 0 && params[0] == 0x3C && (fin == 0x4D || fin == 0x6D) {
        let rest = sub_bytes(params.as_slice(), 1, params.len());
        proof {
            assert(rest@ =~= params@.drop_first());
        }
        match three_fields_of(rest.as_slice()) {
            Some((b, x, y)) => {
                if fin == 0x4D && b == 0 && x >= 1 && y >= 1 {
                    Token::Emit(InputEvent::Click(x - 1, y - 1), j + 1)
                } else {
                    Token::Skip(j + 1)
                }
            },
            None => Token::Emit(InputEvent::Unknown, j + 1),
        }
    } else if params.len() == 0 && csi_key(fin).is_some() {
        match csi_key(fin) {
            Some(k) => Token::Emit(InputEvent::Key(k, KeyModifiers::NONE), j + 1),
            None => Token::Emit(InputEvent::Unknown, j + 1),
        }
    } else if params.len() == 0 && fin == 0x5A {
        Token::Emit(InputEvent::Key(KeyCode::BackTab, KeyModifiers::NONE), j + 1)
    } else if fin == 0x7E {
        match small_number_of(params.as_slice()) {
            Some(n) => match tilde_key(n) {
                Some(k) => Token::Emit(InputEvent::Key(k, KeyModifiers::NONE), j + 1),
                None => Token::Emit(InputEvent::Unknown, j + 1),
            },
            None => Token::Emit(InputEvent::Unknown, j + 1),
        }
    } else {
        Token::Emit(InputEvent::Unknown, j + 1)
    }
}

/// Reads the first input of the bytes a terminal sent.
pub fn next_token(s: &[u8]) -> (t: Token)
    ensures
        t == spec_token(s@),
{
    if s.len() == 0 {
        return Token::Wait;
    }
    if s[0] == 0xFF {
        if s.len() < 2 {
            return Token::Wait;
        }
        if s[1] != 0xFE {
            return Token::Emit(InputEvent::Unknown, 1);
        }
        if s.len() < 6 {
            return Token::Wait;
        }
        let w: u16 = s[2] as u16 * 256 + s[3] as u16;
        let h: u16 = s[4] as u16 * 256 + s[5] as u16;
        return Token::Emit(InputEvent::Resize(w, h), 6);
    }
    if s[0] == 0x1B {
        if s.len() < 2 {
            return Token::Wait;
        }
        if s[1] == 0x5B {
            let j = csi_end_at(s, 2);
            proof {
                lemma_csi_end_bounds(s@, 2);
            }
            if j >= 64 {
                return Token::Emit(InputEvent::Unknown, 64);
            }
            if j >= s.len() {
                return Token::Wait;
            }
            if s[j] < 0x40 || s[j] > 0x7E {
                return Token::Emit(InputEvent::Unknown, j);
            }
            return csi_token_of(s, j);
        }
        if s[1] == 0x4F {
            if s.len() < 3 {
                return Token::Wait;
            }
            return match ss3_key(s[2]) {
                Some(k) => Token::Emit(InputEvent::Key(k, KeyModifiers::NONE), 3),
                None => Token::Emit(InputEvent::Unknown, 3),
            };
        }
        return Token::Emit(InputEvent::Key(KeyCode::Esc, KeyModifiers::NONE), 1);
    }
    if s[0] < 0x80 {
        let one = vec![s[0]];
        proof {
            assert(one@ =~= seq![s@[0]]);
        }
        return Token::Emit(parse_input(one.as_slice()), 1);
    }
    let n: usize = if s[0] < 0xC0 {
        1
    } else if s[0] < 0xE0 {
        2
    } else if s[0] < 0xF0 {
        3
    } else if s[0] < 0xF8 {
        4
    } else {
        1
    };
    if s.len() < n {
        return Token::Wait;
    }
    if n > 1 {
        let head = sub_bytes(s, 0, n);
        proof {
            assert(head@ =~= s@.take(n as int));
        }
        match first_char(head.as_slice()) {
            Some(c) => return Token::Emit(InputEvent::Key(KeyCode::Char(c), KeyModifiers::NONE), n),
            None => {},
        }
    }
    Token::Emit(InputEvent::Unknown, 1)
}

/// Reads the keys, clicks and size changes a terminal sends. Bytes that
/// begin an input not yet complete wait for the next read.
pub struct InputDecoder {
    pending: Vec<u8>,
}

impl InputDecoder {
    /// The bytes waiting for the rest of their input.
    pub closed spec fn pending(&self) -> Seq<u8> {
        self.pending@
    }

    /// A decoder with nothing waiting.
    pub fn new() -> (d: InputDecoder)
        ensures
            d.pending() == Seq::<u8>::empty(),
    {
        InputDecoder { pending: Vec::new() }
    }

    /// The inputs the bytes complete, in order; what is left waits.
    pub fn feed(&mut self, data: &[u8]) -> (events: Vec<InputEvent>)
        ensures
            events@ == decode(old(self).pending() + data@).0,
            final(self).pending() == decode(old(self).pending() + data@).1,
    {
        let mut rest: Vec<u8> = Vec::new();
        std::mem::swap(&mut rest, &mut self.pending);
        let mut i: usize = 0;
        while i < data.len()
            invariant
                i <= data@.len(),
                rest@ == old(self).pending() + data@.take(i as int),
            decreases data@.len() - i,
        {
            rest.push(data[i]);
            proof {
                assert(rest@ =~= old(self).pending() + data@.take(i + 1));
            }
            i = i + 1;
        }
        proof {
            assert(data@.take(data@.len() as int) =~= data@);
        }
        let ghost all = rest@;
        let mut events: Vec<InputEvent> = Vec::new();
        let mut done = false;
        proof {
            assert(events@ + decode(rest@).0 =~= decode(all).0);
        }
        while !done
            invariant
                !done ==> events@ + decode(rest@).0 == decode(all).0 && decode(rest@).1 == decode(all).1,
                done ==> events@ == decode(all).0 && rest@ == decode(all).1,
            decreases rest@.len(), if done { 0int } else { 1int },
        {
            let t = next_token(rest.as_slice());
            proof {
                lemma_token_len(rest@);
            }
            match t {
                Token::Emit(e, n) => {
                    let ghost before = rest@;
                    let r2 = sub_bytes(rest.as_slice(), n, rest.len());
                    proof {
                        assert(r2@ =~= before.skip(n as int));
                        assert(events@.push(e) + decode(r2@).0 =~= events@ + decode(before).0);
                    }
                    events.push(e);
                    rest = r2;
                },
                Token::Skip(n) => {
                    let ghost before = rest@;
                    let r2 = sub_bytes(rest.as_slice(), n, rest.len());
                    proof {
                        assert(r2@ =~= before.skip(n as int));
                    }
                    rest = r2;
                },
                Token::Wait => {
                    proof {
                        assert(decode(rest@).0 =~= Seq::<InputEvent>::empty());
                        assert(events@ + decode(rest@).0 =~= events@);
                    }
                    done = true;
                },
            }
        }
        self.pending = rest;
        events
    }

    /// A lone Esc that nothing followed: after a pause, the bytes waiting
    /// that begin with Esc are taken as the Esc key.
    pub fn flush_escape(&mut self) -> (e: Option<InputEvent>)
        ensures
            old(self).pending().len() > 0 && old(self).pending()[0] == 0x1B ==> e == Some(
                InputEvent::Key(KeyCode::Esc, KeyModifiers::NONE),
            ) && final(self).pending() == Seq::<u8>::empty(),
            !(old(self).pending().len() > 0 && old(self).pending()[0] == 0x1B) ==> e is None
                && final(self).pending() == old(self).pending(),
    {
        if self.pending.len() > 0 && self.pending[0] == 0x1B {
            self.pending = Vec::new();
            Some(InputEvent::Key(KeyCode::Esc, KeyModifiers::NONE))
        } else {
            None
        }
    }
}

impl Default for InputDecoder {
    fn default() -> (d: InputDecoder)
        ensures
            d.pending() == Seq::<u8>::empty(),
    {
        InputDecoder::new()
    }
}

/// A size change sent as its message reads back as that size change and
/// nothing else.
pub proof fn lemma_resize_roundtrip(width: u16, height: u16)
    ensures
        decode(spec_resize_message(width, height)) == (
            seq![InputEvent::Resize(width, height)],
            Seq::<u8>::empty(),
        ),
{
    let m = spec_resize_message(width, height);
    assert(((width / 256) as u8) * 256 + ((width % 256) as u8) == width);
    assert(((height / 256) as u8) * 256 + ((height % 256) as u8) == height);
    assert(spec_token(m) == Token::Emit(InputEvent::Resize(width, height), 6));
    assert(m.skip(6) =~= Seq::<u8>::empty());
    assert(decode(m.skip(6)) == (Seq::<InputEvent>::empty(), Seq::<u8>::empty()));
    assert(seq![InputEvent::Resize(width, height)] + Seq::<InputEvent>::empty() =~= seq![
        InputEvent::Resize(width, height),
    ]);
}

proof fn lemma_csi_end_prefix(a: Seq<u8>, b: Seq<u8>, from: int)
    requires
        0 <= from <= a.len(),
    ensures
        csi_end(a, from) < a.len() ==> csi_end(a + b, from) == csi_end(a, from),
        csi_end(a, from) >= a.len() ==> csi_end(a + b, from) >= a.len(),
    decreases a.len() - from,
{
    let s = a + b;
    if from < a.len() {
        assert(s[from] == a[from]);
        if 0x20 <= a[from] <= 0x3F {
            lemma_csi_end_prefix(a, b, from + 1);
        }
    } else {
        lemma_csi_end_bounds(s, from);
    }
}

/// A token read from some bytes is read the same way whatever bytes follow.
pub proof fn lemma_token_prefix(a: Seq<u8>, b: Seq<u8>)
    requires
        spec_token(a) !is Wait,
    ensures
        spec_token(a + b) == spec_token(a),
{
    let s = a + b;
    lemma_token_len(a);
    if a.len() > 0 {
        assert(s[0] == a[0]);
    }
    if a.len() > 1 {
        assert(s[1] == a[1]);
    }
    if a.len() > 2 {
        assert(s[2] == a[2]);
    }
    if a.len() >= 6 {
        assert(s[3] == a[3]);
        assert(s[4] == a[4]);
        assert(s[5] == a[5]);
    }
    if a.len() >= 2 && a[0] == 0x1B && a[1] == 0x5B {
        lemma_csi_end_prefix(a, b, 2);
        lemma_csi_end_bounds(a, 2);
        let j = csi_end(a, 2);
        if j < a.len() {
            assert(s[j] == a[j]);
            assert(s.subrange(2, j) =~= a.subrange(2, j));
        }
    }
    if a.len() > 0 && a[0] >= 0x80 {
        let n: int = if a[0] < 0xC0 {
            1
        } else if a[0] < 0xE0 {
            2
        } else if a[0] < 0xF0 {
            3
        } else if a[0] < 0xF8 {
            4
        } else {
            1
        };
        if a.len() >= n {
            assert(s.take(n) =~= a.take(n));
        }
    }
}

/// Reading bytes in two parts gives the inputs of reading them at once:
/// what the first part leaves waiting is read with the second.
pub proof fn lemma_decode_split(a: Seq<u8>, b: Seq<u8>)
    ensures
        decode(a + b) == (
            decode(a).0 + decode(decode(a).1 + b).0,
            decode(decode(a).1 + b).1,
        ),
    decreases a.len(),
{
    let t = spec_token(a);
    lemma_token_len(a);
    if t is Wait {
        assert(decode(a) == (Seq::<InputEvent>::empty(), a));
        assert(Seq::<InputEvent>::empty() + decode(a + b).0 =~= decode(a + b).0);
    } else {
        lemma_token_prefix(a, b);
        let n = token_len(t);
        lemma_token_len(a + b);
        assert((a + b).skip(n) =~= a.skip(n) + b);
        lemma_decode_split(a.skip(n), b);
        match t {
            Token::Emit(e, _) => {
                let (es, rest) = decode(a.skip(n));
                assert(seq![e] + (es + decode(rest + b).0) =~= (seq![e] + es) + decode(rest + b).0);
            },
            _ => {},
        }
    }
}

} // verus!
