//! What is written to a terminal to show changed cells: cursor moves,
//! colour and attribute changes, and the cells' symbols.
use vstd::prelude::*;

verus! {

/// A cell colour, as the terminal user interface names it.
#[derive(Debug, Clone, Copy, PartialEq, Eq, Structural)]
pub enum CellColor {
    Reset,
    Black,
    Red,
    Green,
    Yellow,
    Blue,
    Magenta,
    Cyan,
    Gray,
    DarkGray,
    LightRed,
    LightGreen,
    LightYellow,
    LightBlue,
    LightMagenta,
    LightCyan,
    White,
    Rgb(u8, u8, u8),
    Indexed(u8),
}

/// A colour as the terminal's escape sequences name it.
#[derive(Debug, Clone, Copy, PartialEq, Eq, Structural)]
pub enum TermColor {
    Reset,
    Black,
    DarkRed,
    DarkGreen,
    DarkYellow,
    DarkBlue,
    DarkMagenta,
    DarkCyan,
    Grey,
    DarkGrey,
    Red,
    Green,
    Yellow,
    Blue,
    Magenta,
    Cyan,
    White,
    Rgb(u8, u8, u8),
    AnsiValue(u8),
}

/// The attributes of a cell that the terminal is told about.
#[derive(Debug, Clone, Copy, PartialEq, Eq, Structural)]
pub struct Attrs {
    pub bold: bool,
    pub dim: bool,
    pub underlined: bool,
    pub reversed: bool,
}

/// One changed cell: where it is, its colours and its attributes. Its
/// symbol stays with the caller, who writes it when told to.
#[derive(Debug, Clone, Copy, PartialEq, Eq, Structural)]
pub struct CellLook {
    pub x: u16,
    pub y: u16,
    pub fg: CellColor,
    pub bg: CellColor,
    pub attrs: Attrs,
}

/// An attribute change.
#[derive(Debug, Clone, Copy, PartialEq, Eq, Structural)]
pub enum Attr {
    Bold,
    Dim,
    Underlined,
    Reverse,
    NormalIntensity,
    NoUnderline,
    NoReverse,
    Reset,
}

/// Something to write to the terminal.
#[derive(Debug, Clone, Copy, PartialEq, Eq, Structural)]
pub enum TermCommand {
    MoveTo(u16, u16),
    Foreground(TermColor),
    Background(TermColor),
    Attribute(Attr),
    /// The symbol of the changed cell at this index.
    Symbol(usize),
}

/// The terminal colour for a cell colour: the eight basic colours are the
/// terminal's dark ones, their light forms its bright ones.
pub open spec fn spec_term_color(c: CellColor) -> TermColor {
    match c {
        CellColor::Reset => TermColor::Reset,
        CellColor::Black => TermColor::Black,
        CellColor::Red => TermColor::DarkRed,
        CellColor::Green => TermColor::DarkGreen,
        CellColor::Yellow => TermColor::DarkYellow,
        CellColor::Blue => TermColor::DarkBlue,
        CellColor::Magenta => TermColor::DarkMagenta,
        CellColor::Cyan => TermColor::DarkCyan,
        CellColor::Gray => TermColor::Grey,
        CellColor::DarkGray => TermColor::DarkGrey,
        CellColor::LightRed => TermColor::Red,
        CellColor::LightGreen => TermColor::Green,
        CellColor::LightYellow => TermColor::Yellow,
        CellColor::LightBlue => TermColor::Blue,
        CellColor::LightMagenta => TermColor::Magenta,
        CellColor::LightCyan => TermColor::Cyan,
        CellColor::White => TermColor::White,
        CellColor::Rgb(r, g, b) => TermColor::Rgb(r, g, b),
        CellColor::Indexed(i) => TermColor::AnsiValue(i),
    }
}

/// The terminal colour for a cell colour.
pub fn color_to_terminal(c: CellColor) -> (t: TermColor)
    ensures
        t == spec_term_color(c),
{
    match c {
        CellColor::Reset => TermColor::Reset,
        CellColor::Black => TermColor::Black,
        CellColor::Red => TermColor::DarkRed,
        CellColor::Green => TermColor::DarkGreen,
        CellColor::Yellow => TermColor::DarkYellow,
        CellColor::Blue => TermColor::DarkBlue,
        CellColor::Magenta => TermColor::DarkMagenta,
        CellColor::Cyan => TermColor::DarkCyan,
        CellColor::Gray => TermColor::Grey,
        CellColor::DarkGray => TermColor::DarkGrey,
        CellColor::LightRed => TermColor::Red,
        CellColor::LightGreen => TermColor::Green,
        CellColor::LightYellow => TermColor::Yellow,
        CellColor::LightBlue => TermColor::Blue,
        CellColor::LightMagenta => TermColor::Magenta,
        CellColor::LightCyan => TermColor::Cyan,
        CellColor::White => TermColor::White,
        CellColor::Rgb(r, g, b) => TermColor::Rgb(r, g, b),
        CellColor::Indexed(i) => TermColor::AnsiValue(i),
    }
}

/// What the terminal has been told so far: the last cell written, and the
/// colours and attributes in force.
#[derive(Debug, Clone, Copy)]
pub struct Pen {
    pub last: Option<(u16, u16)>,
    pub fg: CellColor,
    pub bg: CellColor,
    pub attrs: Attrs,
}

pub open spec fn no_attrs() -> Attrs {
    Attrs { bold: false, dim: false, underlined: false, reversed: false }
}

/// Before any cell: nowhere, default colours, no attributes.
pub open spec fn fresh_pen() -> Pen {
    Pen { last: None, fg: CellColor::Reset, bg: CellColor::Reset, attrs: no_attrs() }
}

/// The attribute changes from `was` to `now`: bold, dim, underline and
/// reverse switched on, then bold, underline and reverse switched off.
#[verifier::opaque]
pub open spec fn attr_changes(was: Attrs, now: Attrs) -> Seq<TermCommand> {
    (if now.bold && !was.bold { seq![TermCommand::Attribute(Attr::Bold)] } else { Seq::empty() }) + (if now.dim
        && !was.dim {
        seq![TermCommand::Attribute(Attr::Dim)]
    } else {
        Seq::empty()
    }) + (if now.underlined && !was.underlined {
        seq![TermCommand::Attribute(Attr::Underlined)]
    } else {
        Seq::empty()
    }) + (if now.reversed && !was.reversed {
        seq![TermCommand::Attribute(Attr::Reverse)]
    } else {
        Seq::empty()
    }) + (if !now.bold && was.bold {
        seq![TermCommand::Attribute(Attr::NormalIntensity)]
    } else {
        Seq::empty()
    }) + (if !now.underlined && was.underlined {
        seq![TermCommand::Attribute(Attr::NoUnderline)]
    } else {
        Seq::empty()
    }) + (if !now.reversed && was.reversed {
        seq![TermCommand::Attribute(Attr::NoReverse)]
    } else {
        Seq::empty()
    })
}

/// Whether writing a cell needs a cursor move: unless it follows the last
/// cell on its row.
pub open spec fn needs_move(pen: Pen, c: CellLook) -> bool {
    match pen.last {
        Some((lx, ly)) => !(lx + 1 == c.x && ly == c.y),
        None => true,
    }
}

/// A command when a condition holds.
pub open spec fn when(b: bool, cmd: TermCommand) -> Seq<TermCommand> {
    if b {
        seq![cmd]
    } else {
        Seq::empty()
    }
}

/// What writing cell `i` takes: a cursor move unless it follows the last
/// cell on its row, the colours and attributes that changed, then its
/// symbol.
pub open spec fn cell_commands(pen: Pen, c: CellLook, i: int) -> Seq<TermCommand> {
    when(needs_move(pen, c), TermCommand::MoveTo(c.x, c.y)) + when(
        c.fg != pen.fg,
        TermCommand::Foreground(spec_term_color(c.fg)),
    ) + when(c.bg != pen.bg, TermCommand::Background(spec_term_color(c.bg))) + (if c.attrs != pen.attrs {
        attr_changes(pen.attrs, c.attrs)
    } else {
        Seq::empty()
    }) + seq![TermCommand::Symbol(i as usize)]
}

pub open spec fn pen_after(c: CellLook) -> Pen {
    Pen { last: Some((c.x, c.y)), fg: c.fg, bg: c.bg, attrs: c.attrs }
}

/// The commands for the first `n` cells, and the pen after them.
pub open spec fn draw_upto(cells: Seq<CellLook>, n: nat) -> (Seq<TermCommand>, Pen)
    decreases n,
{
    if n == 0 {
        (Seq::empty(), fresh_pen())
    } else {
        let (cmds, pen) = draw_upto(cells, (n - 1) as nat);
        (cmds + cell_commands(pen, cells[n - 1], n - 1), pen_after(cells[n - 1]))
    }
}

/// Everything written for a list of changed cells, ending with the
/// default colours and attributes.
pub open spec fn spec_draw_commands(cells: Seq<CellLook>) -> Seq<TermCommand> {
    draw_upto(cells, cells.len()).0 + seq![
        TermCommand::Foreground(TermColor::Reset),
        TermCommand::Background(TermColor::Reset),
        TermCommand::Attribute(Attr::Reset),
    ]
}

fn push_attr(out: &mut Vec<TermCommand>, on: bool, a: Attr)
    ensures
        final(out)@ == old(out)@ + if on { seq![TermCommand::Attribute(a)] } else { Seq::empty() },
{
    if on {
        out.push(TermCommand::Attribute(a));
    }
    proof {
        assert(final(out)@ =~= old(out)@ + if on { seq![TermCommand::Attribute(a)] } else { Seq::empty() });
    }
}

fn attr_commands(out: &mut Vec<TermCommand>, was: Attrs, now: Attrs)
    ensures
        final(out)@ == old(out)@ + attr_changes(was, now),
{
    let ghost start = out@;
    push_attr(out, now.bold && !was.bold, Attr::Bold);
    push_attr(out, now.dim && !was.dim, Attr::Dim);
    push_attr(out, now.underlined && !was.underlined, Attr::Underlined);
    push_attr(out, now.reversed && !was.reversed, Attr::Reverse);
    push_attr(out, !now.bold && was.bold, Attr::NormalIntensity);
    push_attr(out, !now.underlined && was.underlined, Attr::NoUnderline);
    push_attr(out, !now.reversed && was.reversed, Attr::NoReverse);
    proof {
        reveal(attr_changes);
        assert(out@ =~= start + attr_changes(was, now));
    }
}

fn push_when(out: &mut Vec<TermCommand>, b: bool, cmd: TermCommand)
    ensures
        final(out)@ == old(out)@ + when(b, cmd),
{
    if b {
        out.push(cmd);
    }
    proof {
        assert(final(out)@ =~= old(out)@ + when(b, cmd));
    }
}

/// Adds what writing cell `i` takes, and gives the pen after it.
fn cell_step(out: &mut Vec<TermCommand>, pen: Pen, c: CellLook, i: usize) -> (p: Pen)
    ensures
        final(out)@ == old(out)@ + cell_commands(pen, c, i as int),
        p == pen_after(c),
{
    let ghost before = out@;
    let moves = match pen.last {
        Some((lx, ly)) => !((lx as u32) + 1 == c.x as u32 && ly == c.y),
        None => true,
    };
    push_when(out, moves, TermCommand::MoveTo(c.x, c.y));
    let ghost s1 = out@;
    push_when(out, c.fg != pen.fg, TermCommand::Foreground(color_to_terminal(c.fg)));
    let ghost s2 = out@;
    push_when(out, c.bg != pen.bg, TermCommand::Background(color_to_terminal(c.bg)));
    let ghost s3 = out@;
    if c.attrs != pen.attrs {
        attr_commands(out, pen.attrs, c.attrs);
    }
    let ghost s4 = out@;
    out.push(TermCommand::Symbol(i));
    proof {
        assert(s4 == s3 + (if c.attrs != pen.attrs { attr_changes(pen.attrs, c.attrs) } else { Seq::empty() }));
        assert(out@ =~= before + cell_commands(pen, c, i as int));
    }
    Pen { last: Some((c.x, c.y)), fg: c.fg, bg: c.bg, attrs: c.attrs }
}

/// What to write to show a list of changed cells, in order.
pub fn draw_commands(cells: &[CellLook]) -> (r: Vec<TermCommand>)
    ensures
        r@ == spec_draw_commands(cells@),
{
    let mut out: Vec<TermCommand> = Vec::new();
    let mut pen = Pen {
        last: None,
        fg: CellColor::Reset,
        bg: CellColor::Reset,
        attrs: Attrs { bold: false, dim: false, underlined: false, reversed: false },
    };
    let mut i: usize = 0;
    while i < cells.len()
        invariant
            i <= cells@.len(),
            (out@, pen) == draw_upto(cells@, i as nat),
        decreases cells@.len() - i,
    {
        pen = cell_step(&mut out, pen, cells[i], i);
        i = i + 1;
    }
    out.push(TermCommand::Foreground(TermColor::Reset));
    out.push(TermCommand::Background(TermColor::Reset));
    out.push(TermCommand::Attribute(Attr::Reset));
    proof {
        assert(out@ =~= spec_draw_commands(cells@));
    }
    out
}

} // verus!
