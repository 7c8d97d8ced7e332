//! What a screen shows, as a list of things to draw: filled areas, framed
//! panels, styled text and single cells.
use vstd::prelude::*;

use super::geometry::Rect;
use super::sprites::{block_rows, HalfBlockPixel};
use crate::text::{decimal, decimal_chars, string_of};

verus! {

/// A colour of text or background.
#[derive(Debug, Clone, Copy, PartialEq, Eq, Structural)]
pub enum Tint {
    /// Whatever the cell had before.
    Inherit,
    Rgb(u8, u8, u8),
    Gray,
    DarkGray,
    Red,
    Green,
    Yellow,
}

/// How text is drawn: its colour, its background and whether it is bold.
#[derive(Debug, Clone, Copy, PartialEq, Eq, Structural)]
pub struct Style {
    pub fg: Tint,
    pub bg: Tint,
    pub bold: bool,
}

/// The screen's background.
#[verifier::allow_in_spec]
pub fn background() -> Tint
    returns
        Tint::Rgb(24, 27, 32),
{
    Tint::Rgb(24, 27, 32)
}

/// Ordinary text.
#[verifier::allow_in_spec]
pub fn text_tint() -> Tint
    returns
        Tint::Rgb(229, 224, 210),
{
    Tint::Rgb(229, 224, 210)
}

/// Text of less importance.
#[verifier::allow_in_spec]
pub fn muted() -> Tint
    returns
        Tint::Rgb(145, 157, 157),
{
    Tint::Rgb(145, 157, 157)
}

/// Highlighted text.
#[verifier::allow_in_spec]
pub fn accent() -> Tint
    returns
        Tint::Rgb(151, 203, 166),
{
    Tint::Rgb(151, 203, 166)
}

/// The background of a selected line.
#[verifier::allow_in_spec]
pub fn panel_tint() -> Tint
    returns
        Tint::Rgb(34, 43, 43),
{
    Tint::Rgb(34, 43, 43)
}

/// The colour of frames.
#[verifier::allow_in_spec]
pub fn border_tint() -> Tint
    returns
        Tint::Rgb(67, 85, 78),
{
    Tint::Rgb(67, 85, 78)
}

/// A style that changes nothing.
#[verifier::allow_in_spec]
pub fn plain() -> Style
    returns
        (Style { fg: Tint::Inherit, bg: Tint::Inherit, bold: false }),
{
    Style { fg: Tint::Inherit, bg: Tint::Inherit, bold: false }
}

/// Text in a colour.
#[verifier::allow_in_spec]
pub fn fg(t: Tint) -> Style
    returns
        (Style { fg: t, bg: Tint::Inherit, bold: false }),
{
    Style { fg: t, bg: Tint::Inherit, bold: false }
}

/// Bold text in a colour.
#[verifier::allow_in_spec]
pub fn bold(t: Tint) -> Style
    returns
        (Style { fg: t, bg: Tint::Inherit, bold: true }),
{
    Style { fg: t, bg: Tint::Inherit, bold: true }
}

/// A piece of text in one style; `starts_line` begins a new line with it.
pub struct Span {
    pub text: String,
    pub style: Style,
    pub starts_line: bool,
}

/// What a span shows.
pub type SpanView = (Seq<char>, Style, bool);

impl View for Span {
    type V = SpanView;

    open spec fn view(&self) -> SpanView {
        (self.text@, self.style, self.starts_line)
    }
}

/// How long text wraps at the edge of its area.
#[derive(Debug, Clone, Copy, PartialEq, Eq, Structural)]
pub enum Wrap {
    /// Lines are cut at the edge.
    Cut,
    /// Lines go on below, keeping leading spaces.
    Keep,
    /// Lines go on below, without leading spaces.
    Trim,
}

/// One thing to draw.
pub enum Widget {
    /// Every cell of the area is reset: a space in the default style.
    Clear { area: Rect },
    /// Every cell of the area takes the style (and is blanked first when
    /// `clear`).
    Fill { area: Rect, style: Style, clear: bool },
    /// A frame around the area, with a title on its top edge; `style` is
    /// laid over the whole area, `border` over the frame's lines.
    Panel { area: Rect, title: String, rounded: bool, border: Style, style: Style },
    /// Lines of text in the area, over a style laid on the whole area.
    Text { area: Rect, spans: Vec<Span>, style: Style, centered: bool, wrap: Wrap },
    /// One character in one cell.
    Cell { x: u16, y: u16, symbol: char, style: Style },
    /// Rows of half-block cells whose top-left cell is `(x, y)`.
    Blocks { x: u16, y: u16, rows: Vec<Vec<HalfBlockPixel>> },
}

/// What a widget draws.
pub enum Drawn {
    Clear { area: Rect },
    Fill { area: Rect, style: Style, clear: bool },
    Panel { area: Rect, title: Seq<char>, rounded: bool, border: Style, style: Style },
    Text { area: Rect, spans: Seq<SpanView>, style: Style, centered: bool, wrap: Wrap },
    Cell { x: u16, y: u16, symbol: char, style: Style },
    Blocks { x: u16, y: u16, rows: Seq<Seq<HalfBlockPixel>> },
}

pub open spec fn spans_of(v: Seq<Span>) -> Seq<SpanView> {
    v.map_values(|s: Span| s@)
}

impl View for Widget {
    type V = Drawn;

    open spec fn view(&self) -> Drawn {
        match self {
            Widget::Clear { area } => Drawn::Clear { area: *area },
            Widget::Fill { area, style, clear } => Drawn::Fill { area: *area, style: *style, clear: *clear },
            Widget::Panel { area, title, rounded, border, style } => Drawn::Panel {
                area: *area,
                title: title@,
                rounded: *rounded,
                border: *border,
                style: *style,
            },
            Widget::Text { area, spans, style, centered, wrap } => Drawn::Text {
                area: *area,
                spans: spans_of(spans@),
                style: *style,
                centered: *centered,
                wrap: *wrap,
            },
            Widget::Cell { x, y, symbol, style } => Drawn::Cell { x: *x, y: *y, symbol: *symbol, style: *style },
            Widget::Blocks { x, y, rows } => Drawn::Blocks { x: *x, y: *y, rows: block_rows(rows@) },
        }
    }
}

pub open spec fn drawn(v: Seq<Widget>) -> Seq<Drawn> {
    v.map_values(|w: Widget| w@)
}

/// A line of text in one style.
pub open spec fn line(text: Seq<char>, style: Style) -> SpanView {
    (text, style, true)
}

/// An empty line.
pub open spec fn blank() -> SpanView {
    line(Seq::empty(), plain())
}

/// A frame drawn as the game's panels are: rounded, in the frame colour.
pub open spec fn panel_of(area: Rect, title: Seq<char>, style: Style) -> Drawn {
    Drawn::Panel { area, title, rounded: true, border: fg(border_tint()), style }
}

/// Text that is cut at the edge and not centred.
pub open spec fn text_in(area: Rect, spans: Seq<SpanView>, style: Style) -> Drawn {
    Drawn::Text { area, spans, style, centered: false, wrap: Wrap::Cut }
}

/// A framed box of one line of text, in a style laid over the whole box.
pub open spec fn text_box(area: Rect, title: Seq<char>, text: Seq<char>, style: Style) -> Seq<Drawn> {
    seq![panel_of(area, title, style), text_in(area.spec_bordered_inner(), seq![line(text, plain())], plain())]
}

/// Adds a framed box of one line of text.
pub fn add_text_box(out: &mut Vec<Widget>, area: Rect, title: String, text: String, style: Style)
    ensures
        drawn(final(out)@) == drawn(old(out)@) + text_box(area, title@, text@, style),
{
    let ghost before = drawn(out@);
    let ghost t = title@;
    let ghost x = text@;
    put(out, Widget::Panel { area, title, rounded: true, border: fg(border_tint()), style });
    put(
        out,
        Widget::Text {
            area: area.bordered_inner(),
            spans: one_line(text, plain()),
            style: plain(),
            centered: false,
            wrap: Wrap::Cut,
        },
    );
    proof {
        assert(drawn(out@) =~= before + text_box(area, t, x, style));
    }
}

/// Adds a widget to a list.
pub fn put(out: &mut Vec<Widget>, w: Widget)
    ensures
        drawn(final(out)@) == drawn(old(out)@).push(w@),
{
    let ghost before = out@;
    out.push(w);
    proof {
        assert(drawn(out@) =~= drawn(before).push(w@));
    }
}

/// Adds widgets to a list.
pub fn put_all(out: &mut Vec<Widget>, extra: Vec<Widget>)
    ensures
        drawn(final(out)@) == drawn(old(out)@) + drawn(extra@),
{
    let ghost before = out@;
    let mut extra = extra;
    let ghost added = extra@;
    out.append(&mut extra);
    proof {
        assert(drawn(out@) =~= drawn(before) + drawn(added));
    }
}

/// Adds a span to a list of spans.
pub fn add_span(out: &mut Vec<Span>, text: String, style: Style, starts_line: bool)
    ensures
        spans_of(final(out)@) == spans_of(old(out)@).push((text@, style, starts_line)),
{
    let ghost before = out@;
    let ghost t = text@;
    out.push(Span { text, style, starts_line });
    proof {
        assert(spans_of(out@) =~= spans_of(before).push((t, style, starts_line)));
    }
}

/// Adds a line made of a literal.
pub fn add_line(out: &mut Vec<Span>, text: &str, style: Style)
    ensures
        spans_of(final(out)@) == spans_of(old(out)@).push(line(text@, style)),
{
    add_span(out, String::from_str(text), style, true);
}

/// Adds an empty line.
pub fn add_blank(out: &mut Vec<Span>)
    ensures
        spans_of(final(out)@) == spans_of(old(out)@).push(blank()),
{
    add_span(out, String::new(), plain(), true);
}

/// A span list holding one line.
pub fn one_line(text: String, style: Style) -> (v: Vec<Span>)
    ensures
        spans_of(v@) == seq![line(text@, style)],
{
    let mut v: Vec<Span> = Vec::new();
    add_span(&mut v, text, style, true);
    proof {
        assert(spans_of(v@) =~= seq![line(text@, style)]);
    }
    v
}

/// The decimal text of a count.
pub fn count_text(n: usize) -> (s: String)
    ensures
        s@ == decimal(n as nat),
{
    let d = decimal_chars(n as u64);
    string_of(d.as_slice())
}

} // verus!
