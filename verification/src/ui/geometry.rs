//! Rectangles of terminal cells and how screens are divided into them.
use vstd::prelude::*;

use ratatui::layout::{Constraint as Cn, Direction, Layout, Rect as Area};

verus! {

/// A rectangle of terminal cells: its top-left corner and its size.
#[derive(Debug, Clone, Copy, PartialEq, Eq, Structural)]
pub struct Rect {
    pub x: u16,
    pub y: u16,
    pub width: u16,
    pub height: u16,
}

/// `a - b`, or 0 when `b` is larger.
pub open spec fn sat_sub(a: int, b: int) -> int {
    if a >= b {
        a - b
    } else {
        0
    }
}

/// `a + b`, or the largest `u16` when the sum is larger.
pub open spec fn sat_add16(a: int, b: int) -> int {
    if a + b <= u16::MAX {
        a + b
    } else {
        u16::MAX as int
    }
}

pub open spec fn min_int(a: int, b: int) -> int {
    if a <= b {
        a
    } else {
        b
    }
}

pub open spec fn max_int(a: int, b: int) -> int {
    if a >= b {
        a
    } else {
        b
    }
}

impl Rect {
    /// The rectangle as `Rect::new` builds it: a size that would reach past
    /// the last coordinate is cut to fit.
    pub open spec fn spec_new(x: u16, y: u16, width: u16, height: u16) -> Rect {
        Rect {
            x: x,
            y: y,
            width: min_int(width as int, u16::MAX - x) as u16,
            height: min_int(height as int, u16::MAX - y) as u16,
        }
    }

    pub open spec fn spec_right(self) -> int {
        sat_add16(self.x as int, self.width as int)
    }

    pub open spec fn spec_bottom(self) -> int {
        sat_add16(self.y as int, self.height as int)
    }

    /// Whether the cell `(x, y)` lies in the rectangle.
    pub open spec fn spec_contains(self, x: int, y: int) -> bool {
        self.x <= x < self.spec_right() && self.y <= y < self.spec_bottom()
    }

    /// The whole rectangle lies within the coordinate range.
    pub open spec fn fits(self) -> bool {
        self.x + self.width <= u16::MAX && self.y + self.height <= u16::MAX
    }

    pub fn new(x: u16, y: u16, width: u16, height: u16) -> (r: Rect)
        ensures
            r == Rect::spec_new(x, y, width, height),
            r.fits(),
    {
        let max_width = u16::MAX - x;
        let max_height = u16::MAX - y;
        Rect {
            x,
            y,
            width: if width > max_width { max_width } else { width },
            height: if height > max_height { max_height } else { height },
        }
    }

    /// The first column to the right of the rectangle.
    pub fn right(self) -> (r: u16)
        ensures
            r == self.spec_right(),
    {
        self.x.saturating_add(self.width)
    }

    /// The first row below the rectangle.
    pub fn bottom(self) -> (r: u16)
        ensures
            r == self.spec_bottom(),
    {
        self.y.saturating_add(self.height)
    }

    pub fn contains(self, x: u16, y: u16) -> (b: bool)
        ensures
            b == self.spec_contains(x as int, y as int),
    {
        x >= self.x && x < self.right() && y >= self.y && y < self.bottom()
    }

    pub open spec fn spec_intersection(self, other: Rect) -> Rect {
        let x1 = max_int(self.x as int, other.x as int);
        let y1 = max_int(self.y as int, other.y as int);
        let x2 = min_int(self.spec_right(), other.spec_right());
        let y2 = min_int(self.spec_bottom(), other.spec_bottom());
        Rect { x: x1 as u16, y: y1 as u16, width: sat_sub(x2, x1) as u16, height: sat_sub(y2, y1) as u16 }
    }

    /// The cells that lie in both rectangles.
    pub fn intersection(self, other: Rect) -> (r: Rect)
        ensures
            r == self.spec_intersection(other),
    {
        let x1 = if self.x >= other.x { self.x } else { other.x };
        let y1 = if self.y >= other.y { self.y } else { other.y };
        let r1 = self.right();
        let r2 = other.right();
        let b1 = self.bottom();
        let b2 = other.bottom();
        let x2 = if r1 <= r2 { r1 } else { r2 };
        let y2 = if b1 <= b2 { b1 } else { b2 };
        Rect { x: x1, y: y1, width: x2.saturating_sub(x1), height: y2.saturating_sub(y1) }
    }

    /// The inside of a frame drawn with a border on every side.
    pub open spec fn spec_bordered_inner(self) -> Rect {
        let x = min_int(sat_add16(self.x as int, 1), self.spec_right());
        let w1 = sat_sub(self.width as int, 1);
        let y = min_int(sat_add16(self.y as int, 1), self.spec_bottom());
        let h1 = sat_sub(self.height as int, 1);
        Rect { x: x as u16, y: y as u16, width: sat_sub(w1, 1) as u16, height: sat_sub(h1, 1) as u16 }
    }

    /// The inside of a frame drawn with a border on every side.
    pub fn bordered_inner(self) -> (r: Rect)
        ensures
            r == self.spec_bordered_inner(),
    {
        let right = self.right();
        let bottom = self.bottom();
        let x1 = self.x.saturating_add(1);
        let y1 = self.y.saturating_add(1);
        Rect {
            x: if x1 <= right { x1 } else { right },
            y: if y1 <= bottom { y1 } else { bottom },
            width: self.width.saturating_sub(1).saturating_sub(1),
            height: self.height.saturating_sub(1).saturating_sub(1),
        }
    }
}

/// How much room one part of a divided rectangle asks for.
#[derive(Debug, Clone, Copy, PartialEq, Eq, Structural)]
pub enum Constraint {
    /// Exactly this many cells.
    Length(u16),
    /// At least this many cells.
    Min(u16),
    /// This share, in percent, of the room.
    Percentage(u16),
}

/// A rectangle as `Rect::new` makes it: a size that would reach past the
/// last coordinate is cut to fit.
pub open spec fn clip(r: Rect) -> Rect {
    Rect::spec_new(r.x, r.y, r.width, r.height)
}

/// Where a rectangle begins along a split: its column for a split side by
/// side, its row for a split into a stack.
pub open spec fn lead(r: Rect, horizontal: bool) -> int {
    if horizontal {
        r.x as int
    } else {
        r.y as int
    }
}

/// How far a rectangle reaches along a split: its width or its height.
pub open spec fn extent(r: Rect, horizontal: bool) -> int {
    if horizontal {
        r.width as int
    } else {
        r.height as int
    }
}

/// The first column (or row) past a rectangle along a split.
pub open spec fn trail(r: Rect, horizontal: bool) -> int {
    lead(r, horizontal) + extent(r, horizontal)
}

/// A part spans the whole area across the split: the full height of a split
/// side by side, the full width of a stack.
pub open spec fn spans_across(area: Rect, horizontal: bool, part: Rect) -> bool {
    if horizontal {
        part.y == area.y && part.height == area.height
    } else {
        part.x == area.x && part.width == area.width
    }
}

/// The parts lie in `area` one after another along the split, in order and
/// without gaps or overlaps: the first begins where the area does, each
/// begins where the one before it ends, the last ends no later than the
/// area does, and each spans the area across the split.
pub open spec fn packed(area: Rect, horizontal: bool, parts: Seq<Rect>) -> bool {
    &&& forall|i: int| 0 <= i < parts.len() ==> spans_across(area, horizontal, #[trigger] parts[i])
    &&& parts.len() > 0 ==> lead(parts[0], horizontal) == lead(area, horizontal)
    &&& forall|i: int|
        0 <= i < parts.len() - 1 ==> trail(#[trigger] parts[i], horizontal) == lead(parts[i + 1], horizontal)
    &&& parts.len() > 0 ==> trail(parts.last(), horizontal) <= trail(area, horizontal)
}

/// Exactly one part asks for at least a number of cells (and grows to take
/// the rest).
pub open spec fn has_min(cs: Seq<Constraint>) -> bool {
    &&& exists|i: int| 0 <= i < cs.len() && #[trigger] cs[i] is Min
    &&& forall|i: int, j: int| 0 <= i < cs.len() && 0 <= j < cs.len() && #[trigger] cs[i] is Min && #[trigger] cs[j] is Min ==> i == j
}

/// Every part asks for a share, and the shares make the whole.
pub open spec fn all_shares(cs: Seq<Constraint>) -> bool {
    &&& forall|i: int| 0 <= i < cs.len() ==> #[trigger] cs[i] is Percentage
    &&& share_total(cs) == 100
}

/// The sum of the shares asked for, in percent.
pub open spec fn share_total(cs: Seq<Constraint>) -> int
    decreases cs.len(),
{
    if cs.len() == 0 {
        0
    } else {
        share_total(cs.drop_last()) + match cs.last() {
            Constraint::Percentage(p) => p as int,
            _ => 0,
        }
    }
}

/// No part asks for a share.
pub open spec fn no_shares(cs: Seq<Constraint>) -> bool {
    forall|i: int| 0 <= i < cs.len() ==> !(#[trigger] cs[i] is Percentage)
}

/// The cells the parts ask for outright: the sum of the lengths and the
/// minimums.
pub open spec fn fixed_total(cs: Seq<Constraint>) -> int
    decreases cs.len(),
{
    if cs.len() == 0 {
        0
    } else {
        fixed_total(cs.drop_last()) + match cs.last() {
            Constraint::Length(n) => n as int,
            Constraint::Min(n) => n as int,
            Constraint::Percentage(_) => 0,
        }
    }
}

/// Each part asking for a length measures that length along the split, and
/// each part asking for a minimum measures at least that.
pub open spec fn sizes_kept(cs: Seq<Constraint>, horizontal: bool, parts: Seq<Rect>) -> bool {
    forall|i: int|
        0 <= i < cs.len() ==> match #[trigger] cs[i] {
            Constraint::Length(n) => extent(parts[i], horizontal) == n,
            Constraint::Min(n) => extent(parts[i], horizontal) >= n,
            Constraint::Percentage(_) => true,
        }
}

/// What holds of every division of `area` the layout solver can give for
/// `cs`: one part per constraint, packed in order across the area; the
/// parts fill the area when one part has a minimum (it grows) or when the
/// shares make the whole; and when no part asks for a share, one part has a
/// minimum and the area holds every length and minimum, those are kept.
pub open spec fn split_facts(area: Rect, horizontal: bool, cs: Seq<Constraint>, parts: Seq<Rect>) -> bool {
    &&& parts.len() == cs.len()
    &&& packed(area, horizontal, parts)
    &&& (has_min(cs) || all_shares(cs)) && parts.len() > 0 ==> trail(parts.last(), horizontal) == trail(
        area,
        horizontal,
    )
    &&& has_min(cs) && no_shares(cs) && fixed_total(cs) <= extent(area, horizontal) ==> sizes_kept(
        cs,
        horizontal,
        parts,
    )
}

/// Divides a rectangle into parts with the terminal layout solver.
///
/// Calls `ratatui::layout::Layout::split` (no margin, no spacing, the
/// default `Flex::Start`) on the rectangle as `Rect::new` clips it. The
/// source fixes the parts across the split exactly and keeps every boundary
/// inside the area (required constraints); the solver's weights keep the
/// parts contiguous from the area's start (spacer weights above every size
/// weight), let a `Min` part grow over the trailing space, let shares that
/// make the whole fill the area, and keep lengths and minimums above the
/// growth of a `Min` part. Which rectangles come out beyond that is left
/// unsaid: the solver may settle conflicting constraints either way, and
/// the answer for the same arguments can differ between threads and
/// processes.
#[verifier::external_body]
pub(crate) fn split(area: Rect, horizontal: bool, constraints: &[Constraint]) -> (parts: Vec<Rect>)
    ensures
        split_facts(clip(area), horizontal, constraints@, parts@),
{
    let cs: Vec<Cn> = constraints.iter().map(|c| match *c {
        Constraint::Length(n) => Cn::Length(n),
        Constraint::Min(n) => Cn::Min(n),
        Constraint::Percentage(n) => Cn::Percentage(n),
    }).collect();
    let dir = if horizontal { Direction::Horizontal } else { Direction::Vertical };
    let parts = Layout::new(dir, cs).split(Area::new(area.x, area.y, area.width, area.height));
    parts.iter().map(|r| Rect { x: r.x, y: r.y, width: r.width, height: r.height }).collect()
}

} // verus!
