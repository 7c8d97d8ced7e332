use vstd::prelude::*;

use super::draw::{
    accent, add_text_box, background, drawn, fg, line, muted, one_line, panel_of, plain, put, text_box, text_tint,
    Drawn, Style, Widget, Wrap,
};
use super::geometry::{clip, max_int, min_int, sat_sub, split, split_facts, Constraint, Rect};

verus! {

/// The buttons shown beside a game.
#[derive(Debug, Clone, Copy, PartialEq, Eq, Structural)]
pub enum GameControl {
    Resign,
    Draw,
    Lobby,
    Disconnect,
}

impl GameControl {
    /// The controls in the order they are shown and bound to F2..F5.
    pub fn all() -> (a: [GameControl; 4])
        ensures
            a@ == seq![GameControl::Resign, GameControl::Draw, GameControl::Lobby, GameControl::Disconnect],
    {
        [GameControl::Resign, GameControl::Draw, GameControl::Lobby, GameControl::Disconnect]
    }

    pub open spec fn spec_label(self) -> Seq<char> {
        match self {
            GameControl::Resign => "F2 Resign"@,
            GameControl::Draw => "F3 Draw"@,
            GameControl::Lobby => "F4 Lobby"@,
            GameControl::Disconnect => "F5 Quit"@,
        }
    }

    /// Text of the button, with its function key.
    pub fn label(self) -> (s: &'static str)
        ensures
            s@ == self.spec_label(),
    {
        match self {
            GameControl::Resign => "F2 Resign",
            GameControl::Draw => "F3 Draw",
            GameControl::Lobby => "F4 Lobby",
            GameControl::Disconnect => "F5 Quit",
        }
    }
}

/// Where the four buttons are drawn: stacked down the left edge of a wide
/// screen, side by side along the bottom of a narrow one, in the four cells
/// `footer` that the footer bar is divided into.
pub open spec fn spec_button_areas(area: Rect, footer: Seq<Rect>) -> Seq<Rect> {
    if area.width >= 78 {
        Seq::new(
            4,
            |i: int| Rect::spec_new((area.x + 1) as u16, (area.y + 4 + i * 4) as u16, 16, 3).spec_intersection(area),
        )
    } else {
        footer
    }
}

/// A screen on which the buttons can be placed: a wide one leaves room for
/// all four below its top.
pub open spec fn buttons_fit(area: Rect) -> bool {
    area.width >= 78 ==> area.x < u16::MAX && area.y + 16 <= u16::MAX
}

/// Where the buttons for the controls are drawn, in the order of `all`, the
/// footer bar of a narrow screen divided into `footer`.
pub fn button_areas_in(area: Rect, footer: &[Rect]) -> (r: [Rect; 4])
    requires
        buttons_fit(area),
        footer@.len() == 4,
    ensures
        r@ == spec_button_areas(area, footer@),
{
    if area.width >= 78 {
        let r = [
            Rect::new(area.x + 1, area.y + 4, 16, 3).intersection(area),
            Rect::new(area.x + 1, area.y + 8, 16, 3).intersection(area),
            Rect::new(area.x + 1, area.y + 12, 16, 3).intersection(area),
            Rect::new(area.x + 1, area.y + 16, 16, 3).intersection(area),
        ];
        proof {
            assert(r@ =~= spec_button_areas(area, footer@));
        }
        r
    } else {
        let r = [footer[0], footer[1], footer[2], footer[3]];
        proof {
            assert(r@ =~= footer@);
        }
        r
    }
}

/// The bar along the bottom of a narrow screen where the buttons sit.
pub open spec fn footer_area(area: Rect) -> Rect {
    Rect::spec_new(
        area.x,
        max_int(sat_sub(area.spec_bottom(), 3), area.y as int) as u16,
        area.width,
        min_int(area.height as int, 3) as u16,
    )
}

/// Four equal shares.
pub open spec fn quarters() -> Seq<Constraint> {
    seq![Constraint::Percentage(25), Constraint::Percentage(25), Constraint::Percentage(25), Constraint::Percentage(25)]
}

/// Two equal shares.
pub open spec fn halves() -> Seq<Constraint> {
    seq![Constraint::Percentage(50), Constraint::Percentage(50)]
}

/// `footer` is a division the layout solver can give of the footer bar
/// into four cells.
pub open spec fn footer_split(area: Rect, footer: Seq<Rect>) -> bool {
    split_facts(clip(footer_area(area)), true, quarters(), footer)
}

/// The footer bar divided, by the layout solver, into four cells.
pub(crate) fn footer_cells(area: Rect) -> (r: Vec<Rect>)
    ensures
        r@.len() == 4,
        footer_split(area, r@),
{
    let bottom = area.bottom().saturating_sub(3);
    let footer = Rect::new(
        area.x,
        if bottom >= area.y { bottom } else { area.y },
        area.width,
        if area.height <= 3 { area.height } else { 3 },
    );
    let shares = [
        Constraint::Percentage(25),
        Constraint::Percentage(25),
        Constraint::Percentage(25),
        Constraint::Percentage(25),
    ];
    proof {
        assert(shares@ =~= quarters());
    }
    split(footer, true, &shares)
}

/// Where the buttons for the controls are drawn, in the order of `all`, the
/// footer bar laid out by the layout solver.
pub fn button_areas(area: Rect) -> (r: [Rect; 4])
    requires
        buttons_fit(area),
    ensures
        exists|footer: Seq<Rect>|
            footer.len() == 4 && footer_split(area, footer) && r@ == #[trigger] spec_button_areas(area, footer),
{
    let footer = footer_cells(area);
    let r = button_areas_in(area, footer.as_slice());
    proof {
        assert(footer@.len() == 4 && footer_split(area, footer@) && r@ == spec_button_areas(area, footer@));
    }
    r
}

/// The confirmation dialog: at most 52 by 9 cells, centred.
pub open spec fn spec_dialog_area(area: Rect) -> Rect {
    let w = min_int(area.width as int, 52);
    let h = min_int(area.height as int, 9);
    Rect::spec_new((area.x + (area.width - w) / 2) as u16, (area.y + (area.height - h) / 2) as u16, w as u16, h as u16)
}

/// Where the confirmation dialog is drawn.
pub fn dialog_area(area: Rect) -> (r: Rect)
    requires
        area.fits(),
    ensures
        r == spec_dialog_area(area),
{
    let w = if area.width <= 52 { area.width } else { 52 };
    let h = if area.height <= 9 { area.height } else { 9 };
    Rect::new(area.x + (area.width - w) / 2, area.y + (area.height - h) / 2, w, h)
}

/// The row of the dialog that holds its two buttons.
pub open spec fn choice_row(area: Rect) -> Rect {
    let inner = spec_dialog_area(area).spec_bordered_inner();
    Rect::spec_new(
        inner.x,
        max_int(sat_sub(inner.spec_bottom(), 3), inner.y as int) as u16,
        inner.width,
        min_int(inner.height as int, 3) as u16,
    )
}

/// `cs` is a division the layout solver can give of the dialog's button row
/// into its two buttons.
pub open spec fn choices_split(area: Rect, cs: Seq<Rect>) -> bool {
    split_facts(clip(choice_row(area)), true, halves(), cs)
}

/// The two buttons of the confirmation dialog, cancel then confirm: the
/// dialog's button row divided in two by the layout solver.
pub fn choices(area: Rect) -> (r: [Rect; 2])
    requires
        area.fits(),
    ensures
        choices_split(area, r@),
{
    let inner = dialog_area(area).bordered_inner();
    let bottom = inner.bottom().saturating_sub(3);
    let row = Rect::new(
        inner.x,
        if bottom >= inner.y { bottom } else { inner.y },
        inner.width,
        if inner.height <= 3 { inner.height } else { 3 },
    );
    let shares = [Constraint::Percentage(50), Constraint::Percentage(50)];
    proof {
        assert(shares@ =~= halves());
    }
    let cols = split(row, true, &shares);
    let r = [cols[0], cols[1]];
    proof {
        assert(r@ =~= cols@);
    }
    r
}

/// One button of the dialog, framed and titled when selected.
pub open spec fn choice_box(rect: Rect, text: Seq<char>, selected: bool) -> Seq<Drawn> {
    text_box(rect, if selected { " Selected "@ } else { ""@ }, text, fg(if selected { accent() } else { muted() }))
}

/// The confirmation dialog: a cleared, framed box with the question, and
/// the cancel and confirm buttons (in `cs`), the chosen one highlighted.
pub open spec fn spec_confirmation(area: Rect, message: Seq<char>, confirm_selected: bool, cs: Seq<Rect>) -> Seq<Drawn> {
    let rect = spec_dialog_area(area);
    let inner = rect.spec_bordered_inner();
    seq![
        Drawn::Clear { area: rect },
        panel_of(rect, " Confirm action "@, Style { fg: text_tint(), bg: background(), bold: false }),
        Drawn::Text {
            area: Rect::spec_new(inner.x, inner.y, inner.width, sat_sub(inner.height as int, 3) as u16),
            spans: seq![line(message, plain())],
            style: plain(),
            centered: false,
            wrap: Wrap::Trim,
        },
    ] + choice_box(cs[0], "Cancel [Esc]"@, !confirm_selected) + choice_box(cs[1], "Confirm [Y]"@, confirm_selected)
}

/// The confirmation dialog for a question, its buttons at `cs`.
pub fn confirmation_in(area: Rect, message: &str, confirm_selected: bool, cs: &[Rect]) -> (r: Vec<Widget>)
    requires
        area.fits(),
        cs@.len() == 2,
    ensures
        drawn(r@) == spec_confirmation(area, message@, confirm_selected, cs@),
{
    let rect = dialog_area(area);
    let inner = rect.bordered_inner();
    let mut out: Vec<Widget> = Vec::new();
    put(&mut out, Widget::Clear { area: rect });
    put(
        &mut out,
        Widget::Panel {
            area: rect,
            title: String::from_str(" Confirm action "),
            rounded: true,
            border: fg(super::draw::border_tint()),
            style: Style { fg: text_tint(), bg: background(), bold: false },
        },
    );
    put(
        &mut out,
        Widget::Text {
            area: Rect::new(inner.x, inner.y, inner.width, inner.height.saturating_sub(3)),
            spans: one_line(String::from_str(message), plain()),
            style: plain(),
            centered: false,
            wrap: Wrap::Trim,
        },
    );
    add_text_box(
        &mut out,
        cs[0],
        String::from_str(if !confirm_selected { " Selected " } else { "" }),
        String::from_str("Cancel [Esc]"),
        fg(if !confirm_selected { accent() } else { muted() }),
    );
    add_text_box(
        &mut out,
        cs[1],
        String::from_str(if confirm_selected { " Selected " } else { "" }),
        String::from_str("Confirm [Y]"),
        fg(if confirm_selected { accent() } else { muted() }),
    );
    proof {
        assert(drawn(out@) =~= spec_confirmation(area, message@, confirm_selected, cs@));
    }
    out
}

/// The confirmation dialog for a question, its buttons laid out by the
/// layout solver.
pub fn confirmation(area: Rect, message: &str, confirm_selected: bool) -> (r: Vec<Widget>)
    requires
        area.fits(),
    ensures
        exists|cs: Seq<Rect>|
            cs.len() == 2 && choices_split(area, cs) && drawn(r@) == #[trigger] spec_confirmation(
                area,
                message@,
                confirm_selected,
                cs,
            ),
{
    let cs = choices(area);
    let r = confirmation_in(area, message, confirm_selected, &cs);
    proof {
        assert(cs@.len() == 2 && choices_split(area, cs@) && drawn(r@) == spec_confirmation(
            area,
            message@,
            confirm_selected,
            cs@,
        ));
    }
    r
}

} // verus!
