use vstd::prelude::*;

use super::draw::{
    accent, add_blank, add_line, add_span, blank, bold, border_tint, count_text, drawn, fg, line, muted, one_line, panel_tint,
    plain, put, spans_of, text_tint, background, Drawn, Span, SpanView, Style, Tint, Widget, Wrap,
};
use super::geometry::{clip, extent, fixed_total, has_min, no_shares, split, split_facts, min_int, Constraint, Rect};
use crate::text::decimal;

verus! {

/// What the lobby screen shows.
pub struct LobbyView<'a> {
    pub online_count: usize,
    pub queue_size: usize,
    pub username: &'a str,
    pub searching: bool,
    pub selected: usize,
    pub help: bool,
    pub computer_level: Option<u8>,
    pub command: &'a str,
    pub status: Option<&'a str>,
}

/// What the lobby shows.
pub struct LobbyData {
    pub online_count: usize,
    pub queue_size: usize,
    pub username: Seq<char>,
    pub searching: bool,
    pub selected: usize,
    pub help: bool,
    pub computer_level: Option<u8>,
    pub command: Seq<char>,
    pub status: Option<Seq<char>>,
}

impl<'a> View for LobbyView<'a> {
    type V = LobbyData;

    open spec fn view(&self) -> LobbyData {
        LobbyData {
            online_count: self.online_count,
            queue_size: self.queue_size,
            username: self.username@,
            searching: self.searching,
            selected: self.selected,
            help: self.help,
            computer_level: self.computer_level,
            command: self.command@,
            status: opt_str(self.status),
        }
    }
}

/// The lobby's content: at most 96 by 29 cells, centred.
pub open spec fn lobby_content(area: Rect) -> Rect {
    let width = min_int(area.width as int, 96);
    let height = min_int(area.height as int, 29);
    Rect::spec_new(
        (area.x + (area.width - width) / 2) as u16,
        (area.y + (area.height - height) / 2) as u16,
        width as u16,
        height as u16,
    )
}

/// Whether the lobby has room for the picture beside the menu.
pub open spec fn lobby_is_wide(area: Rect) -> bool {
    lobby_content(area).width >= 76 && lobby_content(area).height >= 23
}

/// The framed menu panel of the lobby: the right of the body's two columns
/// when the picture fits, else the whole body (the middle of the lobby's
/// three rows).
pub open spec fn lobby_menu_panel(area: Rect, rows: Seq<Rect>, cols: Seq<Rect>) -> Rect {
    if lobby_is_wide(area) {
        cols[1]
    } else {
        rows[1]
    }
}

pub open spec fn spec_menu_inner(area: Rect, rows: Seq<Rect>, cols: Seq<Rect>) -> Rect {
    lobby_menu_panel(area, rows, cols).spec_bordered_inner()
}

/// How many rows each menu entry takes: its name, its description and a
/// gap; a short menu leaves out the descriptions, a very short one the gaps
/// too.
pub open spec fn menu_step(inner: Rect) -> int {
    if inner.height < 11 {
        1
    } else if inner.height < 17 {
        2
    } else {
        3
    }
}

/// The menu entry under the cell `(x, y)` of a menu whose inside is
/// `inner`: entries start two rows into the menu, one every `menu_step`
/// rows, and the last row of a step of two or more is a gap.
pub open spec fn entry_under(inner: Rect, x: int, y: int) -> Option<usize> {
    let step = menu_step(inner);
    if !inner.spec_contains(x, y) || y < inner.y + 2 {
        None
    } else {
        let row = y - (inner.y + 2);
        if row / step < 5 && (step == 1 || row % step < step - 1) {
            Some((row / step) as usize)
        } else {
            None
        }
    }
}

/// The menu entry under the cell `(x, y)`, the lobby divided into `rows`
/// and its body into `cols`.
pub open spec fn spec_option_at(area: Rect, rows: Seq<Rect>, cols: Seq<Rect>, x: int, y: int) -> Option<usize> {
    entry_under(spec_menu_inner(area, rows, cols), x, y)
}

/// The lobby's content area.
pub(crate) fn content_of(area: Rect) -> (r: Rect)
    requires
        area.fits(),
    ensures
        r == lobby_content(area),
{
    let width = if area.width <= 96 { area.width } else { 96 };
    let height = if area.height <= 29 { area.height } else { 29 };
    Rect::new(area.x + (area.width - width) / 2, area.y + (area.height - height) / 2, width, height)
}

/// The lobby's rows: a header of 3, the body, and a footer of 2.
pub open spec fn lobby_row_constraints() -> Seq<Constraint> {
    seq![Constraint::Length(3), Constraint::Min(0), Constraint::Length(2)]
}

/// The body's columns: the picture (43%) and the menu (57%).
pub open spec fn lobby_column_constraints() -> Seq<Constraint> {
    seq![Constraint::Percentage(43), Constraint::Percentage(57)]
}

/// The menu panel's inside when it shows the search or the help: the text,
/// and a bar of one row below it.
pub open spec fn menu_part_constraints() -> Seq<Constraint> {
    seq![Constraint::Min(0), Constraint::Length(1)]
}

/// `rows` and `cols` are a division the layout solver can give of the
/// lobby into its rows and of its body into columns.
pub open spec fn lobby_split(area: Rect, rows: Seq<Rect>, cols: Seq<Rect>) -> bool {
    &&& split_facts(clip(lobby_content(area)), false, lobby_row_constraints(), rows)
    &&& split_facts(clip(rows[1]), true, lobby_column_constraints(), cols)
}

/// `parts` is a division the layout solver can give of the menu's inside
/// (the lobby divided into `rows` and `cols`) into text and bar.
pub open spec fn menu_split(area: Rect, rows: Seq<Rect>, cols: Seq<Rect>, parts: Seq<Rect>) -> bool {
    split_facts(clip(spec_menu_inner(area, rows, cols)), false, menu_part_constraints(), parts)
}

/// The lobby's rows (a header, the body and a footer) and the body's two
/// columns (the picture and the menu), as the layout solver gives them.
pub(crate) fn lobby_parts(area: Rect) -> (r: (Vec<Rect>, Vec<Rect>))
    requires
        area.fits(),
    ensures
        r.0@.len() == 3,
        r.1@.len() == 2,
        lobby_split(area, r.0@, r.1@),
{
    let content = content_of(area);
    let constraints = [Constraint::Length(3), Constraint::Min(0), Constraint::Length(2)];
    proof {
        assert(constraints@ =~= lobby_row_constraints());
    }
    let rows = split(content, false, &constraints);
    let halves = [Constraint::Percentage(43), Constraint::Percentage(57)];
    proof {
        assert(halves@ =~= lobby_column_constraints());
    }
    let cols = split(rows[1], true, &halves);
    (rows, cols)
}

impl<'a> LobbyView<'a> {
    /// The inside of the lobby's menu panel, the lobby divided into `rows`
    /// and its body into `cols`.
    pub fn menu_inner_in(area: Rect, rows: &[Rect], cols: &[Rect]) -> (r: Rect)
        requires
            area.fits(),
            rows@.len() == 3,
            cols@.len() == 2,
        ensures
            r == spec_menu_inner(area, rows@, cols@),
    {
        let content = content_of(area);
        let body = if content.width >= 76 && content.height >= 23 {
            cols[1]
        } else {
            rows[1]
        };
        body.bordered_inner()
    }

    /// The inside of the lobby's menu panel, laid out by the layout solver.
    pub fn menu_inner(area: Rect) -> (r: Rect)
        requires
            area.fits(),
        ensures
            exists|rows: Seq<Rect>, cols: Seq<Rect>|
                rows.len() == 3 && cols.len() == 2 && lobby_split(area, rows, cols) && r == #[trigger] spec_menu_inner(
                    area,
                    rows,
                    cols,
                ),
    {
        let (rows, cols) = lobby_parts(area);
        let r = Self::menu_inner_in(area, rows.as_slice(), cols.as_slice());
        proof {
            assert(rows@.len() == 3 && cols@.len() == 2 && lobby_split(area, rows@, cols@) && r == spec_menu_inner(
                area,
                rows@,
                cols@,
            ));
        }
        r
    }

    /// The menu entry (0 to 4) under a clicked cell in a menu whose inside
    /// is `inner`, if any.
    pub fn entry_at(inner: Rect, x: u16, y: u16) -> (r: Option<usize>)
        ensures
            r == entry_under(inner, x as int, y as int),
    {
        if !inner.contains(x, y) {
            return None;
        }
        if (y as u32) < (inner.y as u32) + 2 {
            return None;
        }
        let row: u32 = (y as u32) - (inner.y as u32) - 2;
        let step: u32 = if inner.height < 11 {
            1
        } else if inner.height < 17 {
            2
        } else {
            3
        };
        let index = row / step;
        if index < 5 && (step == 1 || row % step < step - 1) {
            Some(index as usize)
        } else {
            None
        }
    }

    /// The menu entry (0 to 4) under a clicked cell, if any, the lobby laid
    /// out by the layout solver.
    pub fn option_at(area: Rect, x: u16, y: u16) -> (r: Option<usize>)
        requires
            area.fits(),
        ensures
            exists|rows: Seq<Rect>, cols: Seq<Rect>|
                rows.len() == 3 && cols.len() == 2 && lobby_split(area, rows, cols) && r == #[trigger] spec_option_at(
                    area,
                    rows,
                    cols,
                    x as int,
                    y as int,
                ),
    {
        let (rows, cols) = lobby_parts(area);
        let inner = Self::menu_inner_in(area, rows.as_slice(), cols.as_slice());
        let r = Self::entry_at(inner, x, y);
        proof {
            assert(rows@.len() == 3 && cols@.len() == 2 && lobby_split(area, rows@, cols@) && r == spec_option_at(
                area,
                rows@,
                cols@,
                x as int,
                y as int,
            ));
        }
        r
    }
}


/// The name of a lobby entry.
pub open spec fn entry_label(i: int) -> Seq<char> {
    if i == 0 {
        "Play online"@
    } else if i == 1 {
        "Practice board"@
    } else if i == 2 {
        "Play computer"@
    } else if i == 3 {
        "How to play"@
    } else {
        "Disconnect"@
    }
}

/// What a lobby entry does.
pub open spec fn entry_about(i: int) -> Seq<char> {
    if i == 0 {
        "Find another player and start a game"@
    } else if i == 1 {
        "Explore moves and play both sides"@
    } else if i == 2 {
        "Challenge Zander at a level you choose"@
    } else if i == 3 {
        "A quick guide to your first game"@
    } else {
        "See you next time"@
    }
}

/// The style of the selected line of a menu.
pub open spec fn chosen() -> Style {
    Style { fg: accent(), bg: panel_tint(), bold: true }
}

/// The lines of one entry: its number and name (marked when selected),
/// then, as the step allows, its description and a gap.
pub open spec fn entry_lines(i: int, selected: bool, step: int) -> Seq<SpanView> {
    let head = line(
        (if selected { " ▸ "@ } else { "   "@ }) + decimal((i + 1) as nat) + "  "@ + entry_label(i),
        if selected { chosen() } else { fg(text_tint()) },
    );
    if step >= 3 {
        seq![head, line("      "@ + entry_about(i), fg(muted())), blank()]
    } else if step == 2 {
        seq![head, blank()]
    } else {
        seq![head]
    }
}

pub open spec fn status_lines(status: Option<Seq<char>>) -> Seq<SpanView> {
    match status {
        Some(s) => seq![line(s, fg(accent()))],
        None => Seq::empty(),
    }
}

pub open spec fn opt_str<'a>(s: Option<&'a str>) -> Option<Seq<char>> {
    match s {
        Some(t) => Some(t@),
        None => None,
    }
}

/// The menu: a greeting, the five entries, and the status line if any.
pub open spec fn menu_lines(v: LobbyData, step: int) -> Seq<SpanView> {
    seq![line("  Welcome, "@ + v.username, fg(muted())), blank()] + entry_lines(0, v.selected == 0, step)
        + entry_lines(1, v.selected == 1, step) + entry_lines(2, v.selected == 2, step) + entry_lines(
        3,
        v.selected == 3,
        step,
    ) + entry_lines(4, v.selected == 4, step) + status_lines(v.status)
}

/// The level chooser: the level on the fifth row, the start on the
/// seventh, the way back on the ninth.
pub open spec fn level_lines(level: u8) -> Seq<SpanView> {
    seq![
        line("  Play Zander"@, bold(accent())),
        blank(),
        line("  Choose a level from 0 to 20"@, fg(muted())),
        blank(),
        line("  ◂  Level "@ + decimal(level as nat) + "  ▸"@, chosen()),
        blank(),
        line("  [ Enter ]  Start game"@, fg(accent())),
        blank(),
        line("  [ Esc ]  Back"@, fg(muted())),
    ]
}

/// The search screen, without its last line (the bar below stands for it).
pub open spec fn searching_lines() -> Seq<SpanView> {
    seq![
        blank(),
        line("  Searching for opponent..."@, bold(accent())),
        blank(),
        line("  You are in the online queue."@, plain()),
        line("  Your game starts when a player joins."@, plain()),
        blank(),
        line("  Open a second terminal to play a friend."@, plain()),
        blank(),
    ]
}

/// The guide, without its last line (the bar below stands for it).
pub open spec fn help_lines() -> Seq<SpanView> {
    seq![
        line("  A quick guide"@, bold(accent())),
        blank(),
        line("  Online: get matched with another player."@, plain()),
        line("  Practice: control both sides. No AI."@, plain()),
        line("  Computer: play Zander, level 0 to 20."@, plain()),
        blank(),
        line("  Type a move, then press Enter:"@, plain()),
        line("  e4 · Nf3 · O-O  or  e2e4"@, plain()),
        line("  During a game: /draw · /resign · /lobby"@, plain()),
        line("  After a game: review the final board."@, plain()),
    ]
}

/// The picture beside a wide menu.
pub open spec fn picture_lines() -> Seq<SpanView> {
    seq![
        blank(),
        line("       ▄▄▄▄"@, plain()),
        line("     ▄██████▄"@, plain()),
        line("   ▄██▀ ▀████"@, plain()),
        line("  ███▄▄██████"@, plain()),
        line("   ▀▀▀ ██████"@, plain()),
        line("      ███████"@, plain()),
        line("     ████████"@, plain()),
        line("   ▄██████████▄"@, plain()),
        line("   ▀▀▀▀▀▀▀▀▀▀▀▀"@, plain()),
        blank(),
        line("Your next move starts here."@, fg(text_tint())),
        line("Chess, straight from your terminal."@, fg(muted())),
    ]
}

/// The title on the menu's frame.
pub open spec fn lobby_title(v: LobbyData) -> Seq<char> {
    if v.searching {
        " Matchmaking "@
    } else if v.help {
        " How to play "@
    } else if v.computer_level is Some {
        " Play the computer "@
    } else {
        " Make your move "@
    }
}

/// The line along the bottom of the lobby.
pub open spec fn lobby_footer(v: LobbyData, content: Rect) -> Seq<char> {
    if v.command.len() > 0 {
        "Command: "@ + v.command + "_  ·  Esc cancel"@
    } else if v.help || v.searching {
        "Enter / Esc / h  back     Ctrl+C  disconnect"@
    } else if v.computer_level is Some {
        "←/→ level   Enter start   Esc back"@
    } else if content.width < 60 {
        "j/k ↑↓ select   l/Enter open   h back"@
    } else {
        "j/k ↑↓ Tab  select   l/Enter →  open   h/←  back   1–5  shortcuts"@
    }
}

/// The header: the name of the service and how many are online and queued.
pub open spec fn header_lines(v: LobbyData) -> Seq<SpanView> {
    seq![
        line(" CheSSH"@, bold(accent())),
        (("  /  Lobby"@, fg(muted()), false)),
        line(
            " "@ + decimal(v.online_count as nat) + " online  ·  "@ + decimal(v.queue_size as nat) + " in queue"@,
            plain(),
        ),
    ]
}

/// What the menu panel holds: the menu, the computer's levels, or the
/// search or the help above a bar (`parts`, the inside divided in two).
pub open spec fn panel_widgets(v: LobbyData, inner: Rect, parts: Seq<Rect>) -> Seq<Drawn> {
    if v.searching || v.help {
        seq![
            Drawn::Text {
                area: parts[0],
                spans: if v.searching { searching_lines() } else { help_lines() },
                style: plain(),
                centered: false,
                wrap: Wrap::Keep,
            },
            Drawn::Text {
                area: parts[1],
                spans: seq![
                    line(
                        if v.searching { "  Cancel search  [h / Esc]"@ } else { "  Back to menu  [h / Esc]"@ },
                        plain(),
                    ),
                ],
                style: Style { fg: accent(), bg: panel_tint(), bold: false },
                centered: false,
                wrap: Wrap::Cut,
            },
        ]
    } else {
        seq![
            Drawn::Text {
                area: inner,
                spans: match v.computer_level {
                    Some(level) => level_lines(level),
                    None => menu_lines(v, menu_step(inner)),
                },
                style: plain(),
                centered: false,
                wrap: Wrap::Keep,
            },
        ]
    }
}

/// The whole lobby screen: the background, the header, the picture when
/// there is room, the framed menu and the footer; the lobby divided into
/// `rows`, its body into `cols` and the menu's inside into `parts`.
pub open spec fn spec_lobby(v: LobbyData, area: Rect, rows: Seq<Rect>, cols: Seq<Rect>, parts: Seq<Rect>) -> Seq<Drawn> {
    let content = lobby_content(area);
    let picture = if lobby_is_wide(area) {
        seq![
            Drawn::Text {
                area: cols[0],
                spans: picture_lines(),
                style: fg(accent()),
                centered: true,
                wrap: Wrap::Cut,
            },
        ]
    } else {
        Seq::empty()
    };
    seq![
        Drawn::Fill { area, style: Style { fg: text_tint(), bg: background(), bold: false }, clear: false },
        Drawn::Text { area: rows[0], spans: header_lines(v), style: plain(), centered: false, wrap: Wrap::Cut },
    ] + picture + seq![
        Drawn::Panel {
            area: lobby_menu_panel(area, rows, cols),
            title: lobby_title(v),
            rounded: true,
            border: fg(border_tint()),
            style: plain(),
        },
    ] + panel_widgets(v, spec_menu_inner(area, rows, cols), parts) + seq![
        Drawn::Text {
            area: rows[2],
            spans: seq![line(lobby_footer(v, content), plain())],
            style: fg(muted()),
            centered: true,
            wrap: Wrap::Cut,
        },
    ]
}

fn entry_label_text(i: usize) -> (s: &'static str)
    requires
        i < 5,
    ensures
        s@ == entry_label(i as int),
{
    if i == 0 {
        "Play online"
    } else if i == 1 {
        "Practice board"
    } else if i == 2 {
        "Play computer"
    } else if i == 3 {
        "How to play"
    } else {
        "Disconnect"
    }
}

fn entry_about_text(i: usize) -> (s: &'static str)
    requires
        i < 5,
    ensures
        s@ == entry_about(i as int),
{
    if i == 0 {
        "Find another player and start a game"
    } else if i == 1 {
        "Explore moves and play both sides"
    } else if i == 2 {
        "Challenge Zander at a level you choose"
    } else if i == 3 {
        "A quick guide to your first game"
    } else {
        "See you next time"
    }
}

fn add_entry(out: &mut Vec<Span>, i: usize, selected: bool, step: u16)
    requires
        i < 5,
    ensures
        spans_of(final(out)@) == spans_of(old(out)@) + entry_lines(i as int, selected, step as int),
{
    let ghost before = spans_of(out@);
    let mut head = String::from_str(if selected { " ▸ " } else { "   " });
    let number = count_text(i + 1);
    head.append(number.as_str());
    head.append("  ");
    head.append(entry_label_text(i));
    let style = if selected { Style { fg: accent(), bg: panel_tint(), bold: true } } else { fg(text_tint()) };
    add_span(out, head, style, true);
    if step >= 3 {
        let mut about = String::from_str("      ");
        about.append(entry_about_text(i));
        add_span(out, about, fg(muted()), true);
    }
    if step >= 2 {
        add_span(out, String::new(), plain(), true);
    }
    proof {
        assert(spans_of(out@) =~= before + entry_lines(i as int, selected, step as int));
    }
}

fn menu_spans(v: &LobbyView, step: u16) -> (r: Vec<Span>)
    ensures
        spans_of(r@) == menu_lines(v@, step as int),
{
    let mut out: Vec<Span> = Vec::new();
    let mut welcome = String::from_str("  Welcome, ");
    welcome.append(v.username);
    add_span(&mut out, welcome, fg(muted()), true);
    add_span(&mut out, String::new(), plain(), true);
    let ghost start = spans_of(out@);
    add_entry(&mut out, 0, v.selected == 0, step);
    add_entry(&mut out, 1, v.selected == 1, step);
    add_entry(&mut out, 2, v.selected == 2, step);
    add_entry(&mut out, 3, v.selected == 3, step);
    add_entry(&mut out, 4, v.selected == 4, step);
    let ghost entries = spans_of(out@);
    match v.status {
        Some(s) => add_span(&mut out, String::from_str(s), fg(accent()), true),
        None => {},
    }
    proof {
        assert(start =~= seq![line("  Welcome, "@ + v.username@, fg(muted())), blank()]);
        assert(spans_of(out@) =~= entries + status_lines(opt_str(v.status)));
        assert(spans_of(out@) =~= menu_lines(v@, step as int));
    }
    out
}

fn level_spans(level: u8) -> (r: Vec<Span>)
    ensures
        spans_of(r@) == level_lines(level),
{
    let mut out: Vec<Span> = Vec::new();
    add_line(&mut out, "  Play Zander", bold(accent()));
    add_blank(&mut out);
    add_line(&mut out, "  Choose a level from 0 to 20", fg(muted()));
    add_blank(&mut out);
    let mut chooser = String::from_str("  ◂  Level ");
    let number = count_text(level as usize);
    chooser.append(number.as_str());
    chooser.append("  ▸");
    add_span(&mut out, chooser, Style { fg: accent(), bg: panel_tint(), bold: true }, true);
    add_blank(&mut out);
    add_line(&mut out, "  [ Enter ]  Start game", fg(accent()));
    add_blank(&mut out);
    add_line(&mut out, "  [ Esc ]  Back", fg(muted()));
    proof {
        assert(spans_of(out@) =~= level_lines(level));
    }
    out
}

fn searching_spans() -> (r: Vec<Span>)
    ensures
        spans_of(r@) == searching_lines(),
{
    let mut out: Vec<Span> = Vec::new();
    add_blank(&mut out);
    add_line(&mut out, "  Searching for opponent...", bold(accent()));
    add_blank(&mut out);
    add_line(&mut out, "  You are in the online queue.", plain());
    add_line(&mut out, "  Your game starts when a player joins.", plain());
    add_blank(&mut out);
    add_line(&mut out, "  Open a second terminal to play a friend.", plain());
    add_blank(&mut out);
    proof {
        assert(spans_of(out@) =~= searching_lines());
    }
    out
}

fn help_spans() -> (r: Vec<Span>)
    ensures
        spans_of(r@) == help_lines(),
{
    let mut out: Vec<Span> = Vec::new();
    add_line(&mut out, "  A quick guide", bold(accent()));
    add_blank(&mut out);
    add_line(&mut out, "  Online: get matched with another player.", plain());
    add_line(&mut out, "  Practice: control both sides. No AI.", plain());
    add_line(&mut out, "  Computer: play Zander, level 0 to 20.", plain());
    add_blank(&mut out);
    add_line(&mut out, "  Type a move, then press Enter:", plain());
    add_line(&mut out, "  e4 · Nf3 · O-O  or  e2e4", plain());
    add_line(&mut out, "  During a game: /draw · /resign · /lobby", plain());
    add_line(&mut out, "  After a game: review the final board.", plain());
    proof {
        assert(spans_of(out@) =~= help_lines());
    }
    out
}

fn picture_spans() -> (r: Vec<Span>)
    ensures
        spans_of(r@) == picture_lines(),
{
    let mut out: Vec<Span> = Vec::new();
    add_blank(&mut out);
    add_line(&mut out, "       ▄▄▄▄", plain());
    add_line(&mut out, "     ▄██████▄", plain());
    add_line(&mut out, "   ▄██▀ ▀████", plain());
    add_line(&mut out, "  ███▄▄██████", plain());
    add_line(&mut out, "   ▀▀▀ ██████", plain());
    add_line(&mut out, "      ███████", plain());
    add_line(&mut out, "     ████████", plain());
    add_line(&mut out, "   ▄██████████▄", plain());
    add_line(&mut out, "   ▀▀▀▀▀▀▀▀▀▀▀▀", plain());
    add_blank(&mut out);
    add_line(&mut out, "Your next move starts here.", fg(text_tint()));
    add_line(&mut out, "Chess, straight from your terminal.", fg(muted()));
    proof {
        assert(spans_of(out@) =~= picture_lines());
    }
    out
}

fn header_spans(v: &LobbyView) -> (r: Vec<Span>)
    ensures
        spans_of(r@) == header_lines(v@),
{
    let mut out: Vec<Span> = Vec::new();
    add_line(&mut out, " CheSSH", bold(accent()));
    add_span(&mut out, String::from_str("  /  Lobby"), fg(muted()), false);
    let mut counts = String::from_str(" ");
    let online = count_text(v.online_count);
    counts.append(online.as_str());
    counts.append(" online  ·  ");
    let queued = count_text(v.queue_size);
    counts.append(queued.as_str());
    counts.append(" in queue");
    add_span(&mut out, counts, plain(), true);
    proof {
        assert(spans_of(out@) =~= header_lines(v@));
    }
    out
}

fn title_text(v: &LobbyView) -> (s: &'static str)
    ensures
        s@ == lobby_title(v@),
{
    if v.searching {
        " Matchmaking "
    } else if v.help {
        " How to play "
    } else if v.computer_level.is_some() {
        " Play the computer "
    } else {
        " Make your move "
    }
}

fn footer_text(v: &LobbyView, content: Rect) -> (s: String)
    ensures
        s@ == lobby_footer(v@, content),
{
    if v.command.unicode_len() > 0 {
        let mut s = String::from_str("Command: ");
        s.append(v.command);
        s.append("_  ·  Esc cancel");
        s
    } else if v.help || v.searching {
        String::from_str("Enter / Esc / h  back     Ctrl+C  disconnect")
    } else if v.computer_level.is_some() {
        String::from_str("←/→ level   Enter start   Esc back")
    } else if content.width < 60 {
        String::from_str("j/k ↑↓ select   l/Enter open   h back")
    } else {
        String::from_str("j/k ↑↓ Tab  select   l/Enter →  open   h/←  back   1–5  shortcuts")
    }
}

impl<'a> LobbyView<'a> {
    /// What the menu panel holds, inside its frame, the inside divided into
    /// `parts` for the search and the help.
    fn panel_contents(&self, inner: Rect, parts: &[Rect]) -> (r: Vec<Widget>)
        requires
            parts@.len() == 2,
        ensures
            drawn(r@) == panel_widgets(self@, inner, parts@),
    {
        let mut out: Vec<Widget> = Vec::new();
        if self.searching || self.help {
            let spans = if self.searching { searching_spans() } else { help_spans() };
            put(&mut out, Widget::Text { area: parts[0], spans, style: plain(), centered: false, wrap: Wrap::Keep });
            let bar = one_line(
                String::from_str(if self.searching { "  Cancel search  [h / Esc]" } else { "  Back to menu  [h / Esc]" }),
                plain(),
            );
            put(
                &mut out,
                Widget::Text {
                    area: parts[1],
                    spans: bar,
                    style: Style { fg: accent(), bg: panel_tint(), bold: false },
                    centered: false,
                    wrap: Wrap::Cut,
                },
            );
        } else {
            let spans = match self.computer_level {
                Some(level) => level_spans(level),
                None => {
                    let step: u16 = if inner.height < 11 {
                        1
                    } else if inner.height < 17 {
                        2
                    } else {
                        3
                    };
                    menu_spans(self, step)
                },
            };
            put(&mut out, Widget::Text { area: inner, spans, style: plain(), centered: false, wrap: Wrap::Keep });
        }
        proof {
            assert(drawn(out@) =~= panel_widgets(self@, inner, parts@));
        }
        out
    }

    /// The lobby screen, what to draw in order, the lobby divided into
    /// `rows`, its body into `cols` and the menu's inside into `parts`.
    pub fn render_in(&self, area: Rect, rows: &[Rect], cols: &[Rect], parts: &[Rect]) -> (r: Vec<Widget>)
        requires
            area.fits(),
            rows@.len() == 3,
            cols@.len() == 2,
            parts@.len() == 2,
        ensures
            drawn(r@) == spec_lobby(self@, area, rows@, cols@, parts@),
    {
        let mut out: Vec<Widget> = Vec::new();
        put(
            &mut out,
            Widget::Fill { area, style: Style { fg: text_tint(), bg: background(), bold: false }, clear: false },
        );
        let content = content_of(area);
        put(
            &mut out,
            Widget::Text { area: rows[0], spans: header_spans(self), style: plain(), centered: false, wrap: Wrap::Cut },
        );
        let body = if content.width >= 76 && content.height >= 23 {
            put(
                &mut out,
                Widget::Text { area: cols[0], spans: picture_spans(), style: fg(accent()), centered: true, wrap: Wrap::Cut },
            );
            cols[1]
        } else {
            rows[1]
        };
        put(
            &mut out,
            Widget::Panel {
                area: body,
                title: String::from_str(title_text(self)),
                rounded: true,
                border: fg(border_tint()),
                style: plain(),
            },
        );
        let inner = body.bordered_inner();
        let contents = self.panel_contents(inner, parts);
        super::draw::put_all(&mut out, contents);
        let footer = one_line(footer_text(self, content), plain());
        put(&mut out, Widget::Text { area: rows[2], spans: footer, style: fg(muted()), centered: true, wrap: Wrap::Cut });
        proof {
            assert(body == lobby_menu_panel(area, rows@, cols@));
            assert(inner == spec_menu_inner(area, rows@, cols@));
            assert(drawn(out@) =~= spec_lobby(self@, area, rows@, cols@, parts@));
        }
        out
    }

    /// The lobby screen, what to draw in order, laid out by the layout
    /// solver.
    pub fn render(&self, area: Rect) -> (r: Vec<Widget>)
        requires
            area.fits(),
        ensures
            exists|rows: Seq<Rect>, cols: Seq<Rect>, parts: Seq<Rect>|
                rows.len() == 3 && cols.len() == 2 && parts.len() == 2 && lobby_split(area, rows, cols) && menu_split(
                    area,
                    rows,
                    cols,
                    parts,
                ) && drawn(r@) == #[trigger] spec_lobby(
                    self@,
                    area,
                    rows,
                    cols,
                    parts,
                ),
    {
        let (rows, cols) = lobby_parts(area);
        let inner = Self::menu_inner_in(area, rows.as_slice(), cols.as_slice());
        let parts = menu_parts(inner);
        let r = self.render_in(area, rows.as_slice(), cols.as_slice(), parts.as_slice());
        proof {
            assert(rows@.len() == 3 && cols@.len() == 2 && parts@.len() == 2 && lobby_split(area, rows@, cols@)
                && menu_split(area, rows@, cols@, parts@) && drawn(r@) == spec_lobby(
                self@,
                area,
                rows@,
                cols@,
                parts@,
            ));
        }
        r
    }
}

/// The last row of a rectangle.
pub open spec fn last_row(r: Rect) -> Rect {
    Rect { x: r.x, y: (r.y + r.height - 1) as u16, width: r.width, height: 1 }
}

/// A rectangle without its last row.
pub open spec fn all_but_last_row(r: Rect) -> Rect {
    Rect { x: r.x, y: r.y, width: r.width, height: (r.height - 1) as u16 }
}

/// The inside of the menu panel divided, by the layout solver, into the
/// search or help text and the bar below it: the bar is the inside's last
/// row, the text the rows above it.
pub(crate) fn menu_parts(inner: Rect) -> (r: Vec<Rect>)
    ensures
        r@.len() == 2,
        split_facts(clip(inner), false, menu_part_constraints(), r@),
        inner.fits() && inner.height >= 1 ==> r@[0] == all_but_last_row(inner) && r@[1] == last_row(inner),
{
    let parts_of = [Constraint::Min(0), Constraint::Length(1)];
    proof {
        assert(parts_of@ =~= menu_part_constraints());
    }
    let r = split(inner, false, &parts_of);
    proof {
        let cs = menu_part_constraints();
        assert(cs[0] is Min);
        assert(has_min(cs));
        assert(no_shares(cs));
        reveal_with_fuel(fixed_total, 3);
        assert(fixed_total(cs) == 1);
        if inner.fits() && inner.height >= 1 {
            assert(clip(inner) == inner);
            assert(extent(r@[1], false) == 1);
        }
    }
    r
}

/// Every entry line of the menu, as drawn, answers a click with its own
/// entry: the line of entry `i` is line `2 + i * step` of the menu, and a
/// click on that row of the menu opens entry `i`.
pub proof fn lemma_click_opens_drawn_entry(v: LobbyData, inner: Rect, i: int, x: int)
    requires
        0 <= i < 5,
        inner.x <= x < inner.spec_right(),
        inner.y + 2 + i * menu_step(inner) < inner.spec_bottom(),
    ensures
        menu_lines(v, menu_step(inner))[2 + i * menu_step(inner)] == entry_lines(i, v.selected == i, menu_step(inner))[0],
        entry_under(inner, x, inner.y + 2 + i * menu_step(inner)) == Some(i as usize),
{
    let step = menu_step(inner);
    let e0 = entry_lines(0, v.selected == 0, step);
    let e1 = entry_lines(1, v.selected == 1, step);
    let e2 = entry_lines(2, v.selected == 2, step);
    let e3 = entry_lines(3, v.selected == 3, step);
    let e4 = entry_lines(4, v.selected == 4, step);
    let head = seq![line("  Welcome, "@ + v.username, fg(muted())), blank()];
    assert(e0.len() == step && e1.len() == step && e2.len() == step && e3.len() == step && e4.len() == step);
    let all = menu_lines(v, step);
    assert(all == head + e0 + e1 + e2 + e3 + e4 + status_lines(v.status));
    assert(i * step == if i == 0 {
        0
    } else if i == 1 {
        step
    } else if i == 2 {
        2 * step
    } else if i == 3 {
        3 * step
    } else {
        4 * step
    });
    let row = i * step;
    assert(row / step == i && row % step == 0) by (nonlinear_arith)
        requires
            row == i * step,
            step >= 1,
            0 <= i,
    ;
}

} // verus!
