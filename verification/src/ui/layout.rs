//! The rectangles the layout solver gives for the parts of one screen.
use vstd::prelude::*;

use super::controls::{choices, choices_split, footer_cells, footer_split};
use super::game_view::{column_count, columns_split, side_split, GameView};
use super::geometry::Rect;
use super::lobby::{lobby_parts, lobby_split, menu_parts, menu_split, LobbyView};

verus! {

/// The parts of a screen as the layout solver divided them: the lobby's
/// rows, its body's two columns and the two parts of its menu panel; the
/// game screen's columns and its side panel's rows; the buttons' cells
/// along the bottom of a narrow game screen; and the two buttons of the
/// confirmation dialog.
pub struct ScreenLayout {
    pub lobby_rows: Vec<Rect>,
    pub lobby_columns: Vec<Rect>,
    pub lobby_parts: Vec<Rect>,
    pub columns: Vec<Rect>,
    pub side_rows: Vec<Rect>,
    pub footer: Vec<Rect>,
    pub choices: [Rect; 2],
}

impl ScreenLayout {
    /// Each part of a screen of size `area` is divided as the layout solver
    /// can divide it: into as many rectangles as it asks for, packed in
    /// order across the part (see `split_facts`).
    pub open spec fn shaped(&self, area: Rect) -> bool {
        &&& self.lobby_rows@.len() == 3
        &&& self.lobby_columns@.len() == 2
        &&& self.lobby_parts@.len() == 2
        &&& self.columns@.len() == column_count(area)
        &&& self.side_rows@.len() == 7
        &&& self.footer@.len() == 4
        &&& lobby_split(area, self.lobby_rows@, self.lobby_columns@)
        &&& menu_split(area, self.lobby_rows@, self.lobby_columns@, self.lobby_parts@)
        &&& columns_split(area, self.columns@)
        &&& side_split(area, self.columns@, self.side_rows@)
        &&& footer_split(area, self.footer@)
        &&& choices_split(area, self.choices@)
    }

    /// Asks the layout solver for every part of a screen of size `area`.
    pub fn of(area: Rect) -> (l: ScreenLayout)
        requires
            area.fits(),
        ensures
            l.shaped(area),
    {
        let (lobby_rows, lobby_columns) = lobby_parts(area);
        let inner = LobbyView::menu_inner_in(area, lobby_rows.as_slice(), lobby_columns.as_slice());
        let lobby_parts = menu_parts(inner);
        let columns = GameView::columns(area);
        let side_rows = GameView::side_cells(area, columns.as_slice());
        let footer = footer_cells(area);
        let choices = choices(area);
        ScreenLayout { lobby_rows, lobby_columns, lobby_parts, columns, side_rows, footer, choices }
    }
}

} // verus!
