//! Input events as plain values: what a key press or a mouse event says, as
//! far as the pages read it.

use ratatui::layout::{Constraint, Layout, Rect};
use vstd::prelude::*;

verus! {

/// The key that was pressed.
#[derive(Debug, Clone, Copy, PartialEq, Eq)]
pub enum KeyCode {
    Char(char),
    Backspace,
    Delete,
    Left,
    Right,
    Up,
    Down,
    Home,
    End,
    PageUp,
    PageDown,
    Enter,
    Esc,
    Tab,
    F(u8),
    /// Any key that no page reacts to.
    Other,
}

/// A key press: the key, and whether Control was held.
#[derive(Debug, Clone, Copy, PartialEq, Eq)]
pub struct KeyEvent {
    pub code: KeyCode,
    pub control: bool,
}

/// What the mouse did.
#[derive(Debug, Clone, Copy, PartialEq, Eq)]
pub enum MouseEventKind {
    /// The left button went down.
    LeftDown,
    ScrollUp,
    ScrollDown,
    /// Any mouse event that no page reacts to.
    Other,
}

/// A mouse event and the cell it happened in.
#[derive(Debug, Clone, Copy, PartialEq, Eq)]
pub struct MouseEvent {
    pub kind: MouseEventKind,
    pub column: u16,
    pub row: u16,
}

/// An input event of the interactive loop.
#[derive(Debug, Clone, Copy, PartialEq, Eq)]
pub enum Event {
    Key(KeyEvent),
    Mouse(MouseEvent),
    Tick,
}

/// A rectangle of terminal cells.
#[derive(Debug, Clone, Copy, PartialEq, Eq)]
pub struct Area {
    pub x: u16,
    pub y: u16,
    pub width: u16,
    pub height: u16,
}

/// How one row of a vertical layout claims height.
#[derive(Debug, Clone, Copy, PartialEq, Eq)]
pub enum RowRule {
    /// At least this many lines.
    Min(u16),
    /// Exactly this many lines.
    Length(u16),
}

/// Whether `rows` are `count` rows of `area`: each begins at the left edge
/// of the area and is as wide as it.
pub open spec fn is_row_split(area: Area, count: int, rows: Seq<Area>) -> bool {
    &&& rows.len() == count
    &&& forall|i: int|
        0 <= i < rows.len() ==> (#[trigger] rows[i]).x == area.x && rows[i].width == area.width
}

/// Splits `area` into rows with `ratatui::layout::Layout::vertical(..).split(..)`,
/// `RowRule::Min` standing for `Constraint::Min` and `RowRule::Length` for
/// `Constraint::Length`. The layout hands back one row per rule, each with
/// the left edge and the width of the area. Where the rows begin and how high
/// they are is the layout's choice and is not stated.
#[verifier::external_body]
pub(crate) fn split_rows(area: Area, rules: &Vec<RowRule>) -> (rows: Vec<Area>)
    ensures
        is_row_split(area, rules@.len() as int, rows@),
{
    let constraints = rules.iter().map(|rule| match rule {
        RowRule::Min(lines) => Constraint::Min(*lines),
        RowRule::Length(lines) => Constraint::Length(*lines),
    });
    let rect = Rect { x: area.x, y: area.y, width: area.width, height: area.height };
    let rows = Layout::vertical(constraints).split(rect);
    rows.iter().map(|r| Area { x: r.x, y: r.y, width: r.width, height: r.height }).collect()
}

/// The number of rows that a framed list of height `height` shows: two lines
/// go to the border and one to the column headers.
pub open spec fn body_rows(height: u16) -> int {
    if height >= 3 {
        height - 3
    } else {
        0
    }
}

/// The number of rows that a framed list of height `height` shows.
pub fn visible_rows(height: u16) -> (rows: usize)
    ensures
        rows == body_rows(height),
{
    if height >= 3 {
        (height - 3) as usize
    } else {
        0
    }
}

} // verus!
