//! The home page: a menu of two entries that lead to the other pages.

use crate::action::{reply_view, Action, ActionView};
use crate::tui::{is_row_split, split_rows};
use crate::tui::{Area, Event, KeyCode, KeyEvent, MouseEventKind, RowRule};
use vstd::prelude::*;
use vstd::string::StringExecFns;

verus! {

/// The number of entries in the menu.
pub const MENU_ENTRIES: usize = 2;

/// The page's state. Entries are counted from zero; the line with the column
/// headers that the list shows above them is not an entry.
#[derive(Debug)]
pub struct HomePage {
    /// The highlighted entry, if any.
    pub highlighted: Option<usize>,
    /// Where the left button last went down, until the next layout deals with it.
    pub mouse_event: Option<(u16, u16)>,
}

/// One entry of the menu as the list shows it.
#[derive(Debug)]
pub struct MenuRow {
    pub number: String,
    pub module: String,
    pub description: String,
}

/// The menu entry that a click at column `x`, line `y` hits in a list drawn in
/// `area`: the click must fall inside the frame and below the column headers.
pub open spec fn clicked_entry(area: Area, x: u16, y: u16, entries: int) -> Option<int> {
    if x >= area.x && x < area.x + area.width && y > area.y + 1 && y < area.y + area.height - 1
        && y - area.y - 2 < entries {
        Some(y - area.y - 2)
    } else {
        None
    }
}

/// The highlight after the Up key: one entry back, from the first to the
/// last, and the first where nothing was highlighted.
pub open spec fn menu_up(highlighted: Option<usize>) -> Option<usize> {
    match highlighted {
        Some(entry) => if entry == 0 {
            Some(1)
        } else {
            Some((entry - 1) as usize)
        },
        None => Some(0),
    }
}

/// The highlight after the Down key: one entry on, from the last to the
/// first, and the first where nothing was highlighted.
pub open spec fn menu_down(highlighted: Option<usize>) -> Option<usize> {
    match highlighted {
        Some(entry) => if entry >= 1 {
            Some(0)
        } else {
            Some(1)
        },
        None => Some(0),
    }
}

/// The page that a menu entry leads to.
pub open spec fn entry_action(entry: int) -> Option<ActionView> {
    if entry == 0 {
        Some(ActionView::NavigateToDevice)
    } else if entry == 1 {
        Some(ActionView::NavigateToSniffer)
    } else {
        None
    }
}

/// The highlight after a key press.
pub open spec fn home_after_key(highlighted: Option<usize>, key: KeyCode) -> Option<usize> {
    match key {
        KeyCode::Up => menu_up(highlighted),
        KeyCode::Down => menu_down(highlighted),
        _ => highlighted,
    }
}

/// What a key press asks of the router: Enter follows the highlighted entry,
/// `d` and `s` lead to the two pages directly, `q` quits.
pub open spec fn home_key_action(highlighted: Option<usize>, key: KeyCode) -> Option<ActionView> {
    match key {
        KeyCode::Enter => match highlighted {
            Some(entry) => entry_action(entry as int),
            None => None,
        },
        KeyCode::Char(c) => if c == 'd' {
            Some(ActionView::NavigateToDevice)
        } else if c == 's' {
            Some(ActionView::NavigateToSniffer)
        } else if c == 'q' {
            Some(ActionView::Quit)
        } else {
            None
        },
        _ => None,
    }
}

/// The highlight after a click.
pub open spec fn home_after_click(highlighted: Option<usize>, area: Area, x: u16, y: u16) -> Option<
    usize,
> {
    match clicked_entry(area, x, y, MENU_ENTRIES as int) {
        Some(entry) => Some(entry as usize),
        None => highlighted,
    }
}

/// What a click asks of the router: a click on the highlighted entry follows it.
pub open spec fn home_click_action(highlighted: Option<usize>, area: Area, x: u16, y: u16) -> Option<
    ActionView,
> {
    match clicked_entry(area, x, y, MENU_ENTRIES as int) {
        Some(entry) => if highlighted == Some(entry as usize) {
            entry_action(entry)
        } else {
            None
        },
        None => None,
    }
}

/// Whether a click at column `x`, line `y` falls inside the frame of a list
/// drawn in `area` and below its column headers; if so, the row it hits.
pub fn list_row_at(area: Area, x: u16, y: u16, entries: usize) -> (row: Option<usize>)
    ensures
        match row {
            Some(r) => clicked_entry(area, x, y, entries as int) == Some(r as int),
            None => clicked_entry(area, x, y, entries as int) is None,
        },
{
    let inside = x >= area.x && (x as u32) < area.x as u32 + area.width as u32 && (y as u32)
        > area.y as u32 + 1 && (y as u32) + 1 < area.y as u32 + area.height as u32;
    if inside {
        let row: usize = (y - area.y - 2) as usize;
        if row < entries {
            Some(row)
        } else {
            None
        }
    } else {
        None
    }
}

impl Default for HomePage {
    /// A page on which nothing is highlighted.
    fn default() -> (page: Self)
        ensures
            page.highlighted is None,
            page.mouse_event is None,
    {
        HomePage { highlighted: None, mouse_event: None }
    }
}

impl HomePage {
    /// A page with the first entry highlighted.
    pub fn new() -> (page: Self)
        ensures
            page.highlighted == Some(0usize),
            page.mouse_event is None,
    {
        HomePage { highlighted: Some(0), mouse_event: None }
    }

    /// The entries of the menu.
    pub fn menu_rows() -> (rows: Vec<MenuRow>)
        ensures
            rows@.len() == MENU_ENTRIES,
            rows@[0].number@ == "1"@,
            rows@[1].number@ == "2"@,
            rows@[0].module@ == "Device Selection"@,
            rows@[0].description@ == "Select network interface for packet capture"@,
            rows@[1].module@ == "Packet Sniffer"@,
            rows@[1].description@ == "Capture and analyze network packets"@,
    {
        let mut rows: Vec<MenuRow> = Vec::new();
        rows.push(
            MenuRow {
                number: String::from_str("1"),
                module: String::from_str("Device Selection"),
                description: String::from_str("Select network interface for packet capture"),
            },
        );
        rows.push(
            MenuRow {
                number: String::from_str("2"),
                module: String::from_str("Packet Sniffer"),
                description: String::from_str("Capture and analyze network packets"),
            },
        );
        rows
    }

    /// Reacts to a click at column `x`, line `y` on the menu drawn in `area`.
    /// A click on an entry highlights it; a click on the highlighted entry
    /// follows it.
    pub fn handle_mouse_click(&mut self, x: u16, y: u16, area: Area) -> (reply: Option<Action>)
        ensures
            final(self).highlighted == home_after_click(old(self).highlighted, area, x, y),
            final(self).mouse_event == old(self).mouse_event,
            reply_view(reply) == home_click_action(old(self).highlighted, area, x, y),
    {
        match list_row_at(area, x, y, MENU_ENTRIES) {
            Some(entry) => {
                let again = match self.highlighted {
                    Some(current) => current == entry,
                    None => false,
                };
                self.highlighted = Some(entry);
                if again {
                    if entry == 0 {
                        Some(Action::NavigateToDevice)
                    } else {
                        Some(Action::NavigateToSniffer)
                    }
                } else {
                    None
                }
            },
            None => None,
        }
    }

    /// Reacts to a key press.
    pub fn handle_key_events(&mut self, key: KeyEvent) -> (reply: Option<Action>)
        ensures
            final(self).highlighted == home_after_key(old(self).highlighted, key.code),
            final(self).mouse_event == old(self).mouse_event,
            reply_view(reply) == home_key_action(old(self).highlighted, key.code),
    {
        match key.code {
            KeyCode::Up => {
                self.highlighted =
                match self.highlighted {
                    Some(entry) => if entry == 0 {
                        Some(1)
                    } else {
                        Some(entry - 1)
                    },
                    None => Some(0),
                };
                None
            },
            KeyCode::Down => {
                self.highlighted =
                match self.highlighted {
                    Some(entry) => if entry >= 1 {
                        Some(0)
                    } else {
                        Some(1)
                    },
                    None => Some(0),
                };
                None
            },
            KeyCode::Enter => {
                match self.highlighted {
                    Some(entry) => {
                        if entry == 0 {
                            Some(Action::NavigateToDevice)
                        } else if entry == 1 {
                            Some(Action::NavigateToSniffer)
                        } else {
                            None
                        }
                    },
                    None => None,
                }
            },
            KeyCode::Char(c) => {
                if c == 'd' {
                    Some(Action::NavigateToDevice)
                } else if c == 's' {
                    Some(Action::NavigateToSniffer)
                } else if c == 'q' {
                    Some(Action::Quit)
                } else {
                    None
                }
            },
            _ => None,
        }
    }

    /// Reacts to an input event. A key press is handled at once; where the
    /// left button went down is kept for the next layout, which knows where
    /// the menu is.
    pub fn handle_events(&mut self, event: Event) -> (reply: Option<Action>)
        ensures
            match event {
                Event::Key(key) => final(self).highlighted == home_after_key(
                    old(self).highlighted,
                    key.code,
                ) && final(self).mouse_event == old(self).mouse_event && reply_view(reply)
                    == home_key_action(old(self).highlighted, key.code),
                Event::Mouse(mouse) => final(self).highlighted == old(self).highlighted
                    && final(self).mouse_event == (if mouse.kind == MouseEventKind::LeftDown {
                    Some((mouse.column, mouse.row))
                } else {
                    old(self).mouse_event
                }) && reply is None,
                Event::Tick => *final(self) == *old(self) && reply is None,
            },
    {
        match event {
            Event::Key(key) => self.handle_key_events(key),
            Event::Mouse(mouse) => {
                match mouse.kind {
                    MouseEventKind::LeftDown => {
                        self.mouse_event = Some((mouse.column, mouse.row));
                    },
                    _ => {},
                }
                None
            },
            Event::Tick => None,
        }
    }

    /// Any message leaves the page as it is.
    pub fn update(&mut self, action: Action) -> (reply: Option<Action>)
        ensures
            *final(self) == *old(self),
            reply is None,
    {
        None
    }

    /// Lays the page out in `area`: menu, status box and help line from top
    /// to bottom. A click that waited for the layout is dealt with now.
    pub fn layout(&mut self, area: Area) -> (laid: (Vec<Area>, Option<Action>))
        ensures
            is_row_split(area, 3, laid.0@),
            final(self).mouse_event is None,
            match old(self).mouse_event {
                Some((x, y)) => final(self).highlighted == home_after_click(
                    old(self).highlighted,
                    laid.0@[0],
                    x,
                    y,
                ) && reply_view(laid.1) == home_click_action(old(self).highlighted, laid.0@[0], x, y),
                None => final(self).highlighted == old(self).highlighted && laid.1 is None,
            },
    {
        let rules = vec![RowRule::Min(8), RowRule::Length(3), RowRule::Length(1)];
        let rows = split_rows(area, &rules);
        let pending = self.mouse_event;
        self.mouse_event = None;
        let reply = match pending {
            Some((x, y)) => self.handle_mouse_click(x, y, rows[0]),
            None => None,
        };
        (rows, reply)
    }
}

} // verus!
