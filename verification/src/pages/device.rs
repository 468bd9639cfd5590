//! The device page: the list of capture devices and the choice of one.

use crate::action::{reply_view, Action, ActionView, Response};
use crate::capture::Command;
use crate::pages::home::{clicked_entry, list_row_at};
use crate::text::{decimal_text, leading, pad_right, padded, prefix, push_count};
use crate::tui::{is_row_split, split_rows};
use crate::tui::{Area, Event, KeyCode, KeyEvent, MouseEventKind, RowRule};
use vstd::prelude::*;
use vstd::string::StringExecFns;

verus! {

/// What the list shows for a device without a description.
pub const DEFAULT_DESCRIPTION: &'static str = "No description";

/// A capture device as it was listed.
#[derive(Debug)]
pub struct DeviceEntry {
    pub name: String,
    pub description: Option<String>,
}

/// The page's state. Devices are counted from zero; the line with the column
/// headers that the list shows above them is not a device.
#[derive(Debug)]
pub struct DevicePage {
    pub devices: Vec<DeviceEntry>,
    /// The highlighted device, if any.
    pub highlighted: Option<usize>,
    /// The name of the device that was chosen last, if any.
    pub selected_device: Option<String>,
    pub status_message: String,
    /// Whether the devices are being listed.
    pub loading: bool,
    /// Where the left button last went down, until the next layout deals with it.
    pub mouse_event: Option<(u16, u16)>,
}

/// One device as the list shows it.
#[derive(Debug)]
pub struct DeviceRow {
    pub number: String,
    pub description: String,
    pub name: String,
}

/// The mathematical content of a device row.
pub struct DeviceRowView {
    pub number: Seq<char>,
    pub description: Seq<char>,
    pub name: Seq<char>,
}

impl View for DeviceRow {
    type V = DeviceRowView;

    open spec fn view(&self) -> DeviceRowView {
        DeviceRowView { number: self.number@, description: self.description@, name: self.name@ }
    }
}

/// How sure the status line sounds.
#[derive(Debug, Clone, Copy, PartialEq, Eq, Structural)]
pub enum DeviceStatusLevel {
    /// The devices are being listed.
    Busy,
    /// No device is known.
    Empty,
    /// Devices are listed.
    Listed,
}

/// The mathematical content of the page.
pub struct DeviceView {
    pub names: Seq<Seq<char>>,
    /// The descriptions of the devices, one for each name.
    pub descriptions: Seq<Option<Seq<char>>>,
    pub highlighted: Option<usize>,
    pub selected_device: Option<Seq<char>>,
    pub status: Seq<char>,
    pub loading: bool,
    pub mouse_event: Option<(u16, u16)>,
}

/// The names of devices.
pub open spec fn names_of(devices: Seq<DeviceEntry>) -> Seq<Seq<char>> {
    Seq::new(devices.len(), |i: int| devices[i].name@)
}

/// The descriptions of devices.
pub open spec fn descriptions_of(devices: Seq<DeviceEntry>) -> Seq<Option<Seq<char>>> {
    Seq::new(
        devices.len(),
        |i: int|
            match devices[i].description {
                Some(text) => Some(text@),
                None => None,
            },
    )
}

impl View for DevicePage {
    type V = DeviceView;

    open spec fn view(&self) -> DeviceView {
        DeviceView {
            names: names_of(self.devices@),
            descriptions: descriptions_of(self.devices@),
            highlighted: self.highlighted,
            selected_device: match self.selected_device {
                Some(name) => Some(name@),
                None => None,
            },
            status: self.status_message@,
            loading: self.loading,
            mouse_event: self.mouse_event,
        }
    }
}

/// A page that knows no device yet.
pub open spec fn no_devices() -> DeviceView {
    DeviceView {
        names: Seq::empty(),
        descriptions: Seq::empty(),
        highlighted: None,
        selected_device: None,
        status: Seq::empty(),
        loading: false,
        mouse_event: None,
    }
}

/// What the status line says after devices were found.
pub open spec fn found_status(count: int) -> Seq<char> {
    "Found "@ + decimal_text(count as nat) + " device(s). Use ↑/↓ to navigate, Enter to select."@
}

/// The row for device `index`: its number counted from one, its description
/// cut to 76 characters, and its name.
pub open spec fn device_row(devices: Seq<DeviceEntry>, index: int) -> DeviceRowView {
    DeviceRowView {
        number: pad_right(decimal_text((index + 1) as nat), 4),
        description: pad_right(
            match devices[index].description {
                Some(text) => prefix(text@, 76),
                None => DEFAULT_DESCRIPTION@,
            },
            80,
        ),
        name: devices[index].name@,
    }
}

/// The contents of device rows.
pub open spec fn device_rows_view(rows: Seq<DeviceRow>) -> Seq<DeviceRowView> {
    Seq::new(rows.len(), |i: int| rows[i]@)
}

/// The highlight after the Up key among `count` devices: one back, from the
/// first to the last; the last where nothing was highlighted.
pub open spec fn device_up(highlighted: Option<usize>, count: int) -> Option<usize> {
    if count <= 0 {
        highlighted
    } else {
        match highlighted {
            Some(index) => if index == 0 {
                Some((count - 1) as usize)
            } else {
                Some((index - 1) as usize)
            },
            None => Some((count - 1) as usize),
        }
    }
}

/// The highlight after the Down key among `count` devices: one on, from the
/// last to the first; the first where nothing was highlighted.
pub open spec fn device_down(highlighted: Option<usize>, count: int) -> Option<usize> {
    if count <= 0 {
        highlighted
    } else {
        match highlighted {
            Some(index) => if index + 1 >= count {
                Some(0)
            } else {
                Some((index + 1) as usize)
            },
            None => Some(0),
        }
    }
}

/// The page after the highlighted device was chosen: it is remembered and
/// the status line names it. Nothing changes where no device is highlighted.
pub open spec fn chosen(page: DeviceView) -> DeviceView {
    match page.highlighted {
        Some(index) => if index < page.names.len() {
            DeviceView {
                selected_device: Some(page.names[index as int]),
                status: "Selected device: "@ + page.names[index as int],
                ..page
            }
        } else {
            page
        },
        None => page,
    }
}

/// What choosing the highlighted device tells the router.
pub open spec fn chosen_action(page: DeviceView) -> Option<ActionView> {
    match page.highlighted {
        Some(index) => if index < page.names.len() {
            Some(ActionView::DeviceSelected(page.names[index as int]))
        } else {
            None
        },
        None => None,
    }
}

/// The page without highlight and without chosen device.
pub open spec fn unselected(page: DeviceView) -> DeviceView {
    DeviceView {
        highlighted: None,
        selected_device: None,
        status: if page.names.len() > 0 {
            "Found "@ + decimal_text(page.names.len()) + " device(s)"@
        } else {
            page.status
        },
        ..page
    }
}

/// The page after a request to list the devices anew.
pub open spec fn loading(page: DeviceView) -> DeviceView {
    DeviceView { loading: true, status: "Probing network devices..."@, ..page }
}

/// The page after a key press.
pub open spec fn device_after_key(page: DeviceView, key: KeyCode) -> DeviceView {
    match key {
        KeyCode::Up => DeviceView {
            highlighted: device_up(page.highlighted, page.names.len() as int),
            ..page
        },
        KeyCode::Down => DeviceView {
            highlighted: device_down(page.highlighted, page.names.len() as int),
            ..page
        },
        KeyCode::Enter => chosen(page),
        KeyCode::Char(c) => if c == 'c' {
            unselected(page)
        } else {
            page
        },
        KeyCode::F(n) => if n == 5 {
            loading(page)
        } else {
            page
        },
        _ => page,
    }
}

/// What a key press asks of the router: Enter chooses the highlighted
/// device, `b` and `q` lead home.
pub open spec fn device_key_action(page: DeviceView, key: KeyCode) -> Option<ActionView> {
    match key {
        KeyCode::Enter => chosen_action(page),
        KeyCode::Char(c) => if c == 'b' || c == 'q' {
            Some(ActionView::NavigateToHome)
        } else {
            None
        },
        _ => None,
    }
}

/// What a key press asks of the driver: F5 has the devices listed anew.
pub open spec fn device_key_command(key: KeyCode) -> Command {
    if key == KeyCode::F(5) {
        Command::LoadDevices
    } else {
        Command::Nothing
    }
}

/// The page after a click: a device that was not highlighted becomes the
/// highlight, the highlighted one is chosen.
pub open spec fn device_after_click(page: DeviceView, area: Area, x: u16, y: u16) -> DeviceView {
    match clicked_entry(area, x, y, page.names.len() as int) {
        Some(index) => if page.highlighted == Some(index as usize) {
            chosen(page)
        } else {
            DeviceView { highlighted: Some(index as usize), ..page }
        },
        None => page,
    }
}

/// What a click tells the router.
pub open spec fn device_click_action(page: DeviceView, area: Area, x: u16, y: u16) -> Option<
    ActionView,
> {
    match clicked_entry(area, x, y, page.names.len() as int) {
        Some(index) => if page.highlighted == Some(index as usize) {
            chosen_action(page)
        } else {
            None
        },
        None => None,
    }
}

impl Default for DevicePage {
    /// A page that knows no device yet.
    fn default() -> (page: Self)
        ensures
            page@ == no_devices(),
    {
        let page = DevicePage {
            devices: Vec::new(),
            highlighted: None,
            selected_device: None,
            status_message: String::new(),
            loading: false,
            mouse_event: None,
        };
        assert(page@.names =~= Seq::empty());
        assert(page@.descriptions =~= Seq::empty());
        page
    }
}

impl DevicePage {
    /// A page that knows no device yet.
    pub fn new() -> (page: Self)
        ensures
            page@ == no_devices(),
    {
        DevicePage::default()
    }

    /// Asks to list the devices: the page says so, and the driver is to list them.
    pub fn request_devices(&mut self) -> (command: Command)
        ensures
            final(self)@ == loading(old(self)@),
            final(self).devices == old(self).devices,
            command == Command::LoadDevices,
    {
        self.loading = true;
        self.status_message = String::from_str("Probing network devices...");
        Command::LoadDevices
    }

    /// Takes in the outcome of listing the devices. A list with devices in
    /// it replaces the known one and its first device is highlighted; an
    /// empty list and a failure only change the status line.
    pub fn load_devices(&mut self, listing: Result<Vec<DeviceEntry>, String>)
        ensures
            !final(self).loading,
            final(self).selected_device == old(self).selected_device,
            final(self).mouse_event == old(self).mouse_event,
            match listing {
                Ok(devices) => if devices@.len() == 0 {
                    final(self).devices == old(self).devices && final(self).highlighted == old(
                        self,
                    ).highlighted && final(self).status_message@ == "No network devices found."@
                } else {
                    final(self).devices == devices && final(self).highlighted == Some(0usize)
                        && final(self).status_message@ == found_status(devices@.len() as int)
                },
                Err(reason) => final(self).devices == old(self).devices && final(self).highlighted
                    == old(self).highlighted && final(self).status_message@
                    == "Failed to list devices: "@ + reason@,
            },
    {
        match listing {
            Ok(devices) => {
                if devices.is_empty() {
                    self.status_message = String::from_str("No network devices found.");
                } else {
                    let mut status = String::from_str("Found ");
                    push_count(&mut status, devices.len());
                    status.append(" device(s). Use ↑/↓ to navigate, Enter to select.");
                    self.status_message = status;
                    self.devices = devices;
                    self.highlighted = Some(0);
                }
            },
            Err(reason) => {
                let mut status = String::from_str("Failed to list devices: ");
                status.append(reason.as_str());
                self.status_message = status;
            },
        }
        self.loading = false;
    }

    /// Chooses the highlighted device and tells the router.
    pub fn select_current_device(&mut self) -> (reply: Option<Action>)
        ensures
            final(self)@ == chosen(old(self)@),
            final(self).devices == old(self).devices,
            reply_view(reply) == chosen_action(old(self)@),
    {
        match self.highlighted {
            Some(index) => {
                if index < self.devices.len() {
                    let mut status = String::from_str("Selected device: ");
                    status.append(self.devices[index].name.as_str());
                    self.status_message = status;
                    self.selected_device = Some(self.devices[index].name.clone());
                    Some(Action::DeviceSelected(self.devices[index].name.clone()))
                } else {
                    None
                }
            },
            None => None,
        }
    }

    /// Drops highlight and choice.
    pub fn clear_selection(&mut self)
        ensures
            final(self)@ == unselected(old(self)@),
            final(self).devices == old(self).devices,
    {
        self.highlighted = None;
        self.selected_device = None;
        if !self.devices.is_empty() {
            let mut status = String::from_str("Found ");
            push_count(&mut status, self.devices.len());
            status.append(" device(s)");
            self.status_message = status;
        }
    }

    /// Reacts to a click at column `x`, line `y` on the list drawn in `area`.
    pub fn handle_mouse_click(&mut self, x: u16, y: u16, area: Area) -> (reply: Option<Action>)
        ensures
            final(self)@ == device_after_click(old(self)@, area, x, y),
            final(self).devices == old(self).devices,
            reply_view(reply) == device_click_action(old(self)@, area, x, y),
    {
        match list_row_at(area, x, y, self.devices.len()) {
            Some(index) => {
                let again = match self.highlighted {
                    Some(current) => current == index,
                    None => false,
                };
                if again {
                    self.select_current_device()
                } else {
                    self.highlighted = Some(index);
                    None
                }
            },
            None => None,
        }
    }

    /// Reacts to a key press: the arrow keys move the highlight round the
    /// list, Enter chooses, `c` drops the choice, `b` and `q` lead home, F5
    /// lists the devices anew.
    pub fn handle_key_events(&mut self, key: KeyEvent) -> (response: Response)
        ensures
            final(self)@ == device_after_key(old(self)@, key.code),
            final(self).devices == old(self).devices,
            reply_view(response.action) == device_key_action(old(self)@, key.code),
            response.command == device_key_command(key.code),
    {
        let count = self.devices.len();
        match key.code {
            KeyCode::Up => {
                if count > 0 {
                    self.highlighted =
                    match self.highlighted {
                        Some(index) => if index == 0 {
                            Some(count - 1)
                        } else {
                            Some(index - 1)
                        },
                        None => Some(count - 1),
                    };
                }
                Response { action: None, command: Command::Nothing }
            },
            KeyCode::Down => {
                if count > 0 {
                    self.highlighted =
                    match self.highlighted {
                        Some(index) => if index >= count - 1 {
                            Some(0)
                        } else {
                            Some(index + 1)
                        },
                        None => Some(0),
                    };
                }
                Response { action: None, command: Command::Nothing }
            },
            KeyCode::Enter => Response { action: self.select_current_device(), command: Command::Nothing },
            KeyCode::Char(c) => {
                if c == 'c' {
                    self.clear_selection();
                    Response { action: None, command: Command::Nothing }
                } else if c == 'b' || c == 'q' {
                    Response { action: Some(Action::NavigateToHome), command: Command::Nothing }
                } else {
                    Response { action: None, command: Command::Nothing }
                }
            },
            KeyCode::F(n) => {
                if n == 5 {
                    Response { action: None, command: self.request_devices() }
                } else {
                    Response { action: None, command: Command::Nothing }
                }
            },
            _ => Response { action: None, command: Command::Nothing },
        }
    }

    /// Reacts to an input event. A key press is handled at once; where the
    /// left button went down is kept for the next layout, which knows where
    /// the list is.
    pub fn handle_events(&mut self, event: Event) -> (response: Response)
        ensures
            final(self).devices == old(self).devices,
            match event {
                Event::Key(key) => final(self)@ == device_after_key(old(self)@, key.code)
                    && reply_view(response.action) == device_key_action(old(self)@, key.code)
                    && response.command == device_key_command(key.code),
                Event::Mouse(mouse) => final(self)@ == (DeviceView {
                    mouse_event: if mouse.kind == MouseEventKind::LeftDown {
                        Some((mouse.column, mouse.row))
                    } else {
                        old(self).mouse_event
                    },
                    ..old(self)@
                }) && response.action is None && response.command == Command::Nothing,
                Event::Tick => final(self)@ == old(self)@ && response.action is None
                    && response.command == Command::Nothing,
            },
    {
        match event {
            Event::Key(key) => self.handle_key_events(key),
            Event::Mouse(mouse) => {
                match mouse.kind {
                    MouseEventKind::LeftDown => {
                        self.mouse_event = Some((mouse.column, mouse.row));
                    },
                    _ => {},
                }
                Response { action: None, command: Command::Nothing }
            },
            Event::Tick => Response { action: None, command: Command::Nothing },
        }
    }

    /// Any message leaves the page as it is.
    pub fn update(&mut self, action: Action) -> (reply: Option<Action>)
        ensures
            final(self)@ == old(self)@,
            final(self).devices == old(self).devices,
            reply is None,
    {
        None
    }

    /// Lays the page out in `area`: list, status box and help line from top
    /// to bottom. A click that waited for the layout is dealt with now.
    pub fn layout(&mut self, area: Area) -> (laid: (Vec<Area>, Option<Action>))
        ensures
            is_row_split(area, 3, laid.0@),
            final(self).devices == old(self).devices,
            match old(self).mouse_event {
                Some((x, y)) => final(self)@ == device_after_click(
                    DeviceView { mouse_event: None, ..old(self)@ },
                    laid.0@[0],
                    x,
                    y,
                ) && reply_view(laid.1) == device_click_action(old(self)@, laid.0@[0], x, y),
                None => final(self)@ == old(self)@ && laid.1 is None,
            },
    {
        let rules = vec![RowRule::Min(10), RowRule::Length(3), RowRule::Length(1)];
        let rows = split_rows(area, &rules);
        let pending = self.mouse_event;
        self.mouse_event = None;
        let reply = match pending {
            Some((x, y)) => self.handle_mouse_click(x, y, rows[0]),
            None => None,
        };
        (rows, reply)
    }

    /// The rows of the list, one per device.
    pub fn device_rows(&self) -> (rows: Vec<DeviceRow>)
        ensures
            rows@.len() == self.devices@.len(),
            forall|i: int|
                0 <= i < rows@.len() ==> (#[trigger] rows@[i])@ == device_row(self.devices@, i),
    {
        let mut rows: Vec<DeviceRow> = Vec::new();
        let mut i: usize = 0;
        while i < self.devices.len()
            invariant
                i <= self.devices@.len(),
                rows@.len() == i,
                forall|k: int|
                    0 <= k < i ==> (#[trigger] rows@[k])@ == device_row(self.devices@, k),
            decreases self.devices@.len() - i,
        {
            let device = &self.devices[i];
            let mut number = String::new();
            push_count(&mut number, i + 1);
            assert(number@ =~= decimal_text((i + 1) as nat));
            let description = match &device.description {
                Some(text) => padded(leading(text.as_str(), 76), 80),
                None => padded(DEFAULT_DESCRIPTION, 80),
            };
            rows.push(
                DeviceRow {
                    number: padded(number.as_str(), 4),
                    description,
                    name: device.name.clone(),
                },
            );
            i += 1;
        }
        rows
    }

    /// The mood of the status line.
    pub fn status_level(&self) -> (level: DeviceStatusLevel)
        ensures
            level == (if self.loading {
                DeviceStatusLevel::Busy
            } else if self.devices@.len() == 0 {
                DeviceStatusLevel::Empty
            } else {
                DeviceStatusLevel::Listed
            }),
    {
        if self.loading {
            DeviceStatusLevel::Busy
        } else if self.devices.is_empty() {
            DeviceStatusLevel::Empty
        } else {
            DeviceStatusLevel::Listed
        }
    }

    /// The help line: it names the key that drops the choice only while a
    /// device is chosen.
    pub fn help_text(&self) -> (text: &'static str)
        ensures
            text@ == (if self.selected_device is Some {
                "↑/↓: Navigate  Enter: Select Device  Q/Esc: Home  B: Back  F5: Refresh  C: Clear Selection"@
            } else {
                "↑/↓: Navigate  Enter: Select Device  Q/Esc: Home  B: Back  F5: Refresh"@
            }),
    {
        if self.selected_device.is_some() {
            "↑/↓: Navigate  Enter: Select Device  Q/Esc: Home  B: Back  F5: Refresh  C: Clear Selection"
        } else {
            "↑/↓: Navigate  Enter: Select Device  Q/Esc: Home  B: Back  F5: Refresh"
        }
    }
}

} // verus!
