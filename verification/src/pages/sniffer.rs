//! The session page: the capture session, the packet list with its selection
//! and scroll position, and the filter dialog that sits on top of it.

use crate::action::{reply_view, Action, ActionView, Response};
use crate::capture::{numbered_from_one, CaptureError, CaptureEvent, Command, Phase};
use crate::capture::{PROMISCUOUS, READ_TIMEOUT_MS, SNAPLEN};
use crate::data::packet::{PacketInfo, PacketView};
use crate::pages::filter::{after_key, clear_filter_preset, closed_dialog, cursor_on_boundary};
use crate::pages::filter::key_reply;
use crate::pages::filter::{opened_dialog, preset_filter};
use crate::pages::filter::{DialogView, FilterDialog};
use crate::text::{concat3, concat5, decimal_text, push_count};
use crate::tui::{body_rows, is_row_split, split_rows, visible_rows};
use crate::tui::{Area, Event, KeyCode, KeyEvent, MouseEvent, MouseEventKind, RowRule};
use vstd::prelude::*;
use vstd::string::StringExecFns;

verus! {

/// How many rows the mouse wheel scrolls at once.
pub const WHEEL_STEP: usize = 3;

/// The page's state.
#[derive(Debug)]
pub struct SnifferPage {
    /// The device to capture on, once one has been chosen.
    pub device_name: Option<String>,
    /// The records of the session, in the order in which they arrived.
    pub packets: Vec<PacketInfo>,
    /// Where the capture session stands.
    pub phase: Phase,
    /// What the status line says.
    pub status_message: String,
    /// The index of the first record that the list shows.
    pub scroll_position: usize,
    /// Whether the list keeps the newest records in view while capturing.
    pub following: bool,
    pub filter_dialog: FilterDialog,
    /// The capture filter for the next start, if any.
    pub current_filter: Option<String>,
    /// The index of the selected record, if any.
    pub selected_packet: Option<usize>,
    /// How many records the list shows at once.
    pub visible_rows: usize,
    /// Where the list was drawn last.
    pub list_area: Area,
}

/// The mathematical content of the page.
pub struct SnifferView {
    pub device_name: Option<Seq<char>>,
    pub packets: Seq<PacketView>,
    pub phase: Phase,
    pub status: Seq<char>,
    pub scroll: int,
    pub following: bool,
    pub dialog: DialogView,
    pub filter: Option<Seq<char>>,
    pub selected: Option<int>,
    pub visible_rows: int,
    pub list_area: Area,
}

/// The content of an optional text.
pub open spec fn text_view(text: Option<String>) -> Option<Seq<char>> {
    match text {
        Some(t) => Some(t@),
        None => None,
    }
}

/// The contents of records.
pub open spec fn records_view(records: Seq<PacketInfo>) -> Seq<PacketView> {
    Seq::new(records.len(), |i: int| records[i]@)
}

impl View for SnifferPage {
    type V = SnifferView;

    open spec fn view(&self) -> SnifferView {
        SnifferView {
            device_name: text_view(self.device_name),
            packets: records_view(self.packets@),
            phase: self.phase,
            status: self.status_message@,
            scroll: self.scroll_position as int,
            following: self.following,
            dialog: self.filter_dialog@,
            filter: text_view(self.current_filter),
            selected: match self.selected_packet {
                Some(i) => Some(i as int),
                None => None,
            },
            visible_rows: self.visible_rows as int,
            list_area: self.list_area,
        }
    }
}

/// The page before anything has happened: no device, no records, no filter,
/// the session idle.
pub open spec fn initial_page() -> SnifferView {
    SnifferView {
        device_name: None,
        packets: Seq::empty(),
        phase: Phase::Idle,
        status: "No device selected. Press 'D' to select a device."@,
        scroll: 0,
        following: false,
        dialog: closed_dialog(),
        filter: None,
        selected: None,
        visible_rows: 0,
        list_area: Area { x: 0, y: 0, width: 0, height: 0 },
    }
}

/// The name of the chosen device, empty where none is chosen.
pub open spec fn device_text(page: SnifferView) -> Seq<char> {
    match page.device_name {
        Some(name) => name,
        None => Seq::empty(),
    }
}

/// Whether a selection, if there is one, points at a record.
pub open spec fn selection_in_range(page: SnifferView) -> bool {
    page.selected matches Some(i) ==> 0 <= i < page.packets.len()
}

/// The scroll position that shows record `index` in a window of `rows`
/// records that starts at `scroll`: unchanged where the record is in view,
/// else moved just far enough.
pub open spec fn scroll_to_show(scroll: int, rows: int, index: int) -> int {
    if index < scroll {
        index
    } else if index - scroll >= rows {
        if rows >= 1 {
            index - (rows - 1)
        } else {
            index
        }
    } else {
        scroll
    }
}

/// The page with record `index` selected and in view; unchanged where there
/// is no such record.
pub open spec fn selecting(page: SnifferView, index: int) -> SnifferView {
    if 0 <= index < page.packets.len() {
        SnifferView {
            selected: Some(index),
            scroll: scroll_to_show(page.scroll, page.visible_rows, index),
            ..page
        }
    } else {
        page
    }
}

/// The furthest that a list of `len` records scrolls in a window of `rows`:
/// so far that the last records fill the window.
pub open spec fn max_scroll(len: int, rows: int) -> int {
    if len > rows {
        len - rows
    } else {
        0
    }
}

/// What the status line says after a capture has stopped.
pub open spec fn stopped_status(device: Seq<char>, count: int) -> Seq<char> {
    "Stopped capturing on "@ + device + ". Captured "@ + decimal_text(count as nat) + " packets."@
}

/// The page after a request to stop: a running capture becomes idle and the
/// status line says how many records it brought; anything else stays.
pub open spec fn stopped(page: SnifferView) -> SnifferView {
    if page.phase == Phase::Capturing {
        SnifferView {
            phase: Phase::Idle,
            status: match page.device_name {
                Some(name) => stopped_status(name, page.packets.len() as int),
                None => page.status,
            },
            ..page
        }
    } else {
        page
    }
}

/// What a request to stop asks of the driver.
pub open spec fn stop_command(page: SnifferView) -> Command {
    if page.phase == Phase::Capturing {
        Command::StopWorker
    } else {
        Command::Nothing
    }
}

/// Whether a request to start does anything: a device is chosen and the
/// session is idle.
pub open spec fn can_start(page: SnifferView) -> bool {
    page.device_name is Some && page.phase == Phase::Idle
}

/// The page after a request to start.
pub open spec fn started(page: SnifferView) -> SnifferView {
    if can_start(page) {
        SnifferView { phase: Phase::Listing, status: "Starting packet capture..."@, ..page }
    } else {
        page
    }
}

/// What a request to start asks of the driver.
pub open spec fn start_command(page: SnifferView) -> Command {
    if can_start(page) {
        Command::ListDevices
    } else {
        Command::Nothing
    }
}

/// The page once the worker is to run: capturing, with an empty list that is
/// scrolled to the top and has no selection.
pub open spec fn capturing(page: SnifferView, status: Seq<char>) -> SnifferView {
    SnifferView {
        phase: Phase::Capturing,
        status,
        packets: Seq::empty(),
        scroll: 0,
        selected: None,
        ..page
    }
}

/// The page back at idle after a failed start.
pub open spec fn failed(page: SnifferView, status: Seq<char>) -> SnifferView {
    SnifferView { phase: Phase::Idle, status, ..page }
}

/// Whether `index` is the first place in `names` at which `wanted` stands.
pub open spec fn is_first_match(names: Seq<String>, wanted: Seq<char>, index: int) -> bool {
    &&& 0 <= index < names.len()
    &&& names[index]@ == wanted
    &&& forall|k: int| 0 <= k < index ==> names[k]@ != wanted
}

/// The first place in `names` at which `wanted` stands, if it does.
pub open spec fn first_match(names: Seq<String>, wanted: Seq<char>) -> Option<int> {
    if exists|index: int| is_first_match(names, wanted, index) {
        Some(choose|index: int| is_first_match(names, wanted, index))
    } else {
        None
    }
}

/// Whether a filter is to be installed: one is set and it is not empty.
pub open spec fn has_filter(page: SnifferView) -> bool {
    page.filter matches Some(text) && text.len() > 0
}

/// The filter text, empty where none is set.
pub open spec fn filter_text(page: SnifferView) -> Seq<char> {
    match page.filter {
        Some(text) => text,
        None => Seq::empty(),
    }
}

/// What the status line says while capturing without a filter.
pub open spec fn capturing_status(device: Seq<char>) -> Seq<char> {
    "Capturing packets on "@ + device + ". Press 'S' to stop."@
}

/// What the status line says while capturing with a filter.
pub open spec fn filtered_status(device: Seq<char>, filter: Seq<char>) -> Seq<char> {
    "Capturing packets on "@ + device + " with filter: "@ + filter + ". Press 'S' to stop."@
}

/// What the status line says when the filter was rejected.
pub open spec fn rejected_status(reason: Seq<char>) -> Seq<char> {
    "Filter error: "@ + reason + ". Capturing without filter."@
}

/// The page after the driver's report `event`. A start goes from listing
/// the devices over opening the chosen one to installing the filter, if one
/// is set, and ends in capturing. A device that is not listed, a listing or an
/// opening that fails lead back to idle. A filter that is rejected does not:
/// the capture runs without it. A report that does not belong to the current
/// phase changes nothing.
pub open spec fn after_capture_event(page: SnifferView, event: CaptureEvent) -> SnifferView {
    match (page.phase, event) {
        (Phase::Listing, CaptureEvent::DevicesListed(names)) => {
            if first_match(names@, device_text(page)) is Some && page.device_name is Some {
                SnifferView { phase: Phase::Opening, ..page }
            } else {
                failed(page, "Device not found"@)
            }
        },
        (Phase::Listing, CaptureEvent::ListFailed(reason)) => failed(
            page,
            "Failed to list devices: "@ + reason@,
        ),
        (Phase::Opening, CaptureEvent::Opened) => {
            if has_filter(page) {
                SnifferView { phase: Phase::Filtering, ..page }
            } else {
                capturing(page, capturing_status(device_text(page)))
            }
        },
        (Phase::Opening, CaptureEvent::OpenFailed(reason)) => failed(
            page,
            "Failed to open device: "@ + reason@,
        ),
        (Phase::Filtering, CaptureEvent::FilterInstalled) => capturing(
            page,
            filtered_status(device_text(page), filter_text(page)),
        ),
        (Phase::Filtering, CaptureEvent::FilterRejected(reason)) => capturing(
            page,
            rejected_status(reason@),
        ),
        _ => page,
    }
}

/// What the driver is to do after its report `event`, or why the start failed.
pub open spec fn capture_outcome(page: SnifferView, event: CaptureEvent) -> Result<
    Command,
    CaptureError,
> {
    match (page.phase, event) {
        (Phase::Listing, CaptureEvent::DevicesListed(names)) => {
            match first_match(names@, device_text(page)) {
                Some(index) => if page.device_name is Some {
                    Ok(
                        Command::OpenDevice {
                            index: index as usize,
                            promiscuous: PROMISCUOUS,
                            snaplen: SNAPLEN,
                            timeout_ms: READ_TIMEOUT_MS,
                        },
                    )
                } else {
                    Err(CaptureError::DeviceNotFound)
                },
                None => Err(CaptureError::DeviceNotFound),
            }
        },
        (Phase::Listing, CaptureEvent::ListFailed(_)) => Err(CaptureError::CaptureOpenError),
        (Phase::Opening, CaptureEvent::Opened) => {
            if has_filter(page) {
                Ok(Command::InstallFilter)
            } else {
                Ok(Command::SpawnWorker)
            }
        },
        (Phase::Opening, CaptureEvent::OpenFailed(_)) => Err(CaptureError::CaptureOpenError),
        (Phase::Filtering, CaptureEvent::FilterInstalled) => Ok(Command::SpawnWorker),
        (Phase::Filtering, CaptureEvent::FilterRejected(_)) => Ok(Command::SpawnWorker),
        _ => Ok(Command::Nothing),
    }
}

/// The list row that a click at column `x`, line `y` hits in a list drawn in
/// `area`: the click must fall inside the border and below the column headers.
pub open spec fn clicked_row(area: Area, x: u16, y: u16) -> Option<int> {
    if x > area.x && x < area.x + area.width - 1 && y > area.y + 1 && y < area.y + area.height
        - 1 {
        Some(y - area.y - 2)
    } else {
        None
    }
}

/// The record that a click hits, if it hits one.
pub open spec fn clicked_record(page: SnifferView, area: Area, x: u16, y: u16) -> Option<int> {
    match clicked_row(area, x, y) {
        Some(row) => if page.scroll + row < page.packets.len() {
            Some(page.scroll + row)
        } else {
            None
        },
        None => None,
    }
}

/// The page after a click: a record that was not selected becomes the
/// selection.
pub open spec fn after_click(page: SnifferView, area: Area, x: u16, y: u16) -> SnifferView {
    match clicked_record(page, area, x, y) {
        Some(index) => SnifferView { selected: Some(index), ..page },
        None => page,
    }
}

/// What a click asks of the router: a click on the record that is already
/// selected opens its details.
pub open spec fn click_action(page: SnifferView, area: Area, x: u16, y: u16) -> Option<ActionView> {
    match clicked_record(page, area, x, y) {
        Some(index) => if page.selected == Some(index) {
            Some(ActionView::PacketSelected(index as usize))
        } else {
            None
        },
        None => None,
    }
}

/// The page after the wheel turned up: three rows back, not past the top.
pub open spec fn after_wheel_up(page: SnifferView) -> SnifferView {
    SnifferView {
        scroll: if page.scroll > WHEEL_STEP {
            page.scroll - WHEEL_STEP
        } else {
            0
        },
        ..page
    }
}

/// The page after the wheel turned down: three rows on, not past the
/// position at which the last records fill the window.
pub open spec fn after_wheel_down(page: SnifferView) -> SnifferView {
    let limit = max_scroll(page.packets.len() as int, page.visible_rows);
    if page.scroll < limit {
        SnifferView {
            scroll: if page.scroll + WHEEL_STEP < limit {
                page.scroll + WHEEL_STEP
            } else {
                limit
            },
            ..page
        }
    } else {
        page
    }
}

/// The page after a mouse event.
pub open spec fn after_mouse(page: SnifferView, mouse: MouseEvent) -> SnifferView {
    match mouse.kind {
        MouseEventKind::LeftDown => after_click(page, page.list_area, mouse.column, mouse.row),
        MouseEventKind::ScrollUp => after_wheel_up(page),
        MouseEventKind::ScrollDown => after_wheel_down(page),
        MouseEventKind::Other => page,
    }
}

/// What a mouse event asks of the router.
pub open spec fn mouse_action(page: SnifferView, mouse: MouseEvent) -> Option<ActionView> {
    match mouse.kind {
        MouseEventKind::LeftDown => click_action(page, page.list_area, mouse.column, mouse.row),
        _ => None,
    }
}

/// The page with its list emptied.
pub open spec fn cleared(page: SnifferView) -> SnifferView {
    SnifferView {
        packets: Seq::empty(),
        scroll: 0,
        selected: None,
        status: "Cleared packet list."@,
        ..page
    }
}

/// The page after an arrow key moved the selection by `step` (one up or one
/// down): the neighbour becomes the selection, as far as there is one; with
/// no selection the first record does. An empty list scrolls up instead.
pub open spec fn after_arrow(page: SnifferView, step: int) -> SnifferView {
    if page.packets.len() > 0 {
        match page.selected {
            Some(current) => if 0 <= current + step < page.packets.len() {
                selecting(page, current + step)
            } else {
                page
            },
            None => selecting(page, 0),
        }
    } else if step < 0 && page.scroll > 0 {
        SnifferView { scroll: page.scroll - 1, ..page }
    } else {
        page
    }
}

/// The page after a key press while the list has the focus.
pub open spec fn after_page_key(page: SnifferView, key: KeyCode) -> SnifferView {
    match key {
        KeyCode::Char(c) => if c == 's' {
            if page.device_name is Some {
                if page.phase == Phase::Capturing {
                    stopped(page)
                } else {
                    started(page)
                }
            } else {
                SnifferView {
                    status: "No device selected. Press 'd' to select a device."@,
                    ..page
                }
            }
        } else if c == 'q' {
            stopped(page)
        } else if c == 'a' {
            SnifferView { dialog: opened_dialog(), ..stopped(page) }
        } else if c == 'c' {
            cleared(page)
        } else if c == 'f' {
            SnifferView { following: !page.following, ..page }
        } else {
            page
        },
        KeyCode::Up => after_arrow(page, -1),
        KeyCode::Down => after_arrow(page, 1),
        KeyCode::Home => if page.packets.len() > 0 {
            selecting(page, 0)
        } else {
            SnifferView { scroll: 0, ..page }
        },
        KeyCode::End => if page.packets.len() > 0 {
            selecting(page, page.packets.len() - 1)
        } else {
            SnifferView { scroll: 0, ..page }
        },
        _ => page,
    }
}

/// What a key press asks of the router while the list has the focus.
pub open spec fn page_key_action(page: SnifferView, key: KeyCode) -> Option<ActionView> {
    match key {
        KeyCode::Char(c) => if c == 'q' {
            Some(ActionView::NavigateToHome)
        } else if c == 'd' {
            Some(ActionView::NavigateToDevice)
        } else {
            None
        },
        KeyCode::Enter => match page.selected {
            Some(index) => Some(ActionView::PacketSelected(index as usize)),
            None => None,
        },
        _ => None,
    }
}

/// What a key press asks of the driver while the list has the focus.
pub open spec fn page_key_command(page: SnifferView, key: KeyCode) -> Command {
    match key {
        KeyCode::Char(c) => if c == 's' {
            if page.device_name is Some {
                if page.phase == Phase::Capturing {
                    Command::StopWorker
                } else {
                    start_command(page)
                }
            } else {
                Command::Nothing
            }
        } else if c == 'q' || c == 'a' {
            stop_command(page)
        } else {
            Command::Nothing
        },
        _ => Command::Nothing,
    }
}

/// The page after an input event. While the filter dialog is open it alone
/// takes the keys, and the list takes no input at all.
pub open spec fn after_page_event(page: SnifferView, event: Event) -> SnifferView {
    if page.dialog.is_open {
        match event {
            Event::Key(key) => SnifferView { dialog: after_key(page.dialog, key.code), ..page },
            _ => page,
        }
    } else {
        match event {
            Event::Key(key) => after_page_key(page, key.code),
            Event::Mouse(mouse) => after_mouse(page, mouse),
            Event::Tick => page,
        }
    }
}

/// What an input event asks of the router.
pub open spec fn page_event_action(page: SnifferView, event: Event) -> Option<ActionView> {
    if page.dialog.is_open {
        match event {
            Event::Key(key) => Some(key_reply(page.dialog, key.code)),
            _ => None,
        }
    } else {
        match event {
            Event::Key(key) => page_key_action(page, key.code),
            Event::Mouse(mouse) => mouse_action(page, mouse),
            Event::Tick => None,
        }
    }
}

/// What an input event asks of the driver: a tick during a capture has the
/// channel drained.
pub open spec fn page_event_command(page: SnifferView, event: Event) -> Command {
    match event {
        Event::Tick => if page.phase == Phase::Capturing {
            Command::DrainPackets
        } else {
            Command::Nothing
        },
        Event::Key(key) => if page.dialog.is_open {
            Command::Nothing
        } else {
            page_key_command(page, key.code)
        },
        Event::Mouse(_) => Command::Nothing,
    }
}

/// What the status line says after a filter text has been applied.
pub open spec fn filter_status(filter: Seq<char>) -> Seq<char> {
    if filter.len() == 0 {
        "Filter cleared"@ + ". Press 'S' to start capturing."@
    } else {
        "Filter applied: "@ + filter + ". Press 'S' to start capturing."@
    }
}

/// The page after a message from the router. A chosen device is taken over.
/// A filter is stored for the next start, an empty one as no filter, and a
/// running capture is stopped first. A request to open a record is noted on
/// the status line.
pub open spec fn after_update(page: SnifferView, action: ActionView) -> SnifferView {
    match action {
        ActionView::DeviceSelected(name) => SnifferView {
            device_name: Some(name),
            status: "Device set to: "@ + name + ". Press 'S' to start capturing."@,
            ..page
        },
        ActionView::ApplyFilter(filter) => SnifferView {
            filter: if filter.len() == 0 {
                None
            } else {
                Some(filter)
            },
            status: filter_status(filter),
            ..stopped(page)
        },
        ActionView::PacketSelected(index) => if index < page.packets.len() {
            SnifferView {
                status: "Opening packet details for packet #"@ + decimal_text(
                    page.packets[index as int].id as nat,
                ),
                ..page
            }
        } else {
            page
        },
        _ => page,
    }
}

/// What a message from the router asks of the driver.
pub open spec fn update_command(page: SnifferView, action: ActionView) -> Command {
    match action {
        ActionView::ApplyFilter(_) => stop_command(page),
        _ => Command::Nothing,
    }
}

/// The page once its list is drawn in `area`. In follow mode a running
/// capture keeps the newest records in view.
pub open spec fn with_viewport(page: SnifferView, area: Area) -> SnifferView {
    let rows = body_rows(area.height);
    SnifferView {
        visible_rows: rows,
        list_area: area,
        scroll: if page.following && page.phase == Phase::Capturing {
            max_scroll(page.packets.len() as int, rows)
        } else {
            page.scroll
        },
        ..page
    }
}

/// A record that has just been selected lies in the window, if the window
/// has room for any.
pub proof fn lemma_selection_is_in_view(page: SnifferPage, index: int)
    requires
        0 <= index < page.packets@.len(),
        page.visible_rows >= 1,
    ensures
        selecting(page@, index).selected == Some(index),
        selecting(page@, index).scroll <= index < selecting(page@, index).scroll
            + page.visible_rows,
{
}

/// Whatever the page is asked to do with keys, clicks or the wheel, a
/// selection that pointed at a record still points at one afterwards.
pub proof fn lemma_navigation_keeps_selection_in_range(page: SnifferPage, event: Event)
    requires
        selection_in_range(page@),
    ensures
        selection_in_range(after_page_event(page@, event)),
{
}

/// Neither the records that arrive, nor a message from the router, nor a
/// new viewport, nor any step of starting or stopping a capture lets a
/// selection point past the list.
pub proof fn lemma_session_keeps_selection_in_range(
    page: SnifferPage,
    action: ActionView,
    event: CaptureEvent,
    batch: Seq<PacketView>,
    area: Area,
)
    requires
        selection_in_range(page@),
    ensures
        selection_in_range(after_update(page@, action)),
        selection_in_range(after_capture_event(page@, event)),
        selection_in_range(started(page@)),
        selection_in_range(stopped(page@)),
        selection_in_range(with_viewport(page@, area)),
        selection_in_range(SnifferView { packets: page@.packets + batch, ..page@ }),
{
}

/// The driver is told to start a worker exactly when the session enters the
/// capturing phase, which it enters only from a phase in which no worker
/// runs; and whenever the session leaves the capturing phase, the driver is
/// told to stop the worker. A driver that does as it is told never has two
/// workers at once, and none that outlives its session.
pub proof fn lemma_one_worker_at_a_time(
    page: SnifferPage,
    report: CaptureEvent,
    event: Event,
    action: ActionView,
)
    ensures
        capture_outcome(page@, report) == Ok::<Command, CaptureError>(Command::SpawnWorker) <==> (
        page.phase != Phase::Capturing && after_capture_event(page@, report).phase
            == Phase::Capturing),
        after_capture_event(page@, report).phase == Phase::Capturing || page.phase
            != Phase::Capturing,
        page.phase != Phase::Capturing ==> after_page_event(page@, event).phase
            != Phase::Capturing && after_update(page@, action).phase != Phase::Capturing
            && started(page@).phase != Phase::Capturing,
        page.phase == Phase::Capturing && after_page_event(page@, event).phase
            != Phase::Capturing ==> page_event_command(page@, event) == Command::StopWorker,
        page.phase == Phase::Capturing && after_update(page@, action).phase != Phase::Capturing
            ==> update_command(page@, action) == Command::StopWorker,
        page.phase == Phase::Capturing ==> started(page@) == page@ && start_command(page@)
            == Command::Nothing,
{
}

/// A filter that is rejected while a capture starts does not stop the start:
/// the session ends up capturing, the driver is to start the worker, and the
/// status line says that no filter is in force.
pub proof fn lemma_rejected_filter_still_captures(page: SnifferPage, reason: String)
    requires
        page.phase == Phase::Filtering,
    ensures
        after_capture_event(page@, CaptureEvent::FilterRejected(reason)).phase == Phase::Capturing,
        capture_outcome(page@, CaptureEvent::FilterRejected(reason)) == Ok::<
            Command,
            CaptureError,
        >(Command::SpawnWorker),
        after_capture_event(page@, CaptureEvent::FilterRejected(reason)).status == rejected_status(
            reason@,
        ),
{
}

/// Applying the filter text of the preset that clears the filter leaves the
/// session without a filter.
pub proof fn lemma_clear_preset_removes_filter(page: SnifferPage)
    ensures
        preset_filter(clear_filter_preset()).len() == 0,
        after_update(page@, ActionView::ApplyFilter(preset_filter(clear_filter_preset()))).filter
            is None,
{
    reveal_strlit("");
}

/// A capture that starts has an empty list, which is numbered from one; see
/// [`lemma_received_records_stay_numbered`] for what follows.
pub proof fn lemma_new_capture_is_numbered_from_one(page: SnifferPage, status: Seq<char>)
    ensures
        numbered_from_one(capturing(page@, status).packets),
{
}

/// The first place at which `wanted` stands among `names`.
pub fn find_device(names: &Vec<String>, wanted: &String) -> (found: Option<usize>)
    ensures
        match found {
            Some(index) => first_match(names@, wanted@) == Some(index as int),
            None => first_match(names@, wanted@) is None,
        },
{
    let mut i: usize = 0;
    while i < names.len()
        invariant
            i <= names@.len(),
            forall|k: int| 0 <= k < i ==> names@[k]@ != wanted@,
        decreases names@.len() - i,
    {
        if names[i] == *wanted {
            proof {
                assert(is_first_match(names@, wanted@, i as int));
                let chosen = choose|index: int| is_first_match(names@, wanted@, index);
                assert(is_first_match(names@, wanted@, chosen));
                if chosen < i {
                    assert(names@[chosen]@ != wanted@);
                }
                if i < chosen {
                    assert(names@[i as int]@ != wanted@);
                }
            }
            return Some(i);
        }
        i += 1;
    }
    proof {
        if exists|index: int| is_first_match(names@, wanted@, index) {
            let chosen = choose|index: int| is_first_match(names@, wanted@, index);
            assert(names@[chosen]@ != wanted@);
        }
    }
    None
}

impl Default for SnifferPage {
    /// A page without device, records or filter.
    fn default() -> (page: Self)
        ensures
            page@ == initial_page(),
            page.wf(),
    {
        let page = SnifferPage {
            device_name: None,
            packets: Vec::new(),
            phase: Phase::Idle,
            status_message: String::from_str("No device selected. Press 'D' to select a device."),
            scroll_position: 0,
            following: false,
            filter_dialog: FilterDialog::new(),
            current_filter: None,
            selected_packet: None,
            visible_rows: 0,
            list_area: Area { x: 0, y: 0, width: 0, height: 0 },
        };
        assert(page@.packets =~= Seq::empty());
        page
    }
}

impl SnifferPage {
    /// Whether the selection, if there is one, points at a record, and the
    /// cursor of the filter dialog stands on a character boundary.
    pub open spec fn wf(&self) -> bool {
        selection_in_range(self@) && cursor_on_boundary(self@.dialog)
    }

    /// A page without device, records or filter.
    pub fn new() -> (page: Self)
        ensures
            page@ == initial_page(),
            page.wf(),
    {
        SnifferPage::default()
    }

    /// Whether a worker runs.
    pub fn is_capturing(&self) -> (running: bool)
        ensures
            running == (self.phase == Phase::Capturing),
    {
        match self.phase {
            Phase::Capturing => true,
            _ => false,
        }
    }

    /// The number of records in the session.
    pub fn packet_count(&self) -> (count: usize)
        ensures
            count == self@.packets.len(),
    {
        self.packets.len()
    }

    /// Chooses the device to capture on.
    pub fn set_device(&mut self, device_name: String)
        ensures
            final(self)@ == (SnifferView {
                device_name: Some(device_name@),
                status: "Device set to: "@ + device_name@ + ". Press 'S' to start capturing."@,
                ..old(self)@
            }),
    {
        self.status_message =
        concat3("Device set to: ", device_name.as_str(), ". Press 'S' to start capturing.");
        self.device_name = Some(device_name);
    }

    /// Asks to start a capture. With a device chosen and the session idle,
    /// the driver is to list the devices; otherwise nothing happens, so that
    /// no second worker is ever started.
    pub fn start_capture(&mut self) -> (command: Command)
        ensures
            final(self)@ == started(old(self)@),
            command == start_command(old(self)@),
    {
        if self.device_name.is_some() && self.phase == Phase::Idle {
            self.status_message = String::from_str("Starting packet capture...");
            self.phase = Phase::Listing;
            Command::ListDevices
        } else {
            Command::Nothing
        }
    }

    /// Takes in the driver's report on a step of starting the capture, and
    /// says what comes next or why the start failed.
    pub fn capture_step(&mut self, event: CaptureEvent) -> (outcome: Result<Command, CaptureError>)
        ensures
            final(self)@ == after_capture_event(old(self)@, event),
            outcome == capture_outcome(old(self)@, event),
            outcome is Err ==> final(self).phase == Phase::Idle,
    {
        match (self.phase, event) {
            (Phase::Listing, CaptureEvent::DevicesListed(names)) => {
                let found = match &self.device_name {
                    Some(wanted) => find_device(&names, wanted),
                    None => None,
                };
                match found {
                    Some(index) => {
                        self.phase = Phase::Opening;
                        Ok(
                            Command::OpenDevice {
                                index,
                                promiscuous: PROMISCUOUS,
                                snaplen: SNAPLEN,
                                timeout_ms: READ_TIMEOUT_MS,
                            },
                        )
                    },
                    None => {
                        self.phase = Phase::Idle;
                        self.status_message = String::from_str("Device not found");
                        Err(CaptureError::DeviceNotFound)
                    },
                }
            },
            (Phase::Listing, CaptureEvent::ListFailed(reason)) => {
                self.phase = Phase::Idle;
                let mut status = String::from_str("Failed to list devices: ");
                status.append(reason.as_str());
                self.status_message = status;
                Err(CaptureError::CaptureOpenError)
            },
            (Phase::Opening, CaptureEvent::Opened) => {
                let filtered = match &self.current_filter {
                    Some(text) => !text.as_str().is_empty(),
                    None => false,
                };
                if filtered {
                    self.phase = Phase::Filtering;
                    Ok(Command::InstallFilter)
                } else {
                    let status = concat3(
                        "Capturing packets on ",
                        self.device_str(),
                        ". Press 'S' to stop.",
                    );
                    self.begin_capturing(status);
                    Ok(Command::SpawnWorker)
                }
            },
            (Phase::Opening, CaptureEvent::OpenFailed(reason)) => {
                self.phase = Phase::Idle;
                let mut status = String::from_str("Failed to open device: ");
                status.append(reason.as_str());
                self.status_message = status;
                Err(CaptureError::CaptureOpenError)
            },
            (Phase::Filtering, CaptureEvent::FilterInstalled) => {
                let status = concat5(
                    "Capturing packets on ",
                    self.device_str(),
                    " with filter: ",
                    self.filter_str(),
                    ". Press 'S' to stop.",
                );
                self.begin_capturing(status);
                Ok(Command::SpawnWorker)
            },
            (Phase::Filtering, CaptureEvent::FilterRejected(reason)) => {
                let status = concat3(
                    "Filter error: ",
                    reason.as_str(),
                    ". Capturing without filter.",
                );
                self.begin_capturing(status);
                Ok(Command::SpawnWorker)
            },
            _ => Ok(Command::Nothing),
        }
    }

    /// The name of the chosen device, empty where none is chosen.
    fn device_str(&self) -> (name: &str)
        ensures
            name@ == device_text(self@),
    {
        match &self.device_name {
            Some(name) => name.as_str(),
            None => {
                let empty = "";
                proof {
                    reveal_strlit("");
                }
                assert(empty@ =~= Seq::empty());
                empty
            },
        }
    }

    /// The current filter, empty where none is set.
    fn filter_str(&self) -> (text: &str)
        ensures
            text@ == filter_text(self@),
    {
        match &self.current_filter {
            Some(text) => text.as_str(),
            None => {
                let empty = "";
                proof {
                    reveal_strlit("");
                }
                assert(empty@ =~= Seq::empty());
                empty
            },
        }
    }

    /// Enters the capturing phase with an empty list.
    fn begin_capturing(&mut self, status: String)
        ensures
            final(self)@ == capturing(old(self)@, status@),
    {
        self.phase = Phase::Capturing;
        self.status_message = status;
        self.selected_packet = None;
        self.packets.clear();
        self.scroll_position = 0;
        assert(self@.packets =~= Seq::empty());
    }

    /// Asks to stop the capture. While a worker runs, the session becomes
    /// idle and the driver is to raise the cancellation signal and wait for the
    /// worker to end; otherwise nothing happens.
    pub fn stop_capture(&mut self) -> (command: Command)
        ensures
            final(self)@ == stopped(old(self)@),
            command == stop_command(old(self)@),
            final(self).phase != Phase::Capturing,
    {
        if self.is_capturing() {
            self.phase = Phase::Idle;
            if self.device_name.is_some() {
                let mut status = String::from_str("Stopped capturing on ");
                status.append(self.device_str());
                status.append(". Captured ");
                push_count(&mut status, self.packets.len());
                status.append(" packets.");
                self.status_message = status;
            }
            Command::StopWorker
        } else {
            Command::Nothing
        }
    }

    /// Takes in the records that waited in the channel, in their order. They
    /// are added to the list while a capture runs, and dropped otherwise.
    pub fn receive_packets(&mut self, batch: Vec<PacketInfo>)
        ensures
            final(self)@ == (SnifferView {
                packets: if old(self).phase == Phase::Capturing {
                    old(self)@.packets + records_view(batch@)
                } else {
                    old(self)@.packets
                },
                ..old(self)@
            }),
            old(self).wf() ==> final(self).wf(),
    {
        if self.is_capturing() {
            let ghost incoming = batch@;
            let mut rest = batch;
            self.packets.append(&mut rest);
            assert(self@.packets =~= old(self)@.packets + records_view(incoming));
        }
    }

    /// Selects record `index` and brings it into view; does nothing where
    /// there is no such record.
    pub fn select_packet(&mut self, index: usize)
        ensures
            final(self)@ == selecting(old(self)@, index as int),
            old(self).wf() ==> final(self).wf(),
    {
        if index < self.packets.len() {
            self.selected_packet = Some(index);
            if index < self.scroll_position {
                self.scroll_position = index;
            } else if index - self.scroll_position >= self.visible_rows {
                self.scroll_position =
                if self.visible_rows >= 1 {
                    index - (self.visible_rows - 1)
                } else {
                    index
                };
            }
        }
    }

    /// A copy of record `index`, if there is one.
    pub fn get_packet(&self, index: usize) -> (record: Option<PacketInfo>)
        ensures
            match record {
                Some(r) => index < self@.packets.len() && r@ == self@.packets[index as int],
                None => index >= self@.packets.len(),
            },
    {
        if index < self.packets.len() {
            Some(self.packets[index].clone())
        } else {
            None
        }
    }
    /// Reacts to a click at column `x`, line `y` on the list drawn in `area`.
    /// A click on a record selects it; a click on the selected record asks to
    /// open its details.
    pub fn handle_mouse_click(&mut self, x: u16, y: u16, area: Area) -> (reply: Option<Action>)
        ensures
            final(self)@ == after_click(old(self)@, area, x, y),
            reply_view(reply) == click_action(old(self)@, area, x, y),
            old(self).wf() ==> final(self).wf(),
    {
        let inside = x > area.x && (x as u32) + 1 < area.x as u32 + area.width as u32 && (y as u32)
            > area.y as u32 + 1 && (y as u32) + 1 < area.y as u32 + area.height as u32;
        if inside {
            let row: usize = (y - area.y - 2) as usize;
            if self.scroll_position < self.packets.len() && row < self.packets.len()
                - self.scroll_position {
                let index = self.scroll_position + row;
                match self.selected_packet {
                    Some(current) => {
                        if current == index {
                            return Some(Action::PacketSelected(index));
                        }
                    },
                    None => {},
                }
                self.selected_packet = Some(index);
            }
        }
        None
    }

    /// Empties the list.
    pub fn clear_packets(&mut self)
        ensures
            final(self)@ == cleared(old(self)@),
            selection_in_range(final(self)@),
            old(self).wf() ==> final(self).wf(),
    {
        self.selected_packet = None;
        self.packets.clear();
        self.scroll_position = 0;
        self.status_message = String::from_str("Cleared packet list.");
        assert(self@.packets =~= Seq::empty());
    }

    /// Moves the selection one record up (`step` below zero) or down.
    fn move_selection(&mut self, down: bool)
        ensures
            final(self)@ == after_arrow(
                old(self)@,
                if down {
                    1
                } else {
                    -1
                },
            ),
            old(self).wf() ==> final(self).wf(),
    {
        if !self.packets.is_empty() {
            match self.selected_packet {
                Some(current) => {
                    if down {
                        if current < self.packets.len() - 1 {
                            self.select_packet(current + 1);
                        }
                    } else {
                        if current > 0 && current - 1 < self.packets.len() {
                            self.select_packet(current - 1);
                        }
                    }
                },
                None => {
                    self.select_packet(0);
                },
            }
        } else if !down && self.scroll_position > 0 {
            self.scroll_position -= 1;
        }
    }

    /// Reacts to a key press while the list has the focus: `s` starts or
    /// stops the capture, `q` leaves for the home page, `d` for the device
    /// page, `a` opens the filter dialog, `c` empties the list, `f` toggles
    /// follow mode, Enter opens the selected record, and the arrow keys, Home
    /// and End move the selection. Leaving and opening the dialog stop a
    /// running capture first.
    pub fn handle_key_events(&mut self, key: KeyEvent) -> (response: Response)
        ensures
            final(self)@ == after_page_key(old(self)@, key.code),
            reply_view(response.action) == page_key_action(old(self)@, key.code),
            response.command == page_key_command(old(self)@, key.code),
            old(self).wf() ==> final(self).wf(),
    {
        let mut action: Option<Action> = None;
        let mut command = Command::Nothing;
        match key.code {
            KeyCode::Char(c) => {
                if c == 's' {
                    if self.device_name.is_some() {
                        if self.is_capturing() {
                            command = self.stop_capture();
                        } else {
                            command = self.start_capture();
                        }
                    } else {
                        self.status_message =
                        String::from_str("No device selected. Press 'd' to select a device.");
                    }
                } else if c == 'q' {
                    command = self.stop_capture();
                    action = Some(Action::NavigateToHome);
                } else if c == 'd' {
                    action = Some(Action::NavigateToDevice);
                } else if c == 'a' {
                    command = self.stop_capture();
                    self.filter_dialog.open();
                } else if c == 'c' {
                    self.clear_packets();
                } else if c == 'f' {
                    self.following = !self.following;
                }
            },
            KeyCode::Enter => {
                match self.selected_packet {
                    Some(index) => {
                        action = Some(Action::PacketSelected(index));
                    },
                    None => {},
                }
            },
            KeyCode::Up => {
                self.move_selection(false);
            },
            KeyCode::Down => {
                self.move_selection(true);
            },
            KeyCode::Home => {
                if !self.packets.is_empty() {
                    self.select_packet(0);
                } else {
                    self.scroll_position = 0;
                }
            },
            KeyCode::End => {
                if !self.packets.is_empty() {
                    let last = self.packets.len() - 1;
                    self.select_packet(last);
                } else {
                    self.scroll_position = 0;
                }
            },
            _ => {},
        }
        Response { action, command }
    }

    /// Reacts to a mouse event on the list.
    pub fn handle_mouse_events(&mut self, mouse: MouseEvent) -> (reply: Option<Action>)
        ensures
            final(self)@ == after_mouse(old(self)@, mouse),
            reply_view(reply) == mouse_action(old(self)@, mouse),
            old(self).wf() ==> final(self).wf(),
    {
        match mouse.kind {
            MouseEventKind::LeftDown => {
                let area = self.list_area;
                self.handle_mouse_click(mouse.column, mouse.row, area)
            },
            MouseEventKind::ScrollUp => {
                self.scroll_position = self.scroll_position.saturating_sub(WHEEL_STEP);
                None
            },
            MouseEventKind::ScrollDown => {
                let len = self.packets.len();
                let limit = if len > self.visible_rows {
                    len - self.visible_rows
                } else {
                    0
                };
                if self.scroll_position < limit {
                    self.scroll_position =
                    if limit - self.scroll_position > WHEEL_STEP {
                        self.scroll_position + WHEEL_STEP
                    } else {
                        limit
                    };
                }
                None
            },
            MouseEventKind::Other => None,
        }
    }

    /// Reacts to an input event. An open filter dialog takes every key, and
    /// the list takes no input until the dialog has closed. A tick during a
    /// capture has the driver drain the channel.
    pub fn handle_events(&mut self, event: Event) -> (response: Response)
        ensures
            final(self)@ == after_page_event(old(self)@, event),
            reply_view(response.action) == page_event_action(old(self)@, event),
            response.command == page_event_command(old(self)@, event),
            old(self).wf() ==> final(self).wf(),
    {
        if self.filter_dialog.is_open {
            match event {
                Event::Key(key) => {
                    let action = self.filter_dialog.handle_key_events(key);
                    Response { action, command: Command::Nothing }
                },
                Event::Mouse(_) => Response { action: None, command: Command::Nothing },
                Event::Tick => Response { action: None, command: self.tick_command() },
            }
        } else {
            match event {
                Event::Key(key) => self.handle_key_events(key),
                Event::Mouse(mouse) => {
                    let action = self.handle_mouse_events(mouse);
                    Response { action, command: Command::Nothing }
                },
                Event::Tick => Response { action: None, command: self.tick_command() },
            }
        }
    }

    /// What a tick asks of the driver.
    fn tick_command(&self) -> (command: Command)
        ensures
            command == page_event_command(self@, Event::Tick),
    {
        if self.is_capturing() {
            Command::DrainPackets
        } else {
            Command::Nothing
        }
    }

    /// Takes in a message from the router.
    pub fn update(&mut self, action: Action) -> (command: Command)
        ensures
            final(self)@ == after_update(old(self)@, action@),
            command == update_command(old(self)@, action@),
            old(self).wf() ==> final(self).wf(),
    {
        match action {
            Action::DeviceSelected(device_name) => {
                self.set_device(device_name);
                Command::Nothing
            },
            Action::ApplyFilter(filter) => {
                let command = self.stop_capture();
                if filter.as_str().is_empty() {
                    self.status_message =
                    concat3("Filter cleared", "", ". Press 'S' to start capturing.");
                    proof {
                        reveal_strlit("");
                    }
                    assert(self.status_message@ =~= filter_status(filter@));
                    self.current_filter = None;
                } else {
                    self.status_message =
                    concat3("Filter applied: ", filter.as_str(), ". Press 'S' to start capturing.");
                    self.current_filter = Some(filter);
                }
                command
            },
            Action::PacketSelected(index) => {
                if index < self.packets.len() {
                    let mut status = String::from_str("Opening packet details for packet #");
                    push_count(&mut status, self.packets[index].id);
                    self.status_message = status;
                }
                Command::Nothing
            },
            _ => Command::Nothing,
        }
    }

    /// Takes over the area in which the list is drawn. In follow mode a
    /// running capture scrolls to its newest records.
    pub fn set_viewport(&mut self, area: Area)
        ensures
            final(self)@ == with_viewport(old(self)@, area),
            old(self).wf() ==> final(self).wf(),
    {
        self.visible_rows = visible_rows(area.height);
        self.list_area = area;
        if self.following && self.is_capturing() {
            self.scroll_position = self.packets.len().saturating_sub(self.visible_rows);
        }
    }

    /// Lays the page out in `area`: list, status box and help line from top
    /// to bottom, and the list's area becomes the viewport.
    pub fn layout(&mut self, area: Area) -> (rows: Vec<Area>)
        ensures
            is_row_split(area, 3, rows@),
            final(self)@ == with_viewport(old(self)@, rows@[0]),
            old(self).wf() ==> final(self).wf(),
    {
        let rules = vec![RowRule::Min(10), RowRule::Length(3), RowRule::Length(1)];
        let rows = split_rows(area, &rules);
        self.set_viewport(rows[0]);
        rows
    }
}

} // verus!
