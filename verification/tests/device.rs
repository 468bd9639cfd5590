use packet_sniffer::action::{Action, Response};
use packet_sniffer::capture::Command;
use packet_sniffer::pages::device::{DeviceEntry, DevicePage, DeviceStatusLevel};
use packet_sniffer::tui::{Area, Event, KeyCode, KeyEvent, MouseEvent, MouseEventKind};

fn key(code: KeyCode) -> KeyEvent {
    KeyEvent { code, control: false }
}

fn parts(response: Response) -> (Option<Action>, Command) {
    (response.action, response.command)
}

fn entry(name: &str, description: Option<&str>) -> DeviceEntry {
    DeviceEntry { name: name.to_string(), description: description.map(|text| text.to_string()) }
}

fn three_devices() -> DevicePage {
    let mut page = DevicePage::new();
    page.load_devices(Ok(vec![
        entry("lo", Some("Loopback")),
        entry("eth0", None),
        entry("wlan0", Some("Wireless")),
    ]));
    page
}

#[test]
fn new_device_page_knows_no_device() {
    let page = DevicePage::new();
    assert_eq!(page.devices.len(), 0);
    assert_eq!(page.highlighted, None);
    assert_eq!(page.selected_device, None);
    assert_eq!(page.status_message, "");
    assert!(!page.loading);
    assert_eq!(page.status_level(), DeviceStatusLevel::Empty);
    assert_eq!(page.device_rows().len(), 0);
}

#[test]
fn listing_is_requested_and_taken_in() {
    let mut page = DevicePage::new();
    assert_eq!(page.request_devices(), Command::LoadDevices);
    assert!(page.loading);
    assert_eq!(page.status_message, "Probing network devices...");
    assert_eq!(page.status_level(), DeviceStatusLevel::Busy);
    page.load_devices(Ok(vec![entry("lo", None), entry("eth0", None)]));
    assert!(!page.loading);
    assert_eq!(page.devices.len(), 2);
    assert_eq!(page.highlighted, Some(0));
    assert_eq!(page.status_message, "Found 2 device(s). Use ↑/↓ to navigate, Enter to select.");
    assert_eq!(page.status_level(), DeviceStatusLevel::Listed);
}

#[test]
fn empty_listing_keeps_what_is_known() {
    let mut page = three_devices();
    page.handle_key_events(key(KeyCode::Down));
    page.load_devices(Ok(Vec::new()));
    assert_eq!(page.devices.len(), 3);
    assert_eq!(page.highlighted, Some(1));
    assert_eq!(page.status_message, "No network devices found.");
    let mut empty = DevicePage::new();
    empty.load_devices(Ok(Vec::new()));
    assert_eq!(empty.devices.len(), 0);
    assert_eq!(empty.highlighted, None);
}

#[test]
fn listing_failure_is_shown() {
    let mut page = three_devices();
    page.request_devices();
    page.load_devices(Err(String::from("permission denied")));
    assert!(!page.loading);
    assert_eq!(page.devices.len(), 3);
    assert_eq!(page.status_message, "Failed to list devices: permission denied");
}

#[test]
fn highlight_goes_round_the_list() {
    let mut page = three_devices();
    assert_eq!(page.highlighted, Some(0));
    page.handle_key_events(key(KeyCode::Down));
    assert_eq!(page.highlighted, Some(1));
    page.handle_key_events(key(KeyCode::Down));
    page.handle_key_events(key(KeyCode::Down));
    assert_eq!(page.highlighted, Some(0));
    page.handle_key_events(key(KeyCode::Up));
    assert_eq!(page.highlighted, Some(2));
    page.handle_key_events(key(KeyCode::Up));
    assert_eq!(page.highlighted, Some(1));
    page.clear_selection();
    page.handle_key_events(key(KeyCode::Up));
    assert_eq!(page.highlighted, Some(2));
    page.clear_selection();
    page.handle_key_events(key(KeyCode::Down));
    assert_eq!(page.highlighted, Some(0));
}

#[test]
fn arrow_keys_without_devices_do_nothing() {
    let mut page = DevicePage::new();
    assert_eq!(parts(page.handle_key_events(key(KeyCode::Down))), (None, Command::Nothing));
    assert_eq!(parts(page.handle_key_events(key(KeyCode::Up))), (None, Command::Nothing));
    assert_eq!(page.highlighted, None);
    assert_eq!(parts(page.handle_key_events(key(KeyCode::Enter))), (None, Command::Nothing));
}

#[test]
fn enter_chooses_the_highlighted_device() {
    let mut page = three_devices();
    page.handle_key_events(key(KeyCode::Up));
    let (reply, command) = parts(page.handle_key_events(key(KeyCode::Enter)));
    assert_eq!(reply, Some(Action::DeviceSelected(String::from("wlan0"))));
    assert_eq!(command, Command::Nothing);
    assert_eq!(page.selected_device, Some(String::from("wlan0")));
    assert_eq!(page.status_message, "Selected device: wlan0");
    assert!(page.help_text().ends_with("C: Clear Selection"));
}

#[test]
fn c_drops_highlight_and_choice() {
    let mut page = three_devices();
    page.handle_key_events(key(KeyCode::Enter));
    assert_eq!(parts(page.handle_key_events(key(KeyCode::Char('c')))), (None, Command::Nothing));
    assert_eq!(page.highlighted, None);
    assert_eq!(page.selected_device, None);
    assert_eq!(page.status_message, "Found 3 device(s)");
    assert!(page.help_text().ends_with("F5: Refresh"));
    assert_eq!(page.select_current_device(), None);
}

#[test]
fn b_and_q_lead_home_and_f5_refreshes() {
    let mut page = three_devices();
    assert_eq!(parts(page.handle_key_events(key(KeyCode::Char('b')))), (Some(Action::NavigateToHome), Command::Nothing));
    assert_eq!(parts(page.handle_key_events(key(KeyCode::Char('q')))), (Some(Action::NavigateToHome), Command::Nothing));
    assert_eq!(parts(page.handle_key_events(key(KeyCode::F(5)))), (None, Command::LoadDevices));
    assert!(page.loading);
    assert_eq!(parts(page.handle_key_events(key(KeyCode::F(6)))), (None, Command::Nothing));
    assert_eq!(parts(page.handle_key_events(key(KeyCode::Char('x')))), (None, Command::Nothing));
    assert_eq!(page.update(Action::Tick), None);
}

#[test]
fn click_waits_for_the_layout() {
    let mut page = three_devices();
    let click = MouseEvent { kind: MouseEventKind::LeftDown, column: 4, row: 3 };
    assert_eq!(parts(page.handle_events(Event::Mouse(click))), (None, Command::Nothing));
    assert_eq!(page.mouse_event, Some((4, 3)));
    assert_eq!(page.highlighted, Some(0));
    let scroll = MouseEvent { kind: MouseEventKind::ScrollDown, column: 9, row: 9 };
    page.handle_events(Event::Mouse(scroll));
    assert_eq!(page.mouse_event, Some((4, 3)));
    let (rows, reply) = page.layout(Area { x: 0, y: 0, width: 80, height: 24 });
    assert_eq!(rows[0], Area { x: 0, y: 0, width: 80, height: 20 });
    assert_eq!(reply, None);
    assert_eq!(page.highlighted, Some(1));
    assert_eq!(page.mouse_event, None);
    page.handle_events(Event::Mouse(click));
    let (_, again) = page.layout(Area { x: 0, y: 0, width: 80, height: 24 });
    assert_eq!(again, Some(Action::DeviceSelected(String::from("eth0"))));
    assert_eq!(page.selected_device, Some(String::from("eth0")));
    let (_, nothing) = page.layout(Area { x: 0, y: 0, width: 80, height: 24 });
    assert_eq!(nothing, None);
}

#[test]
fn clicks_outside_the_devices_change_nothing() {
    let mut page = three_devices();
    let area = Area { x: 2, y: 1, width: 40, height: 10 };
    for (x, y) in [(1, 4), (42, 4), (5, 1), (5, 2), (5, 6), (5, 10), (5, 11)] {
        assert_eq!(page.handle_mouse_click(x, y, area), None);
        assert_eq!(page.highlighted, Some(0));
    }
    assert_eq!(page.handle_mouse_click(2, 5, area), None);
    assert_eq!(page.highlighted, Some(2));
    assert_eq!(page.handle_mouse_click(41, 3, area), None);
    assert_eq!(page.highlighted, Some(0));
}

#[test]
fn device_rows_show_number_description_and_name() {
    let mut page = DevicePage::new();
    let long = "d".repeat(90);
    page.load_devices(Ok(vec![entry("lo", Some("Loopback")), entry("eth0", None), entry("tun0", Some(&long))]));
    let rows = page.device_rows();
    assert_eq!(rows.len(), 3);
    assert_eq!(rows[0].number, "1   ");
    assert_eq!(rows[0].description, format!("{:<80}", "Loopback"));
    assert_eq!(rows[0].name, "lo");
    assert_eq!(rows[1].number, "2   ");
    assert_eq!(rows[1].description, format!("{:<80}", "No description"));
    assert_eq!(rows[1].name, "eth0");
    assert_eq!(rows[2].description, format!("{:<80}", "d".repeat(76)));
}
