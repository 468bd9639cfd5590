use packet_sniffer::action::Action;
use packet_sniffer::pages::home::{list_row_at, HomePage};
use packet_sniffer::tui::{Area, Event, KeyCode, KeyEvent, MouseEvent, MouseEventKind};

fn key(code: KeyCode) -> KeyEvent {
    KeyEvent { code, control: false }
}

#[test]
fn new_home_page_highlights_the_first_entry() {
    let page = HomePage::new();
    assert_eq!(page.highlighted, Some(0));
    assert_eq!(page.mouse_event, None);
}

#[test]
fn menu_has_two_entries() {
    let rows = HomePage::menu_rows();
    assert_eq!(rows.len(), 2);
    assert_eq!(rows[0].number, "1");
    assert_eq!(rows[0].module, "Device Selection");
    assert_eq!(rows[0].description, "Select network interface for packet capture");
    assert_eq!(rows[1].number, "2");
    assert_eq!(rows[1].module, "Packet Sniffer");
    assert_eq!(rows[1].description, "Capture and analyze network packets");
}

#[test]
fn menu_highlight_goes_round() {
    let mut page = HomePage::new();
    assert_eq!(page.handle_key_events(key(KeyCode::Down)), None);
    assert_eq!(page.highlighted, Some(1));
    page.handle_key_events(key(KeyCode::Down));
    assert_eq!(page.highlighted, Some(0));
    page.handle_key_events(key(KeyCode::Up));
    assert_eq!(page.highlighted, Some(1));
    page.handle_key_events(key(KeyCode::Up));
    assert_eq!(page.highlighted, Some(0));
    page.highlighted = None;
    page.handle_key_events(key(KeyCode::Up));
    assert_eq!(page.highlighted, Some(0));
    page.highlighted = None;
    page.handle_key_events(key(KeyCode::Down));
    assert_eq!(page.highlighted, Some(0));
}

#[test]
fn enter_follows_the_highlighted_entry() {
    let mut page = HomePage::new();
    assert_eq!(page.handle_key_events(key(KeyCode::Enter)), Some(Action::NavigateToDevice));
    page.handle_key_events(key(KeyCode::Down));
    assert_eq!(page.handle_key_events(key(KeyCode::Enter)), Some(Action::NavigateToSniffer));
    page.highlighted = None;
    assert_eq!(page.handle_key_events(key(KeyCode::Enter)), None);
}

#[test]
fn letters_lead_to_the_pages_directly() {
    let mut page = HomePage::new();
    assert_eq!(page.handle_key_events(key(KeyCode::Char('d'))), Some(Action::NavigateToDevice));
    assert_eq!(page.handle_key_events(key(KeyCode::Char('s'))), Some(Action::NavigateToSniffer));
    assert_eq!(page.handle_key_events(key(KeyCode::Char('q'))), Some(Action::Quit));
    assert_eq!(page.handle_key_events(key(KeyCode::Char('x'))), None);
    assert_eq!(page.handle_key_events(key(KeyCode::Tab)), None);
    assert_eq!(page.highlighted, Some(0));
    assert_eq!(page.update(Action::Tick), None);
}

#[test]
fn menu_click_waits_for_the_layout() {
    let mut page = HomePage::new();
    let click = MouseEvent { kind: MouseEventKind::LeftDown, column: 10, row: 3 };
    assert_eq!(page.handle_events(Event::Mouse(click)), None);
    assert_eq!(page.mouse_event, Some((10, 3)));
    assert_eq!(page.handle_events(Event::Tick), None);
    let (rows, reply) = page.layout(Area { x: 0, y: 0, width: 80, height: 24 });
    assert_eq!(rows.len(), 3);
    assert_eq!(rows[0], Area { x: 0, y: 0, width: 80, height: 20 });
    assert_eq!(rows[1], Area { x: 0, y: 20, width: 80, height: 3 });
    assert_eq!(rows[2], Area { x: 0, y: 23, width: 80, height: 1 });
    assert_eq!(reply, None);
    assert_eq!(page.highlighted, Some(1));
    assert_eq!(page.mouse_event, None);
    page.handle_events(Event::Mouse(click));
    let (_, again) = page.layout(Area { x: 0, y: 0, width: 80, height: 24 });
    assert_eq!(again, Some(Action::NavigateToSniffer));
}

#[test]
fn click_on_the_highlighted_entry_follows_it() {
    let mut page = HomePage::new();
    let area = Area { x: 0, y: 0, width: 80, height: 20 };
    assert_eq!(page.handle_mouse_click(0, 2, area), Some(Action::NavigateToDevice));
    assert_eq!(page.handle_mouse_click(79, 3, area), None);
    assert_eq!(page.highlighted, Some(1));
    assert_eq!(page.handle_mouse_click(5, 4, area), None);
    assert_eq!(page.handle_mouse_click(80, 2, area), None);
    assert_eq!(page.handle_mouse_click(5, 1, area), None);
    assert_eq!(page.highlighted, Some(1));
}

#[test]
fn list_rows_lie_between_header_and_border() {
    let area = Area { x: 3, y: 4, width: 10, height: 6 };
    assert_eq!(list_row_at(area, 3, 6, 10), Some(0));
    assert_eq!(list_row_at(area, 12, 8, 10), Some(2));
    assert_eq!(list_row_at(area, 12, 8, 2), None);
    assert_eq!(list_row_at(area, 13, 6, 10), None);
    assert_eq!(list_row_at(area, 2, 6, 10), None);
    assert_eq!(list_row_at(area, 3, 5, 10), None);
    assert_eq!(list_row_at(area, 3, 9, 10), None);
    let edge = Area { x: 65535, y: 65535, width: 65535, height: 65535 };
    assert_eq!(list_row_at(edge, 65535, 65535, 10), None);
}
