use packet_sniffer::action::Action;
use packet_sniffer::data::packet::{build_record, IpAddress, PacketInfo};
use packet_sniffer::pages::detail::{HexRow, PacketDetailsPage, SummaryLine};
use packet_sniffer::tui::{Area, Event, KeyCode, KeyEvent, MouseEvent, MouseEventKind};

fn key(code: KeyCode) -> KeyEvent {
    KeyEvent { code, control: false }
}

fn record_of_len(len: usize) -> PacketInfo {
    let data: Vec<u8> = (0..len).map(|i| (i % 256) as u8).collect();
    build_record(5, String::from("3.141593"), data, None)
}

fn page_with(len: usize, visible: u16) -> PacketDetailsPage {
    let mut page = PacketDetailsPage::new();
    page.set_packet(record_of_len(len));
    page.set_viewport(visible + 3);
    page
}

fn pairs(lines: &[SummaryLine]) -> Vec<(String, String)> {
    lines.iter().map(|line| (line.label.clone(), line.value.clone())).collect()
}

fn pair(label: &str, value: &str) -> (String, String) {
    (label.to_string(), value.to_string())
}

fn byte_counts(rows: &[HexRow]) -> Vec<usize> {
    rows.iter().map(|row| row.ascii.chars().count()).collect()
}

#[test]
fn new_detail_page_shows_nothing() {
    let mut page = PacketDetailsPage::new();
    assert!(page.packet.is_none());
    assert_eq!(page.hex_scroll, 0);
    assert_eq!(page.summary().len(), 0);
    assert_eq!(page.hex_rows().len(), 0);
    assert_eq!(page.max_scroll(), 0);
    assert_eq!(page.handle_key_events(key(KeyCode::Char('q'))), None);
    assert_eq!(page.handle_key_events(key(KeyCode::Down)), None);
    assert_eq!(page.hex_scroll, 0);
}

#[test]
fn forty_bytes_show_as_three_rows_and_end_stays_at_the_top() {
    let mut page = page_with(40, 10);
    let rows = page.hex_rows();
    assert_eq!(rows.len(), 3);
    assert_eq!(byte_counts(&rows), vec![16, 16, 8]);
    assert_eq!(page.handle_key_events(key(KeyCode::End)), None);
    assert_eq!(page.hex_scroll, 0);
    page.handle_key_events(key(KeyCode::Down));
    assert_eq!(page.hex_scroll, 0);
    page.handle_key_events(key(KeyCode::PageDown));
    assert_eq!(page.hex_scroll, 0);
}

#[test]
fn rows_of_the_dump_are_offset_hex_and_ascii() {
    let mut page = PacketDetailsPage::new();
    let mut data: Vec<u8> = b"GET / HTTP/1.1\r\n".to_vec();
    data.extend_from_slice(&[0x00, 0x7f, 0x20, 0x7e, 0xff]);
    page.set_packet(build_record(1, String::from("0.000000"), data, None));
    page.set_viewport(13);
    let rows = page.hex_rows();
    assert_eq!(rows.len(), 2);
    assert_eq!(rows[0].offset, " 00000000");
    assert_eq!(rows[0].hex, "      47455420 2f204854 54502f31 2e310d0a      ");
    assert_eq!(rows[0].ascii, "GET / HTTP/1.1..");
    assert_eq!(rows[1].offset, " 00000010");
    assert_eq!(rows[1].hex, format!("{:<47}", "      007f207e ff"));
    assert_eq!(rows[1].hex.len(), 47);
    assert_eq!(rows[1].ascii, ".. ~.");
}

#[test]
fn dump_scrolls_within_its_bounds() {
    let mut page = page_with(16 * 25 + 1, 10);
    assert_eq!(page.max_scroll(), 16);
    page.handle_key_events(key(KeyCode::Up));
    assert_eq!(page.hex_scroll, 0);
    page.handle_key_events(key(KeyCode::Down));
    assert_eq!(page.hex_scroll, 1);
    page.handle_key_events(key(KeyCode::PageDown));
    assert_eq!(page.hex_scroll, 11);
    page.handle_key_events(key(KeyCode::PageDown));
    assert_eq!(page.hex_scroll, 16);
    page.handle_key_events(key(KeyCode::Down));
    assert_eq!(page.hex_scroll, 16);
    let rows = page.hex_rows();
    assert_eq!(rows.len(), 10);
    assert_eq!(rows[0].offset, " 00000100");
    assert_eq!(byte_counts(&rows)[9], 1);
    page.handle_key_events(key(KeyCode::PageUp));
    assert_eq!(page.hex_scroll, 6);
    page.handle_key_events(key(KeyCode::PageUp));
    assert_eq!(page.hex_scroll, 0);
    page.handle_key_events(key(KeyCode::End));
    assert_eq!(page.hex_scroll, 16);
    page.handle_key_events(key(KeyCode::Up));
    assert_eq!(page.hex_scroll, 15);
    page.handle_key_events(key(KeyCode::Home));
    assert_eq!(page.hex_scroll, 0);
}

#[test]
fn row_count_rounds_up() {
    assert_eq!(page_with(0, 1).max_scroll(), 0);
    assert_eq!(page_with(1, 0).max_scroll(), 1);
    assert_eq!(page_with(16, 0).max_scroll(), 1);
    assert_eq!(page_with(17, 0).max_scroll(), 2);
    assert_eq!(page_with(17, 1).max_scroll(), 1);
    assert_eq!(page_with(160, 10).max_scroll(), 0);
    assert_eq!(page_with(161, 10).max_scroll(), 1);
}

#[test]
fn new_record_resets_the_scroll_position() {
    let mut page = page_with(1000, 10);
    page.handle_key_events(key(KeyCode::End));
    assert_eq!(page.hex_scroll, 53);
    page.set_packet(record_of_len(2000));
    assert_eq!(page.hex_scroll, 0);
    assert_eq!(page.visible_lines, 10);
}

#[test]
fn growing_viewport_pulls_the_scroll_position_back() {
    let mut page = page_with(16 * 30, 10);
    page.handle_key_events(key(KeyCode::End));
    assert_eq!(page.hex_scroll, 20);
    page.set_viewport(28);
    assert_eq!(page.visible_lines, 25);
    assert_eq!(page.hex_scroll, 5);
    page.set_viewport(2);
    assert_eq!(page.visible_lines, 0);
    assert_eq!(page.hex_scroll, 5);
    assert_eq!(page.hex_rows().len(), 0);
}

#[test]
fn q_leads_back_to_the_packet_list() {
    let mut page = page_with(40, 10);
    assert_eq!(page.handle_key_events(key(KeyCode::Char('q'))), Some(Action::NavigateToSniffer));
    assert_eq!(page.handle_key_events(key(KeyCode::Char('x'))), None);
    assert_eq!(page.handle_events(Event::Key(key(KeyCode::Char('q')))), Some(Action::NavigateToSniffer));
    assert_eq!(page.handle_events(Event::Tick), None);
    let click = MouseEvent { kind: MouseEventKind::LeftDown, column: 1, row: 1 };
    assert_eq!(page.handle_events(Event::Mouse(click)), None);
    assert_eq!(page.update(Action::Tick), None);
    assert_eq!(page.hex_scroll, 0);
}

#[test]
fn summary_without_addresses_has_four_lines() {
    let page = page_with(40, 10);
    assert_eq!(
        pairs(&page.summary()),
        vec![
            pair("Packet ID: ", "5"),
            pair("Timestamp: ", "3.141593"),
            pair("Protocol: ", "Unknown"),
            pair("Length: ", "40 bytes"),
        ]
    );
}

#[test]
fn summary_names_address_and_port_where_both_are_known() {
    let mut record = record_of_len(60);
    record.protocol = String::from("TCP");
    record.src_addr = Some(Ok(IpAddress::V4([192, 168, 0, 10])));
    record.src_port = Some(51000);
    let mut v6 = [0u8; 16];
    v6[0] = 0xfe;
    v6[1] = 0x80;
    v6[15] = 0x01;
    record.dst_addr = Some(Ok(IpAddress::V6(v6)));
    record.dst_port = Some(443);
    let mut page = PacketDetailsPage::new();
    page.set_packet(record);
    let lines = pairs(&page.summary());
    assert_eq!(lines.len(), 6);
    assert_eq!(lines[2], pair("Protocol: ", "TCP"));
    assert_eq!(lines[3], pair("Length: ", "60 bytes"));
    assert_eq!(lines[4], pair("Source: ", "192.168.0.10:51000"));
    assert_eq!(lines[5], pair("Destination: ", "fe80::1:443"));
}

#[test]
fn summary_names_the_address_alone_without_a_port() {
    let mut record = record_of_len(60);
    record.src_addr = Some(Ok(IpAddress::V4([10, 1, 2, 3])));
    record.dst_addr = Some(Ok(IpAddress::V4([224, 0, 0, 251])));
    record.dst_port = Some(5353);
    let mut page = PacketDetailsPage::new();
    page.set_packet(record);
    let lines = pairs(&page.summary());
    assert_eq!(lines[4], pair("Source IP: ", "10.1.2.3"));
    assert_eq!(lines[5], pair("Destination: ", "224.0.0.251:5353"));
}

#[test]
fn summary_names_link_layer_addresses() {
    let mut record = record_of_len(42);
    record.protocol = String::from("ARP");
    record.src_addr = Some(Err(String::from("00:11:22:33:44:55")));
    record.src_port = Some(1);
    let mut page = PacketDetailsPage::new();
    page.set_packet(record);
    let lines = pairs(&page.summary());
    assert_eq!(lines.len(), 5);
    assert_eq!(lines[4], pair("Source MAC: ", "00:11:22:33:44:55"));
}

#[test]
fn detail_layout_takes_the_height_of_the_dump() {
    let mut page = page_with(16 * 100, 3);
    page.handle_key_events(key(KeyCode::End));
    assert_eq!(page.hex_scroll, 97);
    let rows = page.layout(Area { x: 0, y: 0, width: 80, height: 30 });
    assert_eq!(rows.len(), 3);
    assert_eq!(rows[0], Area { x: 0, y: 0, width: 80, height: 8 });
    assert_eq!(rows[1], Area { x: 0, y: 8, width: 80, height: 21 });
    assert_eq!(rows[2], Area { x: 0, y: 29, width: 80, height: 1 });
    assert_eq!(page.visible_lines, 18);
    assert_eq!(page.hex_scroll, 82);
    assert_eq!(page.hex_rows().len(), 18);
}

#[test]
fn title_of_the_dump_counts_the_bytes() {
    assert_eq!(PacketDetailsPage::new().hex_title(), " Hex Viewer");
    assert_eq!(page_with(40, 10).hex_title(), " Hex Viewer (40 bytes)");
    assert_eq!(page_with(0, 10).hex_title(), " Hex Viewer (0 bytes)");
}
