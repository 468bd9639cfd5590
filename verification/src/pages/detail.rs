//! The detail page: the summary of one packet record and a paged dump of its
//! bytes in hexadecimal and ASCII.

use crate::action::{reply_view, Action, ActionView};
use crate::data::packet::{ip_text, AddressView, IpAddress, PacketInfo, PacketView};
use crate::text::{decimal_text, hex_text, pad_right, padded, push_count, push_decimal, push_hex};
use crate::tui::{body_rows, is_row_split, split_rows, visible_rows};
use crate::tui::{Area, Event, KeyCode, KeyEvent, RowRule};
use vstd::prelude::*;
use vstd::string::StringExecFns;

verus! {

/// The number of bytes in one row of the dump.
pub const BYTES_PER_ROW: usize = 16;

/// The width to which the hexadecimal column is padded.
pub const HEX_COLUMN_WIDTH: usize = 47;

/// The page's state: the record on show, how many rows of the dump have been
/// scrolled past, and how many rows the dump shows at once.
#[derive(Debug)]
pub struct PacketDetailsPage {
    pub packet: Option<PacketInfo>,
    pub hex_scroll: usize,
    pub visible_lines: usize,
}

/// The mathematical content of the page.
pub struct DetailView {
    pub packet: Option<PacketView>,
    pub hex_scroll: int,
    pub visible_lines: int,
}

/// One line of the summary: what it is and what it says.
#[derive(Debug)]
pub struct SummaryLine {
    pub label: String,
    pub value: String,
}

/// One row of the dump.
#[derive(Debug)]
pub struct HexRow {
    /// A space and the offset of the row's first byte, eight hexadecimal digits.
    pub offset: String,
    /// The bytes in hexadecimal, in groups of four.
    pub hex: String,
    /// The bytes as ASCII, a dot for each that does not print.
    pub ascii: String,
}

/// The mathematical content of a row of the dump.
pub struct HexRowView {
    pub offset: Seq<char>,
    pub hex: Seq<char>,
    pub ascii: Seq<char>,
}

impl View for HexRow {
    type V = HexRowView;

    open spec fn view(&self) -> HexRowView {
        HexRowView { offset: self.offset@, hex: self.hex@, ascii: self.ascii@ }
    }
}

impl View for SummaryLine {
    type V = (Seq<char>, Seq<char>);

    open spec fn view(&self) -> (Seq<char>, Seq<char>) {
        (self.label@, self.value@)
    }
}

/// A page without a record.
pub open spec fn empty_detail() -> DetailView {
    DetailView { packet: None, hex_scroll: 0, visible_lines: 0 }
}

/// The number of rows that a dump of `len` bytes has.
pub open spec fn hex_row_count(len: int) -> int {
    (len + 15) / 16
}

/// The furthest that a dump of `len` bytes scrolls when `visible` rows show:
/// its row count less the visible rows, and zero where all rows fit.
pub open spec fn max_hex_scroll(len: int, visible: int) -> int {
    if hex_row_count(len) > visible {
        hex_row_count(len) - visible
    } else {
        0
    }
}

/// The bytes of row `row` of the dump: sixteen, or what is left in the last row.
pub open spec fn row_bytes(data: Seq<u8>, row: int) -> Seq<u8> {
    data.subrange(
        row * 16,
        if row * 16 + 16 <= data.len() {
            row * 16 + 16
        } else {
            data.len() as int
        },
    )
}

/// The bytes as two-digit hexadecimal numerals, a space before every fourth.
pub open spec fn hex_cells(bytes: Seq<u8>) -> Seq<char>
    decreases bytes.len(),
{
    if bytes.len() == 0 {
        Seq::empty()
    } else {
        let index = bytes.len() - 1;
        hex_cells(bytes.drop_last()) + (if index > 0 && index % 4 == 0 {
            seq![' ']
        } else {
            Seq::empty()
        }) + hex_text(bytes.last() as nat, 2)
    }
}

/// The character that stands for a byte in the ASCII column: itself where it
/// is a space or a graphic ASCII character, else a dot.
pub open spec fn printable(byte: u8) -> char {
    if 0x20 <= byte <= 0x7e {
        byte as char
    } else {
        '.'
    }
}

/// The ASCII column for `bytes`.
pub open spec fn ascii_cells(bytes: Seq<u8>) -> Seq<char> {
    Seq::new(bytes.len(), |i: int| printable(bytes[i]))
}

/// Row `row` of the dump of `data`.
pub open spec fn hex_row(data: Seq<u8>, row: int) -> HexRowView {
    HexRowView {
        offset: seq![' '] + hex_text((row * 16) as nat, 8),
        hex: pad_right("      "@ + hex_cells(row_bytes(data, row)), HEX_COLUMN_WIDTH as nat),
        ascii: ascii_cells(row_bytes(data, row)),
    }
}

/// How many rows of the dump show: the visible rows, or fewer where the dump
/// ends before.
pub open spec fn shown_row_count(len: int, scroll: int, visible: int) -> int {
    let left = hex_row_count(len) - scroll;
    if left <= 0 || visible <= 0 {
        0
    } else if left < visible {
        left
    } else {
        visible
    }
}

/// The rows of the dump that show.
pub open spec fn shown_rows(data: Seq<u8>, scroll: int, visible: int) -> Seq<HexRowView> {
    Seq::new(
        shown_row_count(data.len() as int, scroll, visible) as nat,
        |k: int| hex_row(data, scroll + k),
    )
}

/// The title of the dump: with the number of bytes of the record on show.
pub open spec fn hex_title_of(page: DetailView) -> Seq<char> {
    match page.packet {
        Some(packet) => " Hex Viewer ("@ + decimal_text(packet.data.len()) + " bytes)"@,
        None => " Hex Viewer"@,
    }
}

/// The summary line for one end of the conversation: address and port where
/// both are known, the address alone otherwise, a link-layer address where the
/// frame had no network header, and no line where no address is known.
pub open spec fn endpoint_line(name: Seq<char>, address: AddressView, port: Option<u16>) -> Seq<
    (Seq<char>, Seq<char>),
> {
    match address {
        None => Seq::empty(),
        Some(Ok(ip)) => match port {
            Some(number) => seq![
                (name + ": "@, ip_text(ip) + seq![':'] + decimal_text(number as nat)),
            ],
            None => seq![(name + " IP: "@, ip_text(ip))],
        },
        Some(Err(link)) => seq![(name + " MAC: "@, link)],
    }
}

/// The summary of a record: number, capture offset, protocol and length,
/// then source and destination as far as they are known.
pub open spec fn summary_lines(packet: PacketView) -> Seq<(Seq<char>, Seq<char>)> {
    seq![
        ("Packet ID: "@, decimal_text(packet.id as nat)),
        ("Timestamp: "@, packet.timestamp),
        ("Protocol: "@, packet.protocol),
        ("Length: "@, decimal_text(packet.length as nat) + " bytes"@),
    ] + endpoint_line("Source"@, packet.src_addr, packet.src_port) + endpoint_line(
        "Destination"@,
        packet.dst_addr,
        packet.dst_port,
    )
}

/// The views of summary lines.
pub open spec fn lines_view(lines: Seq<SummaryLine>) -> Seq<(Seq<char>, Seq<char>)> {
    Seq::new(lines.len(), |i: int| lines[i]@)
}

/// The views of rows of the dump.
pub open spec fn rows_view(rows: Seq<HexRow>) -> Seq<HexRowView> {
    Seq::new(rows.len(), |i: int| rows[i]@)
}

/// The page after a key press while a record is on show: the dump scrolls by
/// a line or by a page of visible rows, or jumps to either end, and never
/// past the last page.
pub open spec fn after_detail_key(page: DetailView, key: KeyCode) -> DetailView {
    match page.packet {
        None => page,
        Some(packet) => {
            let scroll = page.hex_scroll;
            let limit = max_hex_scroll(packet.data.len() as int, page.visible_lines);
            match key {
                KeyCode::Up => if scroll > 0 {
                    DetailView { hex_scroll: scroll - 1, ..page }
                } else {
                    page
                },
                KeyCode::Down => if scroll < limit {
                    DetailView { hex_scroll: scroll + 1, ..page }
                } else {
                    page
                },
                KeyCode::PageUp => DetailView {
                    hex_scroll: if scroll > page.visible_lines {
                        scroll - page.visible_lines
                    } else {
                        0
                    },
                    ..page
                },
                KeyCode::PageDown => DetailView {
                    hex_scroll: if scroll + page.visible_lines < limit {
                        scroll + page.visible_lines
                    } else {
                        limit
                    },
                    ..page
                },
                KeyCode::Home => DetailView { hex_scroll: 0, ..page },
                KeyCode::End => DetailView { hex_scroll: limit, ..page },
                _ => page,
            }
        },
    }
}

/// What a key press asks of the router: `q` leads back to the packet list
/// while a record is on show.
pub open spec fn detail_reply(page: DetailView, key: KeyCode) -> Option<ActionView> {
    if page.packet is Some && key == KeyCode::Char('q') {
        Some(ActionView::NavigateToSniffer)
    } else {
        None
    }
}

/// The page once its dump shows `visible` rows: a scroll position past the
/// last page comes back to it.
pub open spec fn with_visible_lines(page: DetailView, visible: int) -> DetailView {
    let limit = match page.packet {
        Some(packet) => max_hex_scroll(packet.data.len() as int, visible),
        None => 0,
    };
    DetailView {
        visible_lines: visible,
        hex_scroll: if page.hex_scroll > limit {
            limit
        } else {
            page.hex_scroll
        },
        ..page
    }
}

/// Whether the dump is scrolled no further than its last page; without a
/// record, whether it is not scrolled at all.
pub open spec fn scroll_in_bounds(page: DetailView) -> bool {
    match page.packet {
        Some(packet) => 0 <= page.hex_scroll <= max_hex_scroll(
            packet.data.len() as int,
            page.visible_lines,
        ),
        None => page.hex_scroll == 0,
    }
}

/// No key scrolls the dump past its last page, and no new viewport leaves it
/// there.
pub proof fn lemma_hex_scroll_stays_in_bounds(page: PacketDetailsPage, key: KeyCode, height: u16)
    requires
        page.wf(),
    ensures
        scroll_in_bounds(after_detail_key(page@, key)),
        scroll_in_bounds(with_visible_lines(page@, body_rows(height))),
{
}

/// A dump whose rows all fit the viewport does not scroll: End leaves it at
/// the top.
pub proof fn lemma_dump_that_fits_stays_at_the_top(page: PacketDetailsPage)
    requires
        page.wf(),
        page.packet matches Some(packet) && hex_row_count(packet.data@.len() as int)
            <= page.visible_lines,
    ensures
        after_detail_key(page@, KeyCode::End).hex_scroll == 0,
        after_detail_key(page@, KeyCode::PageDown).hex_scroll == 0,
        after_detail_key(page@, KeyCode::Down).hex_scroll == 0,
{
}

/// The ASCII column character for a byte.
fn printable_char(byte: u8) -> (c: char)
    ensures
        c == printable(byte),
{
    if 0x20 <= byte && byte <= 0x7e {
        byte as char
    } else {
        '.'
    }
}

/// Writes one row of the dump.
fn write_hex_row(data: &Vec<u8>, row: usize) -> (line: HexRow)
    requires
        row * 16 < data@.len(),
    ensures
        line@ == hex_row(data@, row as int),
{
    let len = data.len();
    let start: usize = row * BYTES_PER_ROW;
    let end: usize = if len - start >= BYTES_PER_ROW {
        start + BYTES_PER_ROW
    } else {
        len
    };
    let ghost bytes = row_bytes(data@, row as int);
    let mut offset = String::new();
    offset.push(' ');
    push_hex(&mut offset, start as u128, 8);
    let mut cells = String::from_str("      ");
    let mut ascii = String::new();
    let mut i: usize = start;
    while i < end
        invariant
            start <= i <= end <= data@.len(),
            end - start <= 16,
            bytes == data@.subrange(start as int, end as int),
            cells@ == "      "@ + hex_cells(bytes.subrange(0, i - start)),
            ascii@ == ascii_cells(bytes.subrange(0, i - start)),
        decreases end - i,
    {
        let byte = data[i];
        let index: usize = i - start;
        if index > 0 && index % 4 == 0 {
            cells.push(' ');
        }
        push_hex(&mut cells, byte as u128, 2);
        ascii.push(printable_char(byte));
        i += 1;
        proof {
            let before = bytes.subrange(0, index as int);
            let now = bytes.subrange(0, index + 1);
            assert(now.drop_last() =~= before);
            assert(now.last() == byte);
            assert(ascii@ =~= ascii_cells(now));
        }
    }
    assert(bytes.subrange(0, end - start) =~= bytes);
    HexRow { offset, hex: padded(cells.as_str(), HEX_COLUMN_WIDTH), ascii }
}

/// Writes the summary line for one end of the conversation, if there is one.
fn push_endpoint_line(
    lines: &mut Vec<SummaryLine>,
    name: &str,
    address: &Option<Result<IpAddress, String>>,
    port: Option<u16>,
)
    ensures
        lines_view(final(lines)@) == lines_view(old(lines)@) + endpoint_line(
            name@,
            crate::data::packet::address_view(*address),
            port,
        ),
{
    let ghost before = lines_view(lines@);
    match address {
        None => {},
        Some(Ok(ip)) => {
            let mut label = String::from_str(name);
            let mut value = ip.to_text();
            match port {
                Some(number) => {
                    label.append(": ");
                    value.push(':');
                    push_decimal(&mut value, number as u64);
                    assert(value@ =~= ip_text(*ip) + seq![':'] + decimal_text(number as nat));
                },
                None => {
                    label.append(" IP: ");
                },
            }
            lines.push(SummaryLine { label, value });
        },
        Some(Err(link)) => {
            let mut label = String::from_str(name);
            label.append(" MAC: ");
            lines.push(SummaryLine { label, value: link.clone() });
        },
    }
    assert(lines_view(lines@) =~= before + endpoint_line(
        name@,
        crate::data::packet::address_view(*address),
        port,
    ));
}

impl View for PacketDetailsPage {
    type V = DetailView;

    open spec fn view(&self) -> DetailView {
        DetailView {
            packet: match self.packet {
                Some(packet) => Some(packet@),
                None => None,
            },
            hex_scroll: self.hex_scroll as int,
            visible_lines: self.visible_lines as int,
        }
    }
}

impl Default for PacketDetailsPage {
    /// A page without a record.
    fn default() -> (page: Self)
        ensures
            page@ == empty_detail(),
            page.wf(),
    {
        PacketDetailsPage { packet: None, hex_scroll: 0, visible_lines: 0 }
    }
}

impl PacketDetailsPage {
    /// Whether the dump is scrolled no further than its last page; without a
    /// record, whether it is not scrolled at all.
    pub open spec fn wf(&self) -> bool {
        scroll_in_bounds(self@)
    }

    /// A page without a record.
    pub fn new() -> (page: Self)
        ensures
            page@ == empty_detail(),
            page.wf(),
    {
        PacketDetailsPage::default()
    }

    /// Puts a record on show, its dump scrolled to the top.
    pub fn set_packet(&mut self, packet: PacketInfo)
        ensures
            final(self)@ == (DetailView { packet: Some(packet@), hex_scroll: 0, ..old(self)@ }),
            final(self).wf(),
    {
        self.packet = Some(packet);
        self.hex_scroll = 0;
    }

    /// The furthest that the dump scrolls.
    pub fn max_scroll(&self) -> (limit: usize)
        ensures
            limit == match self.packet {
                Some(packet) => max_hex_scroll(packet.data@.len() as int, self.visible_lines as int),
                None => 0,
            },
    {
        match &self.packet {
            Some(packet) => {
                let len = packet.data.len();
                let rows: usize = len / BYTES_PER_ROW + if len % BYTES_PER_ROW != 0 {
                    1
                } else {
                    0
                };
                if rows > self.visible_lines {
                    rows - self.visible_lines
                } else {
                    0
                }
            },
            None => 0,
        }
    }

    /// Takes over the height at which the dump is drawn, and brings a scroll
    /// position past the last page back to it.
    pub fn set_viewport(&mut self, height: u16)
        ensures
            final(self)@ == with_visible_lines(old(self)@, body_rows(height)),
            old(self).wf() ==> final(self).wf(),
    {
        self.visible_lines = visible_rows(height);
        let limit = self.max_scroll();
        if self.hex_scroll > limit {
            self.hex_scroll = limit;
        }
    }

    /// Lays the page out in `area`: summary, dump and help line from top to
    /// bottom, and the dump's height becomes the viewport.
    pub fn layout(&mut self, area: Area) -> (rows: Vec<Area>)
        ensures
            is_row_split(area, 3, rows@),
            final(self)@ == with_visible_lines(old(self)@, body_rows(rows@[1].height)),
            old(self).wf() ==> final(self).wf(),
    {
        let rules = vec![RowRule::Length(8), RowRule::Min(10), RowRule::Length(1)];
        let rows = split_rows(area, &rules);
        self.set_viewport(rows[1].height);
        rows
    }

    /// The summary of the record on show; no line without a record.
    pub fn summary(&self) -> (lines: Vec<SummaryLine>)
        ensures
            lines_view(lines@) == match self.packet {
                Some(packet) => summary_lines(packet@),
                None => Seq::empty(),
            },
    {
        let mut lines: Vec<SummaryLine> = Vec::new();
        match &self.packet {
            None => {
                assert(lines_view(lines@) =~= Seq::empty());
            },
            Some(packet) => {
                let mut id = String::new();
                push_count(&mut id, packet.id);
                assert(id@ =~= decimal_text(packet.id as nat));
                lines.push(SummaryLine { label: String::from_str("Packet ID: "), value: id });
                lines.push(
                    SummaryLine {
                        label: String::from_str("Timestamp: "),
                        value: packet.timestamp.clone(),
                    },
                );
                lines.push(
                    SummaryLine {
                        label: String::from_str("Protocol: "),
                        value: packet.protocol.clone(),
                    },
                );
                let mut length = String::new();
                push_count(&mut length, packet.length);
                length.append(" bytes");
                assert(length@ =~= decimal_text(packet.length as nat) + " bytes"@);
                lines.push(SummaryLine { label: String::from_str("Length: "), value: length });
                assert(lines_view(lines@) =~= seq![
                    ("Packet ID: "@, decimal_text(packet.id as nat)),
                    ("Timestamp: "@, packet.timestamp@),
                    ("Protocol: "@, packet.protocol@),
                    ("Length: "@, decimal_text(packet.length as nat) + " bytes"@),
                ]);
                push_endpoint_line(&mut lines, "Source", &packet.src_addr, packet.src_port);
                push_endpoint_line(&mut lines, "Destination", &packet.dst_addr, packet.dst_port);
            },
        }
        lines
    }

    /// The title of the dump.
    pub fn hex_title(&self) -> (title: String)
        ensures
            title@ == hex_title_of(self@),
    {
        match &self.packet {
            Some(packet) => {
                let mut title = String::from_str(" Hex Viewer (");
                push_count(&mut title, packet.data.len());
                title.append(" bytes)");
                title
            },
            None => String::from_str(" Hex Viewer"),
        }
    }

    /// The rows of the dump that show.
    pub fn hex_rows(&self) -> (rows: Vec<HexRow>)
        ensures
            rows_view(rows@) == match self.packet {
                Some(packet) => shown_rows(
                    packet.data@,
                    self.hex_scroll as int,
                    self.visible_lines as int,
                ),
                None => Seq::empty(),
            },
    {
        let mut rows: Vec<HexRow> = Vec::new();
        match &self.packet {
            None => {
                assert(rows_view(rows@) =~= Seq::empty());
            },
            Some(packet) => {
                let len = packet.data.len();
                let total: usize = len / BYTES_PER_ROW + if len % BYTES_PER_ROW != 0 {
                    1
                } else {
                    0
                };
                let ghost shown = shown_row_count(
                    len as int,
                    self.hex_scroll as int,
                    self.visible_lines as int,
                );
                let mut row: usize = self.hex_scroll;
                while row < total && rows.len() < self.visible_lines
                    invariant
                        total == hex_row_count(len as int),
                        len == packet.data@.len(),
                        self.hex_scroll <= row,
                        row <= total || rows@.len() == 0,
                        rows@.len() == row - self.hex_scroll,
                        rows@.len() <= shown,
                        shown == shown_row_count(
                            len as int,
                            self.hex_scroll as int,
                            self.visible_lines as int,
                        ),
                        forall|k: int|
                            0 <= k < rows@.len() ==> (#[trigger] rows@[k])@ == hex_row(
                                packet.data@,
                                self.hex_scroll + k,
                            ),
                    decreases total - row,
                {
                    let line = write_hex_row(&packet.data, row);
                    rows.push(line);
                    row += 1;
                }
                assert(rows_view(rows@) =~= shown_rows(
                    packet.data@,
                    self.hex_scroll as int,
                    self.visible_lines as int,
                ));
            },
        }
        rows
    }

    /// Reacts to a key press: scrolls the dump, or asks to go back to the
    /// packet list. Without a record no key does anything.
    pub fn handle_key_events(&mut self, key: KeyEvent) -> (reply: Option<Action>)
        ensures
            final(self)@ == after_detail_key(old(self)@, key.code),
            reply_view(reply) == detail_reply(old(self)@, key.code),
            old(self).wf() ==> final(self).wf(),
    {
        if self.packet.is_none() {
            return None;
        }
        let limit = self.max_scroll();
        match key.code {
            KeyCode::Char(c) => {
                if c == 'q' {
                    return Some(Action::NavigateToSniffer);
                }
            },
            KeyCode::Up => {
                if self.hex_scroll > 0 {
                    self.hex_scroll -= 1;
                }
            },
            KeyCode::Down => {
                if self.hex_scroll < limit {
                    self.hex_scroll += 1;
                }
            },
            KeyCode::PageUp => {
                self.hex_scroll = self.hex_scroll.saturating_sub(self.visible_lines);
            },
            KeyCode::PageDown => {
                self.hex_scroll =
                if self.hex_scroll < limit && self.visible_lines < limit - self.hex_scroll {
                    self.hex_scroll + self.visible_lines
                } else {
                    limit
                };
            },
            KeyCode::Home => {
                self.hex_scroll = 0;
            },
            KeyCode::End => {
                self.hex_scroll = limit;
            },
            _ => {},
        }
        None
    }

    /// Hands key presses to [`Self::handle_key_events`] and lets every other
    /// event pass.
    pub fn handle_events(&mut self, event: Event) -> (reply: Option<Action>)
        ensures
            event matches Event::Key(key) ==> final(self)@ == after_detail_key(old(self)@, key.code)
                && reply_view(reply) == detail_reply(old(self)@, key.code),
            !(event is Key) ==> final(self)@ == old(self)@ && reply is None,
            old(self).wf() ==> final(self).wf(),
    {
        match event {
            Event::Key(key) => self.handle_key_events(key),
            _ => None,
        }
    }

    /// Any message leaves the page as it is.
    pub fn update(&mut self, action: Action) -> (reply: Option<Action>)
        ensures
            final(self)@ == old(self)@,
            reply is None,
    {
        None
    }
}

} // verus!
