//! What the session page shows: the rows of the packet list, its title, the
//! help line and the mood of the status line, all as text and plain values.

use crate::capture::Phase;
use crate::data::packet::{address_view, ip_text, AddressView, IpAddress};
use crate::pages::sniffer::{SnifferPage, SnifferView};
use crate::text::{before_dot, decimal_text, pad_right, prefix};
use crate::text::{leading, leading_until_dot, padded, push_count, push_decimal};
use vstd::prelude::*;
use vstd::string::StringExecFns;

verus! {

/// One row of the packet list, each cell padded to the width of its column.
#[derive(Debug)]
pub struct PacketRow {
    /// The index of the record in the session's list.
    pub index: usize,
    /// Whether the record is the selected one.
    pub selected: bool,
    pub number: String,
    pub time: String,
    pub protocol: String,
    pub length: String,
    pub source: String,
    pub destination: String,
}

/// The mathematical content of a row.
pub struct PacketRowView {
    pub index: int,
    pub selected: bool,
    pub number: Seq<char>,
    pub time: Seq<char>,
    pub protocol: Seq<char>,
    pub length: Seq<char>,
    pub source: Seq<char>,
    pub destination: Seq<char>,
}

impl View for PacketRow {
    type V = PacketRowView;

    open spec fn view(&self) -> PacketRowView {
        PacketRowView {
            index: self.index as int,
            selected: self.selected,
            number: self.number@,
            time: self.time@,
            protocol: self.protocol@,
            length: self.length@,
            source: self.source@,
            destination: self.destination@,
        }
    }
}

/// How sure the status line sounds.
#[derive(Debug, Clone, Copy, PartialEq, Eq, Structural)]
pub enum StatusLevel {
    /// A capture runs.
    Active,
    /// A device is chosen and nothing runs.
    Ready,
    /// No device is chosen.
    Missing,
}

/// One end of a conversation as the list writes it: address and port, an IPv6
/// address in brackets before its port; the address alone where no port is
/// known; a link-layer address as it stands; `N/A` where nothing is known.
pub open spec fn endpoint_text(address: AddressView, port: Option<u16>) -> Seq<char> {
    match address {
        Some(Ok(ip)) => match port {
            Some(number) => if ip is V6 {
                seq!['['] + ip_text(ip) + seq![']', ':'] + decimal_text(number as nat)
            } else {
                ip_text(ip) + seq![':'] + decimal_text(number as nat)
            },
            None => ip_text(ip),
        },
        Some(Err(link)) => link,
        None => "N/A"@,
    }
}

/// The row for record `index` of the page.
pub open spec fn packet_row(page: SnifferView, index: int) -> PacketRowView {
    let packet = page.packets[index];
    PacketRowView {
        index,
        selected: page.selected == Some(index),
        number: pad_right(decimal_text(packet.id as nat), 6),
        time: pad_right(before_dot(packet.timestamp), 15),
        protocol: pad_right(prefix(packet.protocol, 8), 10),
        length: pad_right(decimal_text(packet.length as nat), 10),
        source: pad_right(endpoint_text(packet.src_addr, packet.src_port), 47),
        destination: pad_right(endpoint_text(packet.dst_addr, packet.dst_port), 47),
    }
}

/// How many records the list shows: a window full, or what is left from the
/// scroll position on.
pub open spec fn shown_count(len: int, scroll: int, rows: int) -> int {
    if scroll >= len || rows <= 0 {
        0
    } else if len - scroll < rows {
        len - scroll
    } else {
        rows
    }
}

/// The rows that the list shows.
pub open spec fn list_rows(page: SnifferView) -> Seq<PacketRowView> {
    Seq::new(
        shown_count(page.packets.len() as int, page.scroll, page.visible_rows) as nat,
        |k: int| packet_row(page, page.scroll + k),
    )
}

/// The contents of rows.
pub open spec fn packet_rows_view(rows: Seq<PacketRow>) -> Seq<PacketRowView> {
    Seq::new(rows.len(), |i: int| rows[i]@)
}

/// The mood of the status line.
pub open spec fn status_level_of(page: SnifferView) -> StatusLevel {
    if page.phase == Phase::Capturing {
        StatusLevel::Active
    } else if page.device_name is Some {
        StatusLevel::Ready
    } else {
        StatusLevel::Missing
    }
}

/// The help line: the keys that do something in the page's current state.
pub open spec fn help_text_of(page: SnifferView) -> Seq<char> {
    if page.phase == Phase::Capturing && !page.following {
        "S: Stop Capture  C: Clear Packets  ↑/↓: Scroll  F: Follow    Home/End: Jump  A: Filter  D: Device Selection  Enter: Open Packet  Q/Esc: Home"@
    } else if page.phase == Phase::Capturing {
        "S: Stop Capture  C: Clear Packets  ↑/↓: Scroll  F: Unfollow  Home/End: Jump  A: Filter  D: Device Selection  Enter: Open Packet  Q/Esc: Home"@
    } else if page.device_name is Some {
        "S: Start Capture  C: Clear Packets  A: Filter  D: Device Selection  Enter: Open Packet  Q/Esc: Home"@
    } else {
        "A: Filter  D: Device Selection  Enter: Open Packet  Q/Esc: Home"@
    }
}

/// Writes one end of a conversation.
fn write_endpoint(address: &Option<Result<IpAddress, String>>, port: Option<u16>) -> (text: String)
    ensures
        text@ == endpoint_text(address_view(*address), port),
{
    match address {
        Some(Ok(ip)) => {
            match port {
                Some(number) => {
                    let mut text = String::new();
                    if ip.is_ipv6() {
                        text.push('[');
                        text.append(ip.to_text().as_str());
                        text.push(']');
                        text.push(':');
                    } else {
                        text.append(ip.to_text().as_str());
                        text.push(':');
                    }
                    push_decimal(&mut text, number as u64);
                    assert(text@ =~= endpoint_text(address_view(*address), port));
                    text
                },
                None => ip.to_text(),
            }
        },
        Some(Err(link)) => link.clone(),
        None => String::from_str("N/A"),
    }
}

/// Writes a count, padded to `width`.
fn count_cell(n: usize, width: usize) -> (cell: String)
    ensures
        cell@ == pad_right(decimal_text(n as nat), width as nat),
{
    let mut text = String::new();
    push_count(&mut text, n);
    assert(text@ =~= decimal_text(n as nat));
    padded(text.as_str(), width)
}

impl SnifferPage {
    /// Writes the row for record `index`.
    fn write_row(&self, index: usize) -> (row: PacketRow)
        requires
            index < self.packets@.len(),
        ensures
            row@ == packet_row(self@, index as int),
    {
        let packet = &self.packets[index];
        let selected = match self.selected_packet {
            Some(current) => current == index,
            None => false,
        };
        PacketRow {
            index,
            selected,
            number: count_cell(packet.id, 6),
            time: padded(leading_until_dot(packet.timestamp.as_str()), 15),
            protocol: padded(leading(packet.protocol.as_str(), 8), 10),
            length: count_cell(packet.length, 10),
            source: padded(write_endpoint(&packet.src_addr, packet.src_port).as_str(), 47),
            destination: padded(write_endpoint(&packet.dst_addr, packet.dst_port).as_str(), 47),
        }
    }

    /// The rows that the list shows: the records from the scroll position
    /// on, as many as the window holds.
    pub fn rows(&self) -> (rows: Vec<PacketRow>)
        ensures
            packet_rows_view(rows@) == list_rows(self@),
    {
        let mut rows: Vec<PacketRow> = Vec::new();
        let len = self.packets.len();
        let ghost shown = shown_count(
            len as int,
            self.scroll_position as int,
            self.visible_rows as int,
        );
        let mut index: usize = self.scroll_position;
        while index < len && rows.len() < self.visible_rows
            invariant
                len == self.packets@.len(),
                self.scroll_position <= index,
                index <= len || rows@.len() == 0,
                rows@.len() == index - self.scroll_position,
                rows@.len() <= shown,
                shown == shown_count(
                    len as int,
                    self.scroll_position as int,
                    self.visible_rows as int,
                ),
                forall|k: int|
                    0 <= k < rows@.len() ==> (#[trigger] rows@[k])@ == packet_row(
                        self@,
                        self.scroll_position + k,
                    ),
            decreases len - index,
        {
            let row = self.write_row(index);
            rows.push(row);
            index += 1;
        }
        assert(packet_rows_view(rows@) =~= list_rows(self@));
        rows
    }

    /// The title of the list: how many records the session holds.
    pub fn list_title(&self) -> (title: String)
        ensures
            title@ == "Captured Packets ("@ + decimal_text(self@.packets.len()) + seq![')'],
    {
        let mut title = String::from_str("Captured Packets (");
        push_count(&mut title, self.packets.len());
        title.push(')');
        title
    }

    /// The mood of the status line.
    pub fn status_level(&self) -> (level: StatusLevel)
        ensures
            level == status_level_of(self@),
    {
        if self.is_capturing() {
            StatusLevel::Active
        } else if self.device_name.is_some() {
            StatusLevel::Ready
        } else {
            StatusLevel::Missing
        }
    }

    /// The help line.
    pub fn help_text(&self) -> (text: &'static str)
        ensures
            text@ == help_text_of(self@),
    {
        if self.is_capturing() && !self.following {
            "S: Stop Capture  C: Clear Packets  ↑/↓: Scroll  F: Follow    Home/End: Jump  A: Filter  D: Device Selection  Enter: Open Packet  Q/Esc: Home"
        } else if self.is_capturing() {
            "S: Stop Capture  C: Clear Packets  ↑/↓: Scroll  F: Unfollow  Home/End: Jump  A: Filter  D: Device Selection  Enter: Open Packet  Q/Esc: Home"
        } else if self.device_name.is_some() {
            "S: Start Capture  C: Clear Packets  A: Filter  D: Device Selection  Enter: Open Packet  Q/Esc: Home"
        } else {
            "A: Filter  D: Device Selection  Enter: Open Packet  Q/Esc: Home"
        }
    }
}

} // verus!
