//! A packet summary made of text alone: addresses as strings and one line
//! that says who talks to whom.

use crate::data::packet::{ip_number_label, ip_number_text, slice_frame, ethernet_layers};
use crate::data::packet::{layers_view, FrameLayers, FrameLayersView, NetLayer};
use crate::data::packet::{NetLayerView, TransportLayer};
use crate::text::{decimal_text, push_count, push_decimal};
use crate::utils::pretty_print::{ipv4_text, ipv6_text, mac_text};
use crate::utils::pretty_print::{pretty_print_ipv4, pretty_print_ipv6, pretty_print_mac};
use vstd::prelude::*;
use vstd::string::StringExecFns;

verus! {

/// One captured frame, summarised as text.
#[derive(Debug)]
pub struct PacketInfo {
    pub id: usize,
    pub timestamp: String,
    pub src_ip: String,
    pub dst_ip: String,
    pub protocol: String,
    pub length: usize,
    pub info: String,
}

/// The mathematical content of a summary.
pub struct SummaryView {
    pub id: usize,
    pub timestamp: Seq<char>,
    pub src_ip: Seq<char>,
    pub dst_ip: Seq<char>,
    pub protocol: Seq<char>,
    pub length: usize,
    pub info: Seq<char>,
}

impl View for PacketInfo {
    type V = SummaryView;

    open spec fn view(&self) -> SummaryView {
        SummaryView {
            id: self.id,
            timestamp: self.timestamp@,
            src_ip: self.src_ip@,
            dst_ip: self.dst_ip@,
            protocol: self.protocol@,
            length: self.length,
            info: self.info@,
        }
    }
}

/// Whether an ARP packet carries hardware addresses that are written as MAC
/// addresses: a sender of exactly six bytes and a target of at least six.
pub open spec fn has_mac_addresses(sender: Seq<u8>, target: Seq<u8>) -> bool {
    sender.len() == 6 && target.len() >= 6
}

/// The text of the source address, empty where the frame names none.
pub open spec fn source_text(net: Option<NetLayerView>) -> Seq<char> {
    match net {
        Some(NetLayerView::Ipv4 { source, .. }) => ipv4_text(source@),
        Some(NetLayerView::Ipv6 { source, .. }) => ipv6_text(source@),
        Some(NetLayerView::Arp { sender, target }) => if has_mac_addresses(sender, target) {
            mac_text(sender)
        } else {
            Seq::empty()
        },
        None => Seq::empty(),
    }
}

/// The text of the destination address, empty where the frame names none.
pub open spec fn destination_text(net: Option<NetLayerView>) -> Seq<char> {
    match net {
        Some(NetLayerView::Ipv4 { destination, .. }) => ipv4_text(destination@),
        Some(NetLayerView::Ipv6 { destination, .. }) => ipv6_text(destination@),
        Some(NetLayerView::Arp { sender, target }) => if has_mac_addresses(sender, target) {
            mac_text(target)
        } else {
            Seq::empty()
        },
        None => Seq::empty(),
    }
}

/// The protocol label: the transport protocol where one is recognised, else
/// what the network header gives.
pub open spec fn summary_protocol(layers: FrameLayersView) -> Seq<char> {
    match layers.transport {
        Some(TransportLayer::Tcp { .. }) => "TCP"@,
        Some(TransportLayer::Udp { .. }) => "UDP"@,
        Some(TransportLayer::Icmpv4) => "ICMPv4"@,
        Some(TransportLayer::Icmpv6) => "ICMPv6"@,
        _ => match layers.net {
            Some(NetLayerView::Ipv4 { protocol, .. }) => "IPv4/"@ + ip_number_text(protocol),
            Some(NetLayerView::Ipv6 { next_header, .. }) => "IPv6/"@ + ip_number_text(next_header),
            Some(NetLayerView::Arp { .. }) => "ARP"@,
            None => "Unknown"@,
        },
    }
}

/// `source -> destination`.
pub open spec fn flow_text(source: Seq<char>, destination: Seq<char>) -> Seq<char> {
    source + " -> "@ + destination
}

/// `source:port -> destination:port`.
pub open spec fn port_flow_text(
    source: Seq<char>,
    source_port: u16,
    destination: Seq<char>,
    destination_port: u16,
) -> Seq<char> {
    source + seq![':'] + decimal_text(source_port as nat) + " -> "@ + destination + seq![':']
        + decimal_text(destination_port as nat)
}

/// The line that says who talks to whom: with ports for TCP and UDP, without
/// for ICMP, and for anything else only where both addresses are known.
pub open spec fn summary_info(layers: FrameLayersView) -> Seq<char> {
    let source = source_text(layers.net);
    let destination = destination_text(layers.net);
    match layers.transport {
        Some(TransportLayer::Tcp { source_port, destination_port }) => port_flow_text(
            source,
            source_port,
            destination,
            destination_port,
        ),
        Some(TransportLayer::Udp { source_port, destination_port }) => port_flow_text(
            source,
            source_port,
            destination,
            destination_port,
        ),
        Some(TransportLayer::Icmpv4) => flow_text(source, destination),
        Some(TransportLayer::Icmpv6) => flow_text(source, destination),
        _ => if source.len() > 0 && destination.len() > 0 {
            flow_text(source, destination)
        } else {
            Seq::empty()
        },
    }
}

/// The summary of a frame whose headers are `layers`. A frame that could not
/// be sliced is a raw packet: its addresses read `N/A`, its protocol `Raw`.
pub open spec fn summary_of(
    id: usize,
    timestamp: Seq<char>,
    length: usize,
    layers: Option<FrameLayersView>,
) -> SummaryView {
    match layers {
        Some(layers) => SummaryView {
            id,
            timestamp,
            src_ip: source_text(layers.net),
            dst_ip: destination_text(layers.net),
            protocol: summary_protocol(layers),
            length,
            info: summary_info(layers),
        },
        None => SummaryView {
            id,
            timestamp,
            src_ip: "N/A"@,
            dst_ip: "N/A"@,
            protocol: "Raw"@,
            length,
            info: "Raw packet ("@ + decimal_text(length as nat) + " bytes)"@,
        },
    }
}

/// The first six bytes of a hardware address.
fn first_six(hardware: &Vec<u8>) -> (bytes: [u8; 6])
    requires
        hardware@.len() >= 6,
    ensures
        mac_text(bytes@) == mac_text(hardware@),
{
    [hardware[0], hardware[1], hardware[2], hardware[3], hardware[4], hardware[5]]
}

/// Writes `source -> destination`.
fn flow_line(source: &String, destination: &String) -> (line: String)
    ensures
        line@ == flow_text(source@, destination@),
{
    let mut line = source.clone();
    line.append(" -> ");
    line.append(destination.as_str());
    line
}

/// Writes `source:port -> destination:port`.
fn port_flow_line(source: &String, source_port: u16, destination: &String, destination_port: u16) -> (line:
    String)
    ensures
        line@ == port_flow_text(source@, source_port, destination@, destination_port),
{
    let mut line = source.clone();
    line.push(':');
    push_decimal(&mut line, source_port as u64);
    line.append(" -> ");
    line.append(destination.as_str());
    line.push(':');
    push_decimal(&mut line, destination_port as u64);
    line
}

/// Builds the summary of a frame from the headers found in it, `None`
/// standing for a frame that could not be sliced.
pub fn build_summary(id: usize, timestamp: String, length: usize, layers: Option<FrameLayers>) -> (summary:
    PacketInfo)
    ensures
        summary@ == summary_of(id, timestamp@, length, layers_view(layers)),
{
    match layers {
        Some(found) => {
            let mut src_addr = String::new();
            let mut dst_addr = String::new();
            let mut protocol = String::from_str("Unknown");
            let mut info = String::new();
            match found.net {
                Some(NetLayer::Ipv4 { source, destination, protocol: number }) => {
                    src_addr = pretty_print_ipv4(&source);
                    dst_addr = pretty_print_ipv4(&destination);
                    protocol = String::from_str("IPv4/");
                    protocol.append(ip_number_label(number).as_str());
                },
                Some(NetLayer::Ipv6 { source, destination, next_header }) => {
                    src_addr = pretty_print_ipv6(&source);
                    dst_addr = pretty_print_ipv6(&destination);
                    protocol = String::from_str("IPv6/");
                    protocol.append(ip_number_label(next_header).as_str());
                },
                Some(NetLayer::Arp { sender, target }) => {
                    if sender.len() == 6 && target.len() >= 6 {
                        src_addr = pretty_print_mac(&first_six(&sender));
                        dst_addr = pretty_print_mac(&first_six(&target));
                    }
                    protocol = String::from_str("ARP");
                },
                None => {},
            }
            match found.transport {
                Some(TransportLayer::Tcp { source_port, destination_port }) => {
                    protocol = String::from_str("TCP");
                    info = port_flow_line(&src_addr, source_port, &dst_addr, destination_port);
                },
                Some(TransportLayer::Udp { source_port, destination_port }) => {
                    protocol = String::from_str("UDP");
                    info = port_flow_line(&src_addr, source_port, &dst_addr, destination_port);
                },
                Some(TransportLayer::Icmpv4) => {
                    protocol = String::from_str("ICMPv4");
                    info = flow_line(&src_addr, &dst_addr);
                },
                Some(TransportLayer::Icmpv6) => {
                    protocol = String::from_str("ICMPv6");
                    info = flow_line(&src_addr, &dst_addr);
                },
                _ => {
                    if !src_addr.as_str().is_empty() && !dst_addr.as_str().is_empty() {
                        info = flow_line(&src_addr, &dst_addr);
                    }
                },
            }
            PacketInfo { id, timestamp, src_ip: src_addr, dst_ip: dst_addr, protocol, length, info }
        },
        None => {
            let mut info = String::from_str("Raw packet (");
            push_count(&mut info, length);
            info.append(" bytes)");
            PacketInfo {
                id,
                timestamp,
                src_ip: String::from_str("N/A"),
                dst_ip: String::from_str("N/A"),
                protocol: String::from_str("Raw"),
                length,
                info,
            }
        },
    }
}

/// Summarises one captured frame as text.
pub fn parse_packet(id: usize, timestamp: String, data: &[u8]) -> (summary: PacketInfo)
    ensures
        summary@ == summary_of(id, timestamp@, data@.len() as usize, ethernet_layers(data@)),
{
    let layers = slice_frame(data);
    build_summary(id, timestamp, data.len(), layers)
}

} // verus!
