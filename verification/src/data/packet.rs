//! The packet record and how a captured frame becomes one.

use crate::utils::pretty_print::{find_longest_zero_run, push_joined_groups, read_groups};
use crate::utils::pretty_print::{groups_of, ipv4_text, joined_groups, longest_zero_run};
use crate::utils::pretty_print::{lemma_longest_zero_run_unique, mac_text};
use crate::utils::pretty_print::{pretty_print_ipv4, pretty_print_mac};
use etherparse::{IpNumber, NetSlice, SlicedPacket, TransportSlice};
use vstd::prelude::*;
use vstd::string::StringExecFns;

verus! {

/// A network-layer address.
#[derive(Debug, Clone, Copy, PartialEq, Eq)]
pub enum IpAddress {
    V4([u8; 4]),
    V6([u8; 16]),
}

/// Whether the groups are those of an IPv4 address mapped into IPv6: five
/// zero groups, then `ffff`.
pub open spec fn is_ipv4_mapped(groups: Seq<u16>) -> bool {
    &&& groups[0] == 0
    &&& groups[1] == 0
    &&& groups[2] == 0
    &&& groups[3] == 0
    &&& groups[4] == 0
    &&& groups[5] == 0xffff
}

/// The usual text of an IPv6 address: a mapped IPv4 address as `::ffff:`
/// and dotted decimal; otherwise the groups in hexadecimal, the longest run of
/// two or more zero groups (the leftmost among equals) written `::`.
pub open spec fn ipv6_canonical_text(bytes: Seq<u8>) -> Seq<char>
    recommends
        bytes.len() == 16,
{
    let groups = groups_of(bytes);
    let (start, len) = longest_zero_run(groups);
    if is_ipv4_mapped(groups) {
        "::ffff:"@ + ipv4_text(seq![bytes[12], bytes[13], bytes[14], bytes[15]])
    } else if len < 2 {
        joined_groups(groups, 0, 8)
    } else {
        joined_groups(groups, 0, start) + seq![':', ':'] + joined_groups(groups, start + len, 8)
    }
}

/// The text of a network address.
pub open spec fn ip_text(address: IpAddress) -> Seq<char> {
    match address {
        IpAddress::V4(bytes) => ipv4_text(bytes@),
        IpAddress::V6(bytes) => ipv6_canonical_text(bytes@),
    }
}

impl IpAddress {
    /// Whether this is an IPv6 address.
    pub fn is_ipv6(&self) -> (six: bool)
        ensures
            six == (*self is V6),
    {
        match self {
            IpAddress::V4(_) => false,
            IpAddress::V6(_) => true,
        }
    }

    /// Writes the address.
    pub fn to_text(&self) -> (text: String)
        ensures
            text@ == ip_text(*self),
    {
        match self {
            IpAddress::V4(bytes) => pretty_print_ipv4(bytes),
            IpAddress::V6(bytes) => {
                let groups = read_groups(bytes);
                let (start, len) = find_longest_zero_run(&groups);
                proof {
                    lemma_longest_zero_run_unique(groups@, start as int, len as int);
                }
                if groups[0] == 0 && groups[1] == 0 && groups[2] == 0 && groups[3] == 0
                    && groups[4] == 0 && groups[5] == 0xffff {
                    let mut out = String::from_str("::ffff:");
                    let tail: [u8; 4] = [bytes[12], bytes[13], bytes[14], bytes[15]];
                    assert(tail@ =~= seq![bytes@[12], bytes@[13], bytes@[14], bytes@[15]]);
                    out.append(pretty_print_ipv4(&tail).as_str());
                    out
                } else {
                    let mut out = String::new();
                    if len < 2 {
                        push_joined_groups(&mut out, &groups, 0, 8);
                    } else {
                        push_joined_groups(&mut out, &groups, 0, start);
                        out.push(':');
                        out.push(':');
                        push_joined_groups(&mut out, &groups, start + len, 8);
                    }
                    out
                }
            },
        }
    }
}

/// What the network header of a frame says, as far as a record needs it.
#[derive(Debug)]
#[allow(inconsistent_fields)]
pub enum NetLayer {
    /// An IPv4 header: both addresses and the protocol number.
    Ipv4 { source: [u8; 4], destination: [u8; 4], protocol: u8 },
    /// An IPv6 header: both addresses and the next-header number.
    Ipv6 { source: [u8; 16], destination: [u8; 16], next_header: u8 },
    /// An ARP packet: the hardware addresses of sender and target.
    Arp { sender: Vec<u8>, target: Vec<u8> },
}

/// What the transport header of a frame says, as far as a record needs it.
#[derive(Debug, Clone, Copy, PartialEq, Eq, Structural)]
pub enum TransportLayer {
    Tcp { source_port: u16, destination_port: u16 },
    Udp { source_port: u16, destination_port: u16 },
    Icmpv4,
    Icmpv6,
}

/// The network and transport headers found in one frame.
pub struct FrameLayers {
    pub net: Option<NetLayer>,
    pub transport: Option<TransportLayer>,
}

/// The mathematical content of a [`NetLayer`]: hardware addresses as byte
/// sequences.
#[allow(inconsistent_fields)]
pub enum NetLayerView {
    Ipv4 { source: [u8; 4], destination: [u8; 4], protocol: u8 },
    Ipv6 { source: [u8; 16], destination: [u8; 16], next_header: u8 },
    Arp { sender: Seq<u8>, target: Seq<u8> },
}

/// The mathematical content of [`FrameLayers`].
pub struct FrameLayersView {
    pub net: Option<NetLayerView>,
    pub transport: Option<TransportLayer>,
}

impl View for NetLayer {
    type V = NetLayerView;

    open spec fn view(&self) -> NetLayerView {
        match self {
            NetLayer::Ipv4 { source, destination, protocol } => NetLayerView::Ipv4 {
                source: *source,
                destination: *destination,
                protocol: *protocol,
            },
            NetLayer::Ipv6 { source, destination, next_header } => NetLayerView::Ipv6 {
                source: *source,
                destination: *destination,
                next_header: *next_header,
            },
            NetLayer::Arp { sender, target } => NetLayerView::Arp {
                sender: sender@,
                target: target@,
            },
        }
    }
}

/// The content of an optional network header.
pub open spec fn net_view(net: Option<NetLayer>) -> Option<NetLayerView> {
    match net {
        Some(layer) => Some(layer@),
        None => None,
    }
}

impl View for FrameLayers {
    type V = FrameLayersView;

    open spec fn view(&self) -> FrameLayersView {
        FrameLayersView { net: net_view(self.net), transport: self.transport }
    }
}

/// The content of the headers of a frame, `None` for a frame that could not
/// be sliced.
pub open spec fn layers_view(layers: Option<FrameLayers>) -> Option<FrameLayersView> {
    match layers {
        Some(found) => Some(found@),
        None => None,
    }
}

/// What `etherparse::SlicedPacket::from_ethernet` finds in a frame: `None`
/// where it reports an error, else the network and transport headers.
pub uninterp spec fn ethernet_layers(data: Seq<u8>) -> Option<FrameLayersView>;

/// How `etherparse::IpNumber` writes the protocol number `number` with `{:?}`.
pub uninterp spec fn ip_number_text(number: u8) -> Seq<char>;

/// Slices the frame with `etherparse::SlicedPacket::from_ethernet` and hands
/// out the network header: the outer `None` where slicing fails, an inner
/// `None` where the frame has no network header that the slicer knows.
#[verifier::external_body]
fn sliced_net(data: &[u8]) -> (net: Option<Option<NetLayer>>)
    ensures
        match ethernet_layers(data@) {
            Some(layers) => net matches Some(found) && net_view(found) == layers.net,
            None => net is None,
        },
{
    Some(match SlicedPacket::from_ethernet(data).ok()?.net {
        None => None,
        Some(NetSlice::Ipv4(s)) => Some(NetLayer::Ipv4 { source: s.header().source(), destination: s.header().destination(), protocol: s.header().protocol().0 }),
        Some(NetSlice::Ipv6(s)) => Some(NetLayer::Ipv6 { source: s.header().source(), destination: s.header().destination(), next_header: s.header().next_header().0 }),
        Some(NetSlice::Arp(a)) => Some(NetLayer::Arp { sender: a.sender_hw_addr().to_vec(), target: a.target_hw_addr().to_vec() }),
    })
}

/// Slices the frame with `etherparse::SlicedPacket::from_ethernet` and hands
/// out the transport header, `None` where slicing fails or finds none.
#[verifier::external_body]
fn sliced_transport(data: &[u8]) -> (transport: Option<TransportLayer>)
    ensures
        transport == match ethernet_layers(data@) {
            Some(layers) => layers.transport,
            None => None,
        },
{
    match SlicedPacket::from_ethernet(data).ok()?.transport? {
        TransportSlice::Tcp(t) => Some(TransportLayer::Tcp { source_port: t.source_port(), destination_port: t.destination_port() }),
        TransportSlice::Udp(u) => Some(TransportLayer::Udp { source_port: u.source_port(), destination_port: u.destination_port() }),
        TransportSlice::Icmpv4(_) => Some(TransportLayer::Icmpv4),
        TransportSlice::Icmpv6(_) => Some(TransportLayer::Icmpv6),
    }
}

/// Writes a protocol number as `etherparse::IpNumber` does with `{:?}`.
#[verifier::external_body]
pub(crate) fn ip_number_label(number: u8) -> (label: String)
    ensures
        label@ == ip_number_text(number),
{
    format!("{:?}", IpNumber(number))
}

/// One captured frame after parsing.
#[derive(Debug)]
pub struct PacketInfo {
    pub id: usize,
    pub timestamp: String,
    pub src_addr: Option<Result<IpAddress, String>>,
    pub src_port: Option<u16>,
    pub dst_addr: Option<Result<IpAddress, String>>,
    pub dst_port: Option<u16>,
    pub protocol: String,
    pub length: usize,
    pub data: Vec<u8>,
}

/// An address as a record holds it: a network address, or the text of a
/// link-layer address where the frame has no network header.
pub type AddressView = Option<Result<IpAddress, Seq<char>>>;

/// The mathematical content of a packet record.
pub struct PacketView {
    pub id: usize,
    pub timestamp: Seq<char>,
    pub src_addr: AddressView,
    pub src_port: Option<u16>,
    pub dst_addr: AddressView,
    pub dst_port: Option<u16>,
    pub protocol: Seq<char>,
    pub length: usize,
    pub data: Seq<u8>,
}

/// The content of an address field.
pub open spec fn address_view(address: Option<Result<IpAddress, String>>) -> AddressView {
    match address {
        None => None,
        Some(Ok(ip)) => Some(Ok(ip)),
        Some(Err(link)) => Some(Err(link@)),
    }
}

impl View for PacketInfo {
    type V = PacketView;

    open spec fn view(&self) -> PacketView {
        PacketView {
            id: self.id,
            timestamp: self.timestamp@,
            src_addr: address_view(self.src_addr),
            src_port: self.src_port,
            dst_addr: address_view(self.dst_addr),
            dst_port: self.dst_port,
            protocol: self.protocol@,
            length: self.length,
            data: self.data@,
        }
    }
}

/// The address that a hardware address of an ARP packet stands for: the text
/// of its first six bytes, or nothing where it is shorter.
pub open spec fn link_address(hardware: Seq<u8>) -> AddressView {
    if hardware.len() >= 6 {
        Some(Err(mac_text(hardware)))
    } else {
        None
    }
}

/// The source address of a record, from the network header.
pub open spec fn source_address(net: Option<NetLayerView>) -> AddressView {
    match net {
        None => None,
        Some(NetLayerView::Ipv4 { source, .. }) => Some(Ok(IpAddress::V4(source))),
        Some(NetLayerView::Ipv6 { source, .. }) => Some(Ok(IpAddress::V6(source))),
        Some(NetLayerView::Arp { sender, .. }) => link_address(sender),
    }
}

/// The destination address of a record, from the network header.
pub open spec fn destination_address(net: Option<NetLayerView>) -> AddressView {
    match net {
        None => None,
        Some(NetLayerView::Ipv4 { destination, .. }) => Some(Ok(IpAddress::V4(destination))),
        Some(NetLayerView::Ipv6 { destination, .. }) => Some(Ok(IpAddress::V6(destination))),
        Some(NetLayerView::Arp { target, .. }) => link_address(target),
    }
}

/// The protocol label that the network header alone gives.
pub open spec fn net_label(net: Option<NetLayerView>) -> Seq<char> {
    match net {
        None => "Unknown"@,
        Some(NetLayerView::Ipv4 { protocol, .. }) => "IPv4/"@ + ip_number_text(protocol),
        Some(NetLayerView::Ipv6 { next_header, .. }) => "IPv6/"@ + ip_number_text(next_header),
        Some(NetLayerView::Arp { .. }) => "ARP"@,
    }
}

/// The protocol label of a record: the transport protocol where one is
/// recognised, else what the network header gives.
pub open spec fn protocol_label(layers: FrameLayersView) -> Seq<char> {
    match layers.transport {
        Some(TransportLayer::Tcp { .. }) => "TCP"@,
        Some(TransportLayer::Udp { .. }) => "UDP"@,
        Some(TransportLayer::Icmpv4) => "ICMPv4"@,
        Some(TransportLayer::Icmpv6) => "ICMPv6"@,
        _ => net_label(layers.net),
    }
}

/// The source port, where the transport header has one.
pub open spec fn source_port(transport: Option<TransportLayer>) -> Option<u16> {
    match transport {
        Some(TransportLayer::Tcp { source_port, .. }) => Some(source_port),
        Some(TransportLayer::Udp { source_port, .. }) => Some(source_port),
        _ => None,
    }
}

/// The destination port, where the transport header has one.
pub open spec fn destination_port(transport: Option<TransportLayer>) -> Option<u16> {
    match transport {
        Some(TransportLayer::Tcp { destination_port, .. }) => Some(destination_port),
        Some(TransportLayer::Udp { destination_port, .. }) => Some(destination_port),
        _ => None,
    }
}

/// The record of a frame whose headers are `layers`; a frame that could not
/// be sliced has no addresses, no ports and the protocol `Unknown`.
pub open spec fn record_of(
    id: usize,
    timestamp: Seq<char>,
    data: Seq<u8>,
    layers: Option<FrameLayersView>,
) -> PacketView {
    match layers {
        Some(layers) => PacketView {
            id,
            timestamp,
            src_addr: source_address(layers.net),
            src_port: source_port(layers.transport),
            dst_addr: destination_address(layers.net),
            dst_port: destination_port(layers.transport),
            protocol: protocol_label(layers),
            length: data.len() as usize,
            data,
        },
        None => PacketView {
            id,
            timestamp,
            src_addr: None,
            src_port: None,
            dst_addr: None,
            dst_port: None,
            protocol: "Unknown"@,
            length: data.len() as usize,
            data,
        },
    }
}

/// The address for one hardware address of an ARP packet.
fn link_address_of(hardware: &Vec<u8>) -> (address: Option<Result<IpAddress, String>>)
    ensures
        address_view(address) == link_address(hardware@),
{
    if hardware.len() >= 6 {
        let first_six: [u8; 6] = [
            hardware[0],
            hardware[1],
            hardware[2],
            hardware[3],
            hardware[4],
            hardware[5],
        ];
        Some(Err(pretty_print_mac(&first_six)))
    } else {
        None
    }
}

/// Builds the record of a frame from the headers found in it, `None` standing
/// for a frame that could not be sliced.
pub fn build_record(id: usize, timestamp: String, data: Vec<u8>, layers: Option<FrameLayers>) -> (info:
    PacketInfo)
    ensures
        info@ == record_of(id, timestamp@, data@, layers_view(layers)),
{
    let mut src_addr: Option<Result<IpAddress, String>> = None;
    let mut dst_addr: Option<Result<IpAddress, String>> = None;
    let mut src_port: Option<u16> = None;
    let mut dst_port: Option<u16> = None;
    let mut protocol = String::from_str("Unknown");
    if let Some(found) = layers {
        match found.net {
            Some(NetLayer::Ipv4 { source, destination, protocol: number }) => {
                src_addr = Some(Ok(IpAddress::V4(source)));
                dst_addr = Some(Ok(IpAddress::V4(destination)));
                protocol = String::from_str("IPv4/");
                protocol.append(ip_number_label(number).as_str());
            },
            Some(NetLayer::Ipv6 { source, destination, next_header }) => {
                src_addr = Some(Ok(IpAddress::V6(source)));
                dst_addr = Some(Ok(IpAddress::V6(destination)));
                protocol = String::from_str("IPv6/");
                protocol.append(ip_number_label(next_header).as_str());
            },
            Some(NetLayer::Arp { sender, target }) => {
                src_addr = link_address_of(&sender);
                dst_addr = link_address_of(&target);
                protocol = String::from_str("ARP");
            },
            None => {},
        }
        match found.transport {
            Some(TransportLayer::Tcp { source_port, destination_port }) => {
                src_port = Some(source_port);
                dst_port = Some(destination_port);
                protocol = String::from_str("TCP");
            },
            Some(TransportLayer::Udp { source_port, destination_port }) => {
                src_port = Some(source_port);
                dst_port = Some(destination_port);
                protocol = String::from_str("UDP");
            },
            Some(TransportLayer::Icmpv4) => {
                protocol = String::from_str("ICMPv4");
            },
            Some(TransportLayer::Icmpv6) => {
                protocol = String::from_str("ICMPv6");
            },
            _ => {},
        }
    }
    let length = data.len();
    PacketInfo { id, timestamp, src_addr, src_port, dst_addr, dst_port, protocol, length, data }
}

/// Slices a frame into its headers, `None` where it cannot be sliced.
pub fn slice_frame(data: &[u8]) -> (layers: Option<FrameLayers>)
    ensures
        layers_view(layers) == ethernet_layers(data@),
{
    match sliced_net(data) {
        Some(net) => Some(FrameLayers { net, transport: sliced_transport(data) }),
        None => None,
    }
}

/// Parses one captured frame into its record. Parsing never fails: what the
/// slicer cannot read yields a record without addresses whose protocol is
/// `Unknown`.
pub fn parse_packet(id: usize, timestamp: String, data: Vec<u8>) -> (info: PacketInfo)
    ensures
        info@ == record_of(id, timestamp@, data@, ethernet_layers(data@)),
{
    let layers = slice_frame(data.as_slice());
    build_record(id, timestamp, data, layers)
}

impl Clone for PacketInfo {
    fn clone(&self) -> (copy: Self)
        ensures
            copy@ == self@,
    {
        PacketInfo {
            id: self.id,
            timestamp: self.timestamp.clone(),
            src_addr: clone_address(&self.src_addr),
            src_port: self.src_port,
            dst_addr: clone_address(&self.dst_addr),
            dst_port: self.dst_port,
            protocol: self.protocol.clone(),
            length: self.length,
            data: self.data.clone(),
        }
    }
}

/// A copy of an address field.
fn clone_address(address: &Option<Result<IpAddress, String>>) -> (copy: Option<
    Result<IpAddress, String>,
>)
    ensures
        address_view(copy) == address_view(*address),
{
    match address {
        None => None,
        Some(Ok(ip)) => Some(Ok(*ip)),
        Some(Err(link)) => Some(Err(link.clone())),
    }
}

} // verus!
