use packet_sniffer::data::packet::{
    build_record, parse_packet, slice_frame, FrameLayers, IpAddress, NetLayer, PacketInfo,
    TransportLayer,
};

fn ethernet(ether_type: u16, payload: &[u8]) -> Vec<u8> {
    let mut frame = vec![0x11, 0x22, 0x33, 0x44, 0x55, 0x66, 0xaa, 0xbb, 0xcc, 0xdd, 0xee, 0xff];
    frame.push((ether_type >> 8) as u8);
    frame.push((ether_type & 0xff) as u8);
    frame.extend_from_slice(payload);
    frame
}

fn ipv4(protocol: u8, source: [u8; 4], destination: [u8; 4], payload: &[u8]) -> Vec<u8> {
    let total = 20 + payload.len();
    let mut packet = vec![0x45, 0x00, (total >> 8) as u8, (total & 0xff) as u8];
    packet.extend_from_slice(&[0x00, 0x01, 0x00, 0x00, 64, protocol, 0x00, 0x00]);
    packet.extend_from_slice(&source);
    packet.extend_from_slice(&destination);
    packet.extend_from_slice(payload);
    packet
}

fn ipv6(next_header: u8, source: [u8; 16], destination: [u8; 16], payload: &[u8]) -> Vec<u8> {
    let len = payload.len();
    let mut packet = vec![0x60, 0x00, 0x00, 0x00, (len >> 8) as u8, (len & 0xff) as u8];
    packet.push(next_header);
    packet.push(64);
    packet.extend_from_slice(&source);
    packet.extend_from_slice(&destination);
    packet.extend_from_slice(payload);
    packet
}

fn udp(source_port: u16, destination_port: u16, payload: &[u8]) -> Vec<u8> {
    let len = 8 + payload.len();
    let mut segment = vec![
        (source_port >> 8) as u8,
        (source_port & 0xff) as u8,
        (destination_port >> 8) as u8,
        (destination_port & 0xff) as u8,
        (len >> 8) as u8,
        (len & 0xff) as u8,
        0,
        0,
    ];
    segment.extend_from_slice(payload);
    segment
}

fn tcp(source_port: u16, destination_port: u16, payload: &[u8]) -> Vec<u8> {
    let mut segment = vec![
        (source_port >> 8) as u8,
        (source_port & 0xff) as u8,
        (destination_port >> 8) as u8,
        (destination_port & 0xff) as u8,
    ];
    segment.extend_from_slice(&[0, 0, 0, 1, 0, 0, 0, 0, 0x50, 0x02, 0x20, 0x00, 0, 0, 0, 0]);
    segment.extend_from_slice(payload);
    segment
}

fn arp(sender: [u8; 6], target: [u8; 6]) -> Vec<u8> {
    let mut packet = vec![0x00, 0x01, 0x08, 0x00, 6, 4, 0x00, 0x01];
    packet.extend_from_slice(&sender);
    packet.extend_from_slice(&[10, 0, 0, 1]);
    packet.extend_from_slice(&target);
    packet.extend_from_slice(&[10, 0, 0, 2]);
    packet
}

fn loopback6() -> [u8; 16] {
    let mut address = [0u8; 16];
    address[15] = 1;
    address
}

fn documentation6() -> [u8; 16] {
    [0x20, 0x01, 0x0d, 0xb8, 0, 0, 0, 0, 0, 0, 0, 0, 0, 0, 0, 0x42]
}

fn parse(frame: Vec<u8>) -> PacketInfo {
    parse_packet(7, String::from("1.250000"), frame)
}

#[test]
fn udp_over_ipv4_has_addresses_and_ports() {
    let frame = ethernet(0x0800, &ipv4(17, [192, 168, 1, 1], [192, 168, 1, 2], &udp(21, 1234, &[1, 2, 3])));
    let info = parse(frame.clone());
    assert_eq!(info.id, 7);
    assert_eq!(info.timestamp, "1.250000");
    assert_eq!(info.src_addr, Some(Ok(IpAddress::V4([192, 168, 1, 1]))));
    assert_eq!(info.dst_addr, Some(Ok(IpAddress::V4([192, 168, 1, 2]))));
    assert_eq!(info.src_port, Some(21));
    assert_eq!(info.dst_port, Some(1234));
    assert_eq!(info.protocol, "UDP");
    assert_eq!(info.length, frame.len());
    assert_eq!(info.data, frame);
}

#[test]
fn tcp_over_ipv4_has_addresses_and_ports() {
    let frame = ethernet(0x0800, &ipv4(6, [10, 0, 0, 1], [10, 0, 0, 2], &tcp(443, 50000, &[])));
    let info = parse(frame);
    assert_eq!(info.src_addr, Some(Ok(IpAddress::V4([10, 0, 0, 1]))));
    assert_eq!(info.dst_addr, Some(Ok(IpAddress::V4([10, 0, 0, 2]))));
    assert_eq!(info.src_port, Some(443));
    assert_eq!(info.dst_port, Some(50000));
    assert_eq!(info.protocol, "TCP");
}

#[test]
fn udp_over_ipv6_has_addresses_and_ports() {
    let frame = ethernet(0x86dd, &ipv6(17, documentation6(), loopback6(), &udp(53, 5353, &[9])));
    let info = parse(frame);
    assert_eq!(info.src_addr, Some(Ok(IpAddress::V6(documentation6()))));
    assert_eq!(info.dst_addr, Some(Ok(IpAddress::V6(loopback6()))));
    assert_eq!(info.src_port, Some(53));
    assert_eq!(info.dst_port, Some(5353));
    assert_eq!(info.protocol, "UDP");
}

#[test]
fn other_protocol_over_ipv4_is_labelled_by_number() {
    let frame = ethernet(0x0800, &ipv4(47, [1, 2, 3, 4], [5, 6, 7, 8], &[0, 0, 0, 0]));
    let info = parse(frame);
    assert_eq!(info.src_addr, Some(Ok(IpAddress::V4([1, 2, 3, 4]))));
    assert_eq!(info.src_port, None);
    assert_eq!(info.dst_port, None);
    assert_eq!(info.protocol, "IPv4/47 (GRE - Generic Routing Encapsulation)");
}

#[test]
fn other_protocol_over_ipv6_is_labelled_by_number() {
    let frame = ethernet(0x86dd, &ipv6(59, documentation6(), loopback6(), &[]));
    let info = parse(frame);
    assert_eq!(info.dst_addr, Some(Ok(IpAddress::V6(loopback6()))));
    assert_eq!(info.protocol, "IPv6/59 (IPv6-NoNxt - No Next Header for IPv6)");
}

#[test]
fn icmp_has_no_ports() {
    let echo = [8, 0, 0, 0, 0, 1, 0, 1];
    let frame = ethernet(0x0800, &ipv4(1, [10, 0, 0, 1], [10, 0, 0, 2], &echo));
    let info = parse(frame);
    assert_eq!(info.protocol, "ICMPv4");
    assert_eq!(info.src_port, None);
    assert_eq!(info.dst_port, None);
    assert_eq!(info.src_addr, Some(Ok(IpAddress::V4([10, 0, 0, 1]))));
}

#[test]
fn arp_has_link_layer_addresses() {
    let frame = ethernet(0x0806, &arp([0, 1, 2, 3, 4, 5], [0xff, 0xff, 0xff, 0xff, 0xff, 0xff]));
    let info = parse(frame);
    assert_eq!(info.src_addr, Some(Err(String::from("00:01:02:03:04:05"))));
    assert_eq!(info.dst_addr, Some(Err(String::from("ff:ff:ff:ff:ff:ff"))));
    assert_eq!(info.src_port, None);
    assert_eq!(info.protocol, "ARP");
}

#[test]
fn unparseable_frame_is_unknown_without_addresses() {
    let frame = vec![1, 2, 3, 4, 5];
    let info = parse(frame.clone());
    assert_eq!(info.id, 7);
    assert_eq!(info.src_addr, None);
    assert_eq!(info.dst_addr, None);
    assert_eq!(info.src_port, None);
    assert_eq!(info.dst_port, None);
    assert_eq!(info.protocol, "Unknown");
    assert_eq!(info.length, 5);
    assert_eq!(info.data, frame);
}

#[test]
fn empty_frame_is_unknown() {
    let info = parse(Vec::new());
    assert_eq!(info.protocol, "Unknown");
    assert_eq!(info.length, 0);
}

#[test]
fn frame_of_unknown_ether_type_is_unknown() {
    let info = parse(ethernet(0x1234, &[1, 2, 3]));
    assert_eq!(info.protocol, "Unknown");
    assert_eq!(info.src_addr, None);
    assert_eq!(info.length, 17);
}

#[test]
fn slicing_tells_failure_from_missing_headers() {
    assert!(slice_frame(&[1, 2, 3]).is_none());
    let bare = slice_frame(&ethernet(0x1234, &[1, 2, 3])).expect("an ethernet header is enough");
    assert!(bare.net.is_none());
    assert!(bare.transport.is_none());
    let frame = ethernet(0x0800, &ipv4(17, [1, 1, 1, 1], [2, 2, 2, 2], &udp(1, 2, &[])));
    let layers = slice_frame(&frame).expect("a well-formed frame");
    assert!(matches!(
        layers.net,
        Some(NetLayer::Ipv4 { source: [1, 1, 1, 1], destination: [2, 2, 2, 2], protocol: 17 })
    ));
    assert_eq!(layers.transport, Some(TransportLayer::Udp { source_port: 1, destination_port: 2 }));
}

#[test]
fn record_of_short_hardware_addresses_has_none() {
    let layers = FrameLayers {
        net: Some(NetLayer::Arp { sender: vec![1, 2, 3], target: vec![1, 2, 3, 4, 5, 6, 7] }),
        transport: None,
    };
    let info = build_record(1, String::from("0.000000"), vec![0; 4], Some(layers));
    assert_eq!(info.src_addr, None);
    assert_eq!(info.dst_addr, Some(Err(String::from("01:02:03:04:05:06"))));
    assert_eq!(info.protocol, "ARP");
}

#[test]
fn group_management_is_labelled_by_number() {
    let query = [0x11, 0x64, 0xee, 0x9b, 0, 0, 0, 0];
    let frame = ethernet(0x0800, &ipv4(2, [1, 1, 1, 1], [224, 0, 0, 1], &query));
    let info = parse(frame);
    assert_eq!(info.protocol, "IPv4/2 (IGMP - Internet Group Management)");
    assert_eq!(info.dst_addr, Some(Ok(IpAddress::V4([224, 0, 0, 1]))));
    assert_eq!(info.src_port, None);
}

#[test]
fn record_without_network_header_takes_the_transport_label() {
    let layers = FrameLayers {
        net: None,
        transport: Some(TransportLayer::Tcp { source_port: 1, destination_port: 2 }),
    };
    let info = build_record(1, String::from("0.000000"), vec![0; 4], Some(layers));
    assert_eq!(info.protocol, "TCP");
    assert_eq!(info.src_addr, None);
    assert_eq!(info.src_port, Some(1));
    assert_eq!(info.dst_port, Some(2));
}

#[test]
fn record_copy_equals_the_record() {
    let frame = ethernet(0x0806, &arp([0, 1, 2, 3, 4, 5], [6, 7, 8, 9, 10, 11]));
    let info = parse(frame);
    let copy = info.clone();
    assert_eq!(copy.id, info.id);
    assert_eq!(copy.timestamp, info.timestamp);
    assert_eq!(copy.src_addr, info.src_addr);
    assert_eq!(copy.dst_addr, info.dst_addr);
    assert_eq!(copy.src_port, info.src_port);
    assert_eq!(copy.dst_port, info.dst_port);
    assert_eq!(copy.protocol, info.protocol);
    assert_eq!(copy.length, info.length);
    assert_eq!(copy.data, info.data);
}

#[test]
fn network_addresses_as_text() {
    assert_eq!(IpAddress::V4([127, 0, 0, 1]).to_text(), "127.0.0.1");
    assert_eq!(IpAddress::V6(loopback6()).to_text(), "::1");
    assert_eq!(IpAddress::V6([0u8; 16]).to_text(), "::");
    assert_eq!(IpAddress::V6(documentation6()).to_text(), "2001:db8::42");
    let mut link_local = [0u8; 16];
    link_local[0] = 0xfe;
    link_local[1] = 0x80;
    assert_eq!(IpAddress::V6(link_local).to_text(), "fe80::");
    let mapped = [0, 0, 0, 0, 0, 0, 0, 0, 0, 0, 0xff, 0xff, 192, 168, 0, 1];
    assert_eq!(IpAddress::V6(mapped).to_text(), "::ffff:192.168.0.1");
    let full = [0, 1, 0, 2, 0, 3, 0, 4, 0, 5, 0, 6, 0, 7, 0, 8];
    assert_eq!(IpAddress::V6(full).to_text(), "1:2:3:4:5:6:7:8");
    let one_zero = [0, 1, 0, 0, 0, 3, 0, 4, 0, 5, 0, 6, 0, 7, 0, 8];
    assert_eq!(IpAddress::V6(one_zero).to_text(), "1:0:3:4:5:6:7:8");
    assert!(IpAddress::V6(full).is_ipv6());
    assert!(!IpAddress::V4([1, 2, 3, 4]).is_ipv6());
}
