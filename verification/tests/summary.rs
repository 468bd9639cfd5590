use packet_sniffer::data::packet::{FrameLayers, NetLayer, TransportLayer};
use packet_sniffer::utils::packet::{build_summary, parse_packet};

fn udp_frame() -> Vec<u8> {
    let mut frame = vec![0x11, 0x22, 0x33, 0x44, 0x55, 0x66, 0xaa, 0xbb, 0xcc, 0xdd, 0xee, 0xff];
    frame.extend_from_slice(&[0x08, 0x00]);
    frame.extend_from_slice(&[0x45, 0x00, 0x00, 0x1d, 0x00, 0x01, 0x00, 0x00, 64, 17, 0, 0]);
    frame.extend_from_slice(&[192, 168, 1, 1, 192, 168, 1, 2]);
    frame.extend_from_slice(&[0x00, 0x15, 0x04, 0xd2, 0x00, 0x09, 0x00, 0x00, 0x7f]);
    frame
}

#[test]
fn summary_of_udp_names_both_ends_with_ports() {
    let frame = udp_frame();
    let summary = parse_packet(3, String::from("0.100000"), &frame);
    assert_eq!(summary.id, 3);
    assert_eq!(summary.timestamp, "0.100000");
    assert_eq!(summary.src_ip, "192.168.1.1");
    assert_eq!(summary.dst_ip, "192.168.1.2");
    assert_eq!(summary.protocol, "UDP");
    assert_eq!(summary.length, frame.len());
    assert_eq!(summary.info, "192.168.1.1:21 -> 192.168.1.2:1234");
}

#[test]
fn summary_of_raw_packet() {
    let summary = parse_packet(1, String::from("0.000000"), &[1, 2, 3]);
    assert_eq!(summary.src_ip, "N/A");
    assert_eq!(summary.dst_ip, "N/A");
    assert_eq!(summary.protocol, "Raw");
    assert_eq!(summary.length, 3);
    assert_eq!(summary.info, "Raw packet (3 bytes)");
}

#[test]
fn summary_of_tcp_over_ipv6_uses_bracketed_addresses() {
    let mut source = [0u8; 16];
    source[15] = 1;
    let mut destination = [0u8; 16];
    destination[0] = 0x20;
    destination[1] = 0x01;
    destination[15] = 2;
    let layers = FrameLayers {
        net: Some(NetLayer::Ipv6 { source, destination, next_header: 6 }),
        transport: Some(TransportLayer::Tcp { source_port: 80, destination_port: 8080 }),
    };
    let summary = build_summary(1, String::from("2.000000"), 74, Some(layers));
    assert_eq!(summary.src_ip, "[::1]");
    assert_eq!(summary.dst_ip, "[2001::2]");
    assert_eq!(summary.protocol, "TCP");
    assert_eq!(summary.info, "[::1]:80 -> [2001::2]:8080");
}

#[test]
fn summary_of_icmp_names_both_ends_without_ports() {
    let layers = FrameLayers {
        net: Some(NetLayer::Ipv4 { source: [10, 0, 0, 1], destination: [10, 0, 0, 2], protocol: 1 }),
        transport: Some(TransportLayer::Icmpv4),
    };
    let summary = build_summary(1, String::from("2.000000"), 60, Some(layers));
    assert_eq!(summary.protocol, "ICMPv4");
    assert_eq!(summary.info, "10.0.0.1 -> 10.0.0.2");
}

#[test]
fn summary_of_arp_names_hardware_addresses() {
    let layers = FrameLayers {
        net: Some(NetLayer::Arp {
            sender: vec![0, 1, 2, 3, 4, 5],
            target: vec![0xaa, 0xbb, 0xcc, 0xdd, 0xee, 0xff],
        }),
        transport: None,
    };
    let summary = build_summary(1, String::from("2.000000"), 42, Some(layers));
    assert_eq!(summary.src_ip, "00:01:02:03:04:05");
    assert_eq!(summary.dst_ip, "aa:bb:cc:dd:ee:ff");
    assert_eq!(summary.protocol, "ARP");
    assert_eq!(summary.info, "00:01:02:03:04:05 -> aa:bb:cc:dd:ee:ff");
}

#[test]
fn summary_of_arp_with_other_hardware_has_no_addresses() {
    let layers = FrameLayers {
        net: Some(NetLayer::Arp { sender: vec![1, 2, 3, 4, 5, 6, 7, 8], target: vec![1, 2, 3, 4, 5, 6, 7, 8] }),
        transport: None,
    };
    let summary = build_summary(1, String::from("2.000000"), 42, Some(layers));
    assert_eq!(summary.src_ip, "");
    assert_eq!(summary.dst_ip, "");
    assert_eq!(summary.protocol, "ARP");
    assert_eq!(summary.info, "");
}

#[test]
fn summary_without_network_header_is_unknown() {
    let layers = FrameLayers { net: None, transport: None };
    let summary = build_summary(9, String::from("2.000000"), 14, Some(layers));
    assert_eq!(summary.protocol, "Unknown");
    assert_eq!(summary.src_ip, "");
    assert_eq!(summary.info, "");
    assert_eq!(summary.length, 14);
}

#[test]
fn summary_of_other_protocol_names_both_ends() {
    let layers = FrameLayers {
        net: Some(NetLayer::Ipv4 { source: [10, 0, 0, 1], destination: [224, 0, 0, 5], protocol: 89 }),
        transport: None,
    };
    let summary = build_summary(1, String::from("2.000000"), 60, Some(layers));
    assert_eq!(summary.protocol, "IPv4/89 (OSPFIGP - OSPFIGP)");
    assert_eq!(summary.info, "10.0.0.1 -> 224.0.0.5");
}
