use packet_sniffer::utils::pretty_print::{pretty_print_ipv4, pretty_print_ipv6, pretty_print_mac};

#[test]
fn ipv4_is_dotted_decimal() {
    assert_eq!(pretty_print_ipv4(&[192, 168, 1, 10]), "192.168.1.10");
    assert_eq!(pretty_print_ipv4(&[0, 0, 0, 0]), "0.0.0.0");
    assert_eq!(pretty_print_ipv4(&[255, 255, 255, 255]), "255.255.255.255");
}

#[test]
fn mac_is_two_digit_hex() {
    assert_eq!(pretty_print_mac(&[0x00, 0x1a, 0x2b, 0x3c, 0x4d, 0xff]), "00:1a:2b:3c:4d:ff");
}

#[test]
fn ipv6_without_zero_run_is_written_in_full() {
    let bytes = [0x20, 0x01, 0x0d, 0xb8, 0, 1, 0, 2, 0, 3, 0, 4, 0, 5, 0, 6];
    assert_eq!(pretty_print_ipv6(&bytes), "[2001:db8:1:2:3:4:5:6]");
}

#[test]
fn ipv6_single_zero_group_is_not_compressed() {
    let bytes = [0x20, 0x01, 0x0d, 0xb8, 0, 0, 0, 2, 0, 3, 0, 4, 0, 5, 0, 6];
    assert_eq!(pretty_print_ipv6(&bytes), "[2001:db8:0:2:3:4:5:6]");
}

#[test]
fn ipv6_leading_run_is_compressed() {
    let mut bytes = [0u8; 16];
    bytes[15] = 1;
    assert_eq!(pretty_print_ipv6(&bytes), "[::1]");
    assert_eq!(pretty_print_ipv6(&[0u8; 16]), "[::]");
}

#[test]
fn ipv6_inner_run_is_compressed() {
    let bytes = [0x20, 0x01, 0x0d, 0xb8, 0, 0, 0, 0, 0, 0, 0, 0, 0, 0, 0, 1];
    assert_eq!(pretty_print_ipv6(&bytes), "[2001:db8::1]");
}

#[test]
fn ipv6_leftmost_of_equal_runs_is_compressed() {
    let bytes = [0, 1, 0, 0, 0, 0, 0, 2, 0, 0, 0, 0, 0, 3, 0, 4];
    assert_eq!(pretty_print_ipv6(&bytes), "[1::2:0:0:3:4]");
}

#[test]
fn ipv6_trailing_run_leaves_one_colon() {
    let mut bytes = [0u8; 16];
    bytes[0] = 0xfe;
    bytes[1] = 0x80;
    assert_eq!(pretty_print_ipv6(&bytes), "[fe80:]");
}
