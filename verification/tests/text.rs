use packet_sniffer::capture::format_offset;
use packet_sniffer::text::{
    byte_length, byte_offset_at, char_count, char_position_at, concat3, concat5, inserted, leading,
    leading_until_dot, padded, push_count, push_decimal, push_decimal_padded, push_hex,
    push_padded, push_repeated, removed, utf8_width,
};

#[test]
fn decimal_numerals() {
    let mut out = String::new();
    push_decimal(&mut out, 0);
    out.push(' ');
    push_decimal(&mut out, 7);
    out.push(' ');
    push_decimal(&mut out, 10);
    out.push(' ');
    push_decimal(&mut out, 65535);
    out.push(' ');
    push_decimal(&mut out, u64::MAX);
    assert_eq!(out, "0 7 10 65535 18446744073709551615");
}

#[test]
fn decimal_numerals_are_padded_with_zeros() {
    let mut out = String::new();
    push_decimal_padded(&mut out, 42, 6);
    out.push(' ');
    push_decimal_padded(&mut out, 1234567, 6);
    out.push(' ');
    push_decimal_padded(&mut out, 0, 0);
    assert_eq!(out, "000042 1234567 0");
}

#[test]
fn counts_are_decimal() {
    let mut out = String::from("n=");
    push_count(&mut out, 1500);
    assert_eq!(out, "n=1500");
}

#[test]
fn hexadecimal_numerals() {
    let mut out = String::new();
    push_hex(&mut out, 0, 1);
    out.push(' ');
    push_hex(&mut out, 0xdb8, 1);
    out.push(' ');
    push_hex(&mut out, 0xa, 2);
    out.push(' ');
    push_hex(&mut out, 0x30, 8);
    out.push(' ');
    push_hex(&mut out, 0x1_2345_6789, 8);
    assert_eq!(out, "0 db8 0a 00000030 123456789");
}

#[test]
fn repeated_characters() {
    let mut out = String::from("a");
    push_repeated(&mut out, '-', 3);
    push_repeated(&mut out, '+', 0);
    assert_eq!(out, "a---");
}

#[test]
fn padding_fills_with_spaces_and_never_cuts() {
    assert_eq!(padded("TCP", 6), "TCP   ");
    assert_eq!(padded("", 2), "  ");
    assert_eq!(padded("exactly", 7), "exactly");
    assert_eq!(padded("longer than that", 4), "longer than that");
    let mut out = String::from("[");
    push_padded(&mut out, "ab", 4);
    out.push(']');
    assert_eq!(out, "[ab  ]");
}

#[test]
fn leading_characters() {
    assert_eq!(leading("IPv4/6 (TCP)", 8), "IPv4/6 (");
    assert_eq!(leading("UDP", 8), "UDP");
    assert_eq!(leading("abc", 0), "");
}

#[test]
fn text_before_the_first_dot() {
    assert_eq!(leading_until_dot("12.345678"), "12");
    assert_eq!(leading_until_dot("12"), "12");
    assert_eq!(leading_until_dot(".5"), "");
    assert_eq!(leading_until_dot("1.2.3"), "1");
    assert_eq!(leading_until_dot(""), "");
}

#[test]
fn concatenation() {
    assert_eq!(concat3("a", "bc", "d"), "abcd");
    assert_eq!(concat5("1", "", "2", "3", "45"), "12345");
}

#[test]
fn character_count() {
    assert_eq!(char_count(&String::from("tcp port 80")), 11);
    assert_eq!(char_count(&String::new()), 0);
}

#[test]
fn capture_offset_has_six_decimals() {
    assert_eq!(format_offset(0, 0), "0.000000");
    assert_eq!(format_offset(1, 500_000_000), "1.500000");
    assert_eq!(format_offset(12, 345_678_000), "12.345678");
    assert_eq!(format_offset(3, 1_000), "3.000001");
}

#[test]
fn capture_offset_rounds_to_the_nearest_microsecond() {
    assert_eq!(format_offset(0, 499), "0.000000");
    assert_eq!(format_offset(0, 500), "0.000001");
    assert_eq!(format_offset(0, 1_499), "0.000001");
    assert_eq!(format_offset(4, 999_999_500), "5.000000");
    assert_eq!(format_offset(u64::MAX, 999_999_999), "18446744073709551616.000000");
}

#[test]
fn characters_take_one_to_four_bytes() {
    for c in ['\0', 'a', '\u{7f}', '\u{80}', 'é', '\u{7ff}', '\u{800}', '€', '\u{ffff}', '\u{10000}', '😀', '\u{10ffff}'] {
        assert_eq!(utf8_width(c), c.len_utf8());
    }
    assert_eq!(byte_length(""), 0);
    assert_eq!(byte_length("aé€😀"), 10);
    assert_eq!(byte_length("aé€😀"), "aé€😀".len());
}

#[test]
fn characters_begin_where_the_one_before_ends() {
    let text = "aé€😀z";
    let offsets: Vec<usize> = (0..=5).map(|k| byte_offset_at(text, k)).collect();
    assert_eq!(offsets, vec![0, 1, 3, 6, 10, 11]);
    let positions: Vec<usize> = (0..=13).map(|cursor| char_position_at(text, cursor)).collect();
    assert_eq!(positions, vec![0, 1, 1, 2, 2, 2, 3, 3, 3, 3, 4, 5, 5, 5]);
    assert_eq!(char_position_at("", 0), 0);
    assert_eq!(char_position_at("", 7), 0);
}

#[test]
fn characters_go_in_and_out() {
    assert_eq!(inserted("", 0, 'x'), "x");
    assert_eq!(inserted("aé€", 0, '😀'), "😀aé€");
    assert_eq!(inserted("aé€", 2, 'b'), "aéb€");
    assert_eq!(inserted("aé€", 3, 'b'), "aé€b");
    assert_eq!(removed("aé€", 0), "é€");
    assert_eq!(removed("aé€", 1), "a€");
    assert_eq!(removed("aé€", 2), "aé");
}
