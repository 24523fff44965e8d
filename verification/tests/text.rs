use ring::text::{chars_of, ipv4_from_octets, ipv4_text, is_affirmative, parse_ipv4, parse_u8, u16_text, u32_text, u8_text};

#[test]
fn parse_ipv4_accepts_dotted_quads() {
    assert_eq!(parse_ipv4("192.168.1.1"), Some(0xc0a8_0101));
    assert_eq!(parse_ipv4("0.0.0.0"), Some(0));
    assert_eq!(parse_ipv4("255.255.255.255"), Some(0xffff_ffff));
    assert_eq!(parse_ipv4("10.0.0.1"), Some(0x0a00_0001));
    assert_eq!(parse_ipv4("100.200.250.255"), Some(0x64c8_faff));
    assert_eq!(parse_ipv4("192.168.1.20"), Some(0xc0a8_0114));
}

#[test]
fn parse_ipv4_rejects_what_std_rejects() {
    for text in [
        "256.1.1.1", "01.2.3.4", "1.2.3.04", "0.0.0.00", "1.2.3", "1.2.3.4.5", "", "1..2.3", " 1.2.3.4",
        "1.2.3.4 ", "+1.2.3.4", "1234.1.1.1", "a.b.c.d", "1.2.3.4/24", "....", "1.2.3.", ".1.2.3",
    ] {
        assert_eq!(parse_ipv4(text), None, "{text:?}");
    }
}

#[test]
fn parse_u8_agrees_with_std() {
    for text in ["0", "255", "256", "+5", "-5", "", "+", "007", "1000", "12a", " 1", "24", "32", "-0"] {
        assert_eq!(parse_u8(text), text.parse::<u8>().ok(), "{text:?}");
    }
}

#[test]
fn ipv4_text_is_dotted_decimal() {
    assert_eq!(ipv4_text(0), "0.0.0.0");
    assert_eq!(ipv4_text(1), "0.0.0.1");
    assert_eq!(ipv4_text(0x7f00_0001), "127.0.0.1");
    assert_eq!(ipv4_text(0xc0a8_0101), "192.168.1.1");
    assert_eq!(ipv4_text(0xffff_ffff), "255.255.255.255");
    assert_eq!(ipv4_text(0x0a00_00ff), "10.0.0.255");
}

#[test]
fn octets_compose_address() {
    assert_eq!(ipv4_from_octets(192, 168, 1, 1), 0xc0a8_0101);
}

#[test]
fn affirmative_answers() {
    assert!(is_affirmative("y"));
    assert!(is_affirmative("Y\n"));
    assert!(is_affirmative("  yes  "));
    assert!(is_affirmative("YeS"));
    assert!(!is_affirmative("no"));
    assert!(!is_affirmative(""));
    assert!(!is_affirmative("yess"));
    assert!(!is_affirmative("ye"));
}

#[test]
fn chars_of_keeps_every_character() {
    assert_eq!(chars_of("a≈b"), vec!['a', '≈', 'b']);
}

#[test]
fn written_addresses_parse_back() {
    for value in [0u32, 1, 9, 10, 99, 100, 0x0a0b_0c0d, 0x7f00_0001, 0xc0a8_6401, 0xffff_ffff, 0x6464_6464] {
        assert_eq!(parse_ipv4(&ipv4_text(value)), Some(value));
    }
}

#[test]
fn decimal_texts_match_display() {
    assert_eq!(u8_text(0), "0");
    assert_eq!(u8_text(7), "7");
    assert_eq!(u8_text(255), "255");
    assert_eq!(u16_text(10), "10");
    assert_eq!(u16_text(65535), "65535");
    assert_eq!(u32_text(1000), "1000");
    assert_eq!(u32_text(4294967295), "4294967295");
    for n in [0u32, 9, 10, 99, 100, 12345, 4000000000] {
        assert_eq!(u32_text(n), n.to_string());
    }
}

#[test]
fn affirmative_answers_trim_unicode_white_space() {
    assert!(is_affirmative("\t Y\r\n"));
    assert!(is_affirmative("\u{3000}yes\u{a0}"));
    assert!(is_affirmative("\u{2003}y\u{85}\u{2029}"));
    assert!(!is_affirmative("\u{200b}yes"));
    assert!(!is_affirmative("y es"));
    assert!(!is_affirmative(" \n\t "));
}
