use update_watcher::text::{
    chars_of, contains_char, ipv4_from_octets, lines, parse_decimal, parse_ipv4, parse_octet,
    same_chars, split, text_of,
};

fn cs(s: &str) -> Vec<char> {
    s.chars().collect()
}

fn strings(parts: Vec<Vec<char>>) -> Vec<String> {
    parts.into_iter().map(|p| p.into_iter().collect()).collect()
}

#[test]
fn chars_of_keeps_every_character() {
    assert_eq!(chars_of("a\u{e9}\u{1F600}z"), vec!['a', '\u{e9}', '\u{1F600}', 'z']);
    assert_eq!(chars_of(""), Vec::<char>::new());
}

#[test]
fn contains_and_same_chars() {
    assert!(contains_char(&cs("172.0.0.0/8"), '/'));
    assert!(!contains_char(&cs("172.0.0.8"), '/'));
    assert!(!contains_char(&cs(""), '/'));
    assert!(same_chars(&cs("frr"), &cs("frr")));
    assert!(!same_chars(&cs("frr"), &cs("fr")));
    assert!(!same_chars(&cs("frr"), &cs("frx")));
    assert!(same_chars(&cs(""), &cs("")));
}

#[test]
fn split_yields_one_more_field_than_separators() {
    assert_eq!(strings(split(&cs("a.b.c"), '.')), vec!["a", "b", "c"]);
    assert_eq!(strings(split(&cs(""), '.')), vec![""]);
    assert_eq!(strings(split(&cs("."), '.')), vec!["", ""]);
    assert_eq!(strings(split(&cs("a..b."), '.')), vec!["a", "", "b", ""]);
    assert_eq!(strings(split(&cs("abc"), '.')), vec!["abc"]);
}

#[test]
fn lines_follow_line_feeds() {
    assert_eq!(strings(lines(&cs("foo\nbar\n\r\nbaz\r"))), vec!["foo", "bar", "", "baz\r"]);
    assert_eq!(strings(lines(&cs("a\r\nb\n"))), vec!["a", "b"]);
    assert_eq!(strings(lines(&cs(""))), Vec::<String>::new());
    assert_eq!(strings(lines(&cs("\n"))), vec![""]);
    assert_eq!(strings(lines(&cs("\n\n"))), vec!["", ""]);
    assert_eq!(strings(lines(&cs("one"))), vec!["one"]);
    assert_eq!(strings(lines(&cs("a\r\r\nb"))), vec!["a\r", "b"]);
}

#[test]
fn lines_agree_with_std() {
    for text in ["", "a", "a\n", "a\nb", "a\r\nb\r\n", "\r", "\r\n", "x\n\ny\r", "\n\r\n\r"] {
        let expected: Vec<String> = text.lines().map(|l| l.to_string()).collect();
        assert_eq!(strings(lines(&cs(text))), expected);
    }
}

#[test]
fn decimal_numbers() {
    assert_eq!(parse_decimal(&cs("0")), Some(0));
    assert_eq!(parse_decimal(&cs("5")), Some(5));
    assert_eq!(parse_decimal(&cs("007")), Some(7));
    assert_eq!(parse_decimal(&cs("1234567890")), Some(1234567890));
    assert_eq!(parse_decimal(&cs("18446744073709551615")), Some(u64::MAX));
    assert_eq!(parse_decimal(&cs("18446744073709551616")), None);
    assert_eq!(parse_decimal(&cs("99999999999999999999999")), None);
    assert_eq!(parse_decimal(&cs("")), None);
    assert_eq!(parse_decimal(&cs("12a")), None);
    assert_eq!(parse_decimal(&cs("1.5")), None);
    assert_eq!(parse_decimal(&cs("-1")), None);
    assert_eq!(parse_decimal(&cs("+1")), None);
    assert_eq!(parse_decimal(&cs(" 1")), None);
    assert_eq!(parse_decimal(&cs("\u{663}")), None);
}

#[test]
fn octets() {
    assert_eq!(parse_octet(&cs("0")), Some(0));
    assert_eq!(parse_octet(&cs("9")), Some(9));
    assert_eq!(parse_octet(&cs("10")), Some(10));
    assert_eq!(parse_octet(&cs("255")), Some(255));
    assert_eq!(parse_octet(&cs("256")), None);
    assert_eq!(parse_octet(&cs("999")), None);
    assert_eq!(parse_octet(&cs("01")), None);
    assert_eq!(parse_octet(&cs("00")), None);
    assert_eq!(parse_octet(&cs("")), None);
    assert_eq!(parse_octet(&cs("1000")), None);
    assert_eq!(parse_octet(&cs("1a")), None);
}

#[test]
fn address_value_has_first_octet_highest() {
    assert_eq!(ipv4_from_octets(10, 0, 0, 1), 0x0A00_0001);
    assert_eq!(ipv4_from_octets(192, 168, 1, 20), 3232235796);
    assert_eq!(ipv4_from_octets(255, 255, 255, 255), u32::MAX);
    assert_eq!(ipv4_from_octets(0, 0, 0, 0), 0);
}

#[test]
fn dotted_addresses() {
    assert_eq!(parse_ipv4(&cs("10.0.0.1")), Some(0x0A00_0001));
    assert_eq!(parse_ipv4(&cs("192.168.1.20")), Some(3232235796));
    assert_eq!(parse_ipv4(&cs("0.0.0.0")), Some(0));
    assert_eq!(parse_ipv4(&cs("255.255.255.255")), Some(u32::MAX));
    assert_eq!(parse_ipv4(&cs("10.0.0")), None);
    assert_eq!(parse_ipv4(&cs("10.0.0.1.2")), None);
    assert_eq!(parse_ipv4(&cs("10.0.0.1.")), None);
    assert_eq!(parse_ipv4(&cs(".10.0.0.1")), None);
    assert_eq!(parse_ipv4(&cs("10..0.1")), None);
    assert_eq!(parse_ipv4(&cs("10.0.0.256")), None);
    assert_eq!(parse_ipv4(&cs("10.0.0.01")), None);
    assert_eq!(parse_ipv4(&cs("172.0.0.0/8")), None);
    assert_eq!(parse_ipv4(&cs("")), None);
    assert_eq!(parse_ipv4(&cs("a.b.c.d")), None);
}

#[test]
fn text_of_well_formed_bytes() {
    assert_eq!(text_of(b"abc"), Some("abc"));
    assert_eq!(text_of(&[]), Some(""));
    assert_eq!(text_of(&[0xe2, 0x82, 0xac]), Some("\u{20ac}"));
    assert_eq!(text_of(&[0xe2, 0x82]), None);
    assert_eq!(text_of(&[0xff]), None);
    assert_eq!(text_of(&[0xc0, 0x80]), None);
    assert_eq!(text_of(&[0xed, 0xa0, 0x80]), None);
}
