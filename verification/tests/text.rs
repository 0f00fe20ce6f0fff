use crashcart::text::{
    chars_of, joined, decimal, decode, field_range, is_whitespace, parse_decimal, range_equals,
    starts_with, trim_range, trimmed,
};

fn parse(s: &str) -> Option<u32> {
    let chars = chars_of(s);
    parse_decimal(&chars, 0, chars.len())
}

#[test]
fn numbers_are_read_as_std_reads_them() {
    for s in ["0", "7", "007", "+5", "12345", "4294967295", "4294967296", "", "+", "-1", "1 ",
        " 1", "1a", "٣", "99999999999999999999", "++1", "0x10"] {
        assert_eq!(parse(s), s.parse::<u32>().ok(), "{:?}", s);
    }
    assert_eq!(parse("12345"), Some(12345));
    assert_eq!(parse("4294967295"), Some(u32::MAX));
    assert_eq!(parse("4294967296"), None);
}

#[test]
fn numbers_are_written_in_base_ten() {
    for n in [0u32, 9, 10, 99, 100, 12345, 4294967295] {
        assert_eq!(decimal(n), n.to_string());
        assert_eq!(parse(&decimal(n)), Some(n));
    }
}

#[test]
fn white_space_is_unicode_white_space() {
    for code in 0u32..0x3100 {
        if let Some(c) = char::from_u32(code) {
            assert_eq!(is_whitespace(c), c.is_whitespace(), "U+{:04X}", code);
        }
    }
}

#[test]
fn trimming_matches_std() {
    for s in ["", " ", "a", "  a b \n", "\t/dev/loop3\r\n", "\u{a0}x\u{3000}", "x\u{2003}"] {
        let chars = chars_of(s);
        let (a, b) = trim_range(&chars);
        let got: String = chars[a..b].iter().collect();
        assert_eq!(got, s.trim(), "{:?}", s);
    }
    assert_eq!(trimmed(b"  /dev/loop3\n"), Some("/dev/loop3".to_string()));
    assert_eq!(trimmed(b""), Some(String::new()));
    assert_eq!(trimmed(&[0xff]), None);
}

#[test]
fn fields_match_split_whitespace() {
    for s in ["", "   ", "a", "a b", "  a   b  c ", "/dev/loop0 /dev/crashcart ext4 ro 0 0"] {
        let chars = chars_of(s);
        let want: Vec<&str> = s.split_whitespace().collect();
        for k in 0..4 {
            let got = field_range(&chars, 0, chars.len(), k)
                .map(|(a, b)| chars[a..b].iter().collect::<String>());
            assert_eq!(got.as_deref(), want.get(k).copied(), "{:?} field {}", s, k);
        }
    }
}

#[test]
fn prefixes_and_ranges() {
    let text = chars_of("/dev/loop12");
    assert!(starts_with(&text, &chars_of("/dev/loop")));
    assert!(starts_with(&text, &chars_of("")));
    assert!(!starts_with(&text, &chars_of("/dev/loop123")));
    assert!(!starts_with(&text, &chars_of("/dev/lool")));
    assert!(range_equals(&text, 1, 4, &chars_of("dev")));
    assert!(!range_equals(&text, 1, 4, &chars_of("deV")));
    assert!(!range_equals(&text, 1, 4, &chars_of("de")));
}

#[test]
fn decoding_and_joining() {
    assert_eq!(decode("héllo".as_bytes()), Some("héllo"));
    assert_eq!(decode(&[0xc3]), None);
    assert_eq!(joined("ab", "cd"), "abcd");
    assert_eq!(chars_of("a€"), vec!['a', '€']);
}
