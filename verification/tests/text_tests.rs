use photo_archive::text::{chars_of, format_u64, parse_u64, string_from_chars, trim};

fn fmt(n: u64) -> String {
    format_u64(n).into_iter().collect()
}

fn parse(s: &str) -> Option<u64> {
    let v: Vec<char> = s.chars().collect();
    parse_u64(&v, 0, v.len())
}

#[test]
fn formats_like_display() {
    for n in [0u64, 7, 10, 99, 100, 12345, u64::MAX] {
        assert_eq!(fmt(n), n.to_string());
    }
}

#[test]
fn parses_like_from_str() {
    for s in ["0", "42", "+42", "007", "", "+", "-1", "1a", "18446744073709551615", "18446744073709551616", "++1", " 1"] {
        assert_eq!(parse(s), s.parse::<u64>().ok(), "input {:?}", s);
    }
}

#[test]
fn parses_a_slice() {
    let v: Vec<char> = "ab123cd".chars().collect();
    assert_eq!(parse_u64(&v, 2, 5), Some(123));
    assert_eq!(parse_u64(&v, 2, 2), None);
}

#[test]
fn decimal_roundtrip() {
    for n in [0u64, 1, 9, 10, 65535, 1 << 40, u64::MAX - 1, u64::MAX] {
        assert_eq!(parse(&fmt(n)), Some(n));
    }
}

fn trimmed(s: &str) -> String {
    let v = chars_of(s);
    string_from_chars(&trim(&v))
}

#[test]
fn trims_like_str_trim() {
    for s in ["  a b \t\n", "x", "", "   ", "\u{3000}x\u{85}", "\u{a0}\u{2003}y z\u{2029}", "\u{200b}w"] {
        assert_eq!(trimmed(s), s.trim(), "input {:?}", s);
    }
}

#[test]
fn chars_roundtrip() {
    let s = "héllo wörld ✓";
    assert_eq!(string_from_chars(&chars_of(s)), s);
}
