use onix_desktop::number::{decimal_i64, decimal_u64, parse_u16};
use onix_desktop::text::{eq_ignore_ascii_case, first_field, strip_prefix, trim, trim_end_matches, trim_start_matches};

#[test]
fn trim_matches_std() {
    for s in ["", "  ", " a b ", "\u{2028}x\u{205f}", "\u{200b}x", "\r\nline\r\n"] {
        assert_eq!(trim(s), s.trim());
    }
}

#[test]
fn trim_matches_char_forms() {
    assert_eq!(trim_start_matches("@@a@", '@'), "a@");
    assert_eq!(trim_end_matches("http://x//", '/'), "http://x");
    assert_eq!(trim_end_matches("///", '/'), "");
}

#[test]
fn prefix_and_field() {
    assert_eq!(strip_prefix("ONIXSESSID=abc", "ONIXSESSID="), Some("abc"));
    assert_eq!(strip_prefix("ONIX", "ONIXSESSID="), None);
    assert_eq!(first_field("abc; Path=/", ';'), "abc");
    assert_eq!(first_field("abc", ';'), "abc");
}

#[test]
fn ascii_case_folding() {
    assert!(eq_ignore_ascii_case("PRIVATE", "private"));
    assert!(!eq_ignore_ascii_case("privat", "private"));
    assert!(!eq_ignore_ascii_case("privatе", "private"));
}

#[test]
fn decimal_forms() {
    assert_eq!(decimal_u64(0), "0");
    assert_eq!(decimal_u64(8080), "8080");
    assert_eq!(decimal_i64(-42), "-42");
    assert_eq!(decimal_i64(i64::MIN), i64::MIN.to_string());
    assert_eq!(decimal_i64(i64::MAX), i64::MAX.to_string());
}

#[test]
fn parse_port_like_std() {
    for s in ["", "+", "+80", "080", "65535", "65536", "-1", "8 0", "99999999999", "１２"] {
        assert_eq!(parse_u16(s), s.parse::<u16>().ok(), "{s}");
    }
}

#[test]
fn port_round_trip() {
    for p in [0u16, 1, 80, 8080, 65535] {
        assert_eq!(parse_u16(&decimal_u64(p as u64)), Some(p));
    }
}
