use open_taffeta::text::{concat_str, first_segment, i32_to_string, i64_to_string, parse_i32, str_eq};

#[test]
fn decimal_rendering_matches_display() {
    for n in [0i32, 7, -3, 42, -42, 1000, i32::MAX, i32::MIN] {
        assert_eq!(i32_to_string(n), n.to_string());
    }
    for n in [0i64, i64::MAX, i64::MIN, -1, 1_000_000_000_000] {
        assert_eq!(i64_to_string(n), n.to_string());
    }
}

#[test]
fn parse_i32_accepts_signed_decimals() {
    assert_eq!(parse_i32("5"), Some(5));
    assert_eq!(parse_i32("+5"), Some(5));
    assert_eq!(parse_i32("-0"), Some(0));
    assert_eq!(parse_i32("-2147483648"), Some(i32::MIN));
    assert_eq!(parse_i32("2147483647"), Some(i32::MAX));
    assert_eq!(parse_i32("007"), Some(7));
}

#[test]
fn parse_i32_refuses_what_std_refuses() {
    for s in ["", "+", "-", "2147483648", "-2147483649", "12a", " 1", "1 ", "99999999999999999999"] {
        assert_eq!(parse_i32(s), None, "{}", s);
        assert!(s.parse::<i32>().is_err());
    }
}

#[test]
fn parse_of_rendered_number_round_trips() {
    for n in [0i32, 1, -1, 123456, i32::MAX, i32::MIN] {
        assert_eq!(parse_i32(&i32_to_string(n)), Some(n));
    }
}

#[test]
fn first_segment_is_first_split_item() {
    for s in ["5:admin", ":x", "abc", "", "1:2:3", "é:ü"] {
        assert_eq!(first_segment(s, ':'), s.split(':').next().unwrap());
    }
}

#[test]
fn str_helpers() {
    assert!(str_eq("abc", "abc"));
    assert!(!str_eq("abc", "abd"));
    assert!(!str_eq("ab", "abc"));
    assert_eq!(concat_str("ab", "cd"), "abcd");
}
