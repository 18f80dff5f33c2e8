use aether_delegate::text::{parse_u64, str_eq_ignore_ascii_case, u64_to_dec};

#[test]
fn decimal_rendering_exact() {
    assert_eq!(u64_to_dec(0), "0");
    assert_eq!(u64_to_dec(7), "7");
    assert_eq!(u64_to_dec(10), "10");
    assert_eq!(u64_to_dec(12345), "12345");
    assert_eq!(u64_to_dec(u64::MAX), "18446744073709551615");
}

#[test]
fn decimal_parse_matches_std() {
    for s in [
        "0", "123", "+5", "", "x", "12a", " 12", "-3", "+",
        "18446744073709551615", "18446744073709551616", "99999999999999999999999",
    ] {
        assert_eq!(parse_u64(s), s.parse::<u64>().ok(), "input {:?}", s);
    }
}

#[test]
fn ascii_case_insensitive_compare_matches_std() {
    for (a, b) in [
        ("gzip", "GZIP"),
        ("Host", "hOsT"),
        ("http", "http"),
        ("a", "b"),
        ("", ""),
        ("abc", "abcd"),
        ("stra\u{df}e", "STRA\u{df}E"),
    ] {
        assert_eq!(str_eq_ignore_ascii_case(a, b), a.eq_ignore_ascii_case(b), "{} vs {}", a, b);
    }
}
