//! Basic sanity checks of the crate's smallest building blocks.

use zerg_operator::strutil;

#[test]
fn it_works() {
    let result = 2 + 2;
    assert_eq!(result, 4);
}

#[test]
fn renders_small_numbers() {
    assert_eq!(strutil::u64_to_dec(0), "0");
    assert_eq!(strutil::u64_to_dec(7), "7");
    assert_eq!(strutil::u64_to_dec(10), "10");
    assert_eq!(strutil::u64_to_dec(905), "905");
    assert_eq!(strutil::u64_to_dec(u64::MAX), "18446744073709551615");
}

#[test]
fn renders_signed_numbers() {
    assert_eq!(strutil::i64_to_dec(0), "0");
    assert_eq!(strutil::i64_to_dec(42), "42");
    assert_eq!(strutil::i64_to_dec(-1), "-1");
    assert_eq!(strutil::i64_to_dec(-905), "-905");
    assert_eq!(strutil::i64_to_dec(i64::MIN), "-9223372036854775808");
}

#[test]
fn parses_decimal_runs() {
    assert_eq!(strutil::parse_u64("0"), Some(0));
    assert_eq!(strutil::parse_u64("8080"), Some(8080));
    assert_eq!(strutil::parse_u64("18446744073709551615"), Some(u64::MAX));
    assert_eq!(strutil::parse_u64("18446744073709551616"), None);
    assert_eq!(strutil::parse_u64(""), None);
    assert_eq!(strutil::parse_u64("12a"), None);
    assert_eq!(strutil::parse_u64("-5"), None);
    assert_eq!(strutil::parse_u64(" 5"), None);
    // An optional leading plus sign is accepted, a bare or repeated one is
    // not.
    assert_eq!(strutil::parse_u64("+8080"), Some(8080));
    assert_eq!(strutil::parse_u64("+0"), Some(0));
    assert_eq!(strutil::parse_u64("+"), None);
    assert_eq!(strutil::parse_u64("++1"), None);
}

#[test]
fn finds_substrings() {
    assert!(strutil::str_contains("namespace already exists here", "already exists"));
    assert!(strutil::str_contains("abc", ""));
    assert!(strutil::str_contains("abc", "abc"));
    assert!(strutil::str_contains("abcabd", "abd"));
    assert!(!strutil::str_contains("abc", "abcd"));
    assert!(!strutil::str_contains("chart pulled", "already exists"));
}

#[test]
fn compares_ignoring_ascii_case() {
    assert!(strutil::eq_ignore_ascii_case("Production", "production"));
    assert!(strutil::eq_ignore_ascii_case("PRODUCTION", "production"));
    assert!(strutil::eq_ignore_ascii_case("", ""));
    assert!(!strutil::eq_ignore_ascii_case("prod", "production"));
    assert!(!strutil::eq_ignore_ascii_case("develoPment", "production"));
}

#[test]
fn exact_string_equality() {
    assert!(strutil::eq_exact("loki", "loki"));
    assert!(!strutil::eq_exact("loki", "Loki"));
    assert!(!strutil::eq_exact("loki", "lokis"));
}
