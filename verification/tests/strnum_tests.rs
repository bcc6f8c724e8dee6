use weather::i64_to_string;
use weather::str_eq;
use weather::u64_to_string;

#[test]
fn unsigned_rendering_is_exact() {
    assert_eq!(u64_to_string(0), "0");
    assert_eq!(u64_to_string(7), "7");
    assert_eq!(u64_to_string(10), "10");
    assert_eq!(u64_to_string(99), "99");
    assert_eq!(u64_to_string(1234567), "1234567");
    assert_eq!(u64_to_string(u64::MAX), "18446744073709551615");
}

#[test]
fn signed_rendering_is_exact() {
    assert_eq!(i64_to_string(0), "0");
    assert_eq!(i64_to_string(20), "20");
    assert_eq!(i64_to_string(-5), "-5");
    assert_eq!(i64_to_string(-100), "-100");
    assert_eq!(i64_to_string(i64::MAX), "9223372036854775807");
    assert_eq!(i64_to_string(i64::MIN), "-9223372036854775808");
}

#[test]
fn string_equality_compares_characters() {
    assert!(str_eq("", ""));
    assert!(str_eq("01d", "01d"));
    assert!(!str_eq("01d", "01n"));
    assert!(!str_eq("01d", "01dd"));
    assert!(str_eq("\u{f0599} caf\u{e9}", "\u{f0599} caf\u{e9}"));
    assert!(!str_eq("caf\u{e9}", "cafe"));
}
