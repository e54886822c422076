use quantum_kapital::utils::helpers::{current_timestamp_ms, is_valid_symbol, millis_of, seconds_of};
use quantum_kapital::utils::text::{
    decimal_string, parse_u32, prefix_before, same_text, signed_decimal_string, text_before,
};

#[test]
fn test_is_valid_symbol() {
    assert!(is_valid_symbol("AAPL"));
    assert!(is_valid_symbol("BRK.B"));
    assert!(!is_valid_symbol(""));
    assert!(!is_valid_symbol("VERYLONGSYMBOL"));
    assert!(!is_valid_symbol("AAPL$"));
}

#[test]
fn symbol_length_bounds() {
    assert!(is_valid_symbol("A"));
    assert!(is_valid_symbol("ABCDEFGHIJKL"));
    assert!(!is_valid_symbol("ABCDEFGHIJKLM"));
    assert!(is_valid_symbol("abc123"));
    assert!(!is_valid_symbol("AB CD"));
    assert!(!is_valid_symbol("ÄPFEL"));
}

#[test]
fn clock_is_after_2020() {
    let now = current_timestamp_ms();
    assert!(now > 1_577_836_800_000);
    assert_eq!(millis_of(now) as i64, now);
    assert_eq!(seconds_of(now), (now / 1000) as u64);
}

#[test]
fn clock_readings_before_the_epoch_clamp_to_zero() {
    assert_eq!(millis_of(-5), 0);
    assert_eq!(seconds_of(-5), 0);
    assert_eq!(millis_of(1999), 1999);
    assert_eq!(seconds_of(1999), 1);
}

#[test]
fn decimal_rendering() {
    assert_eq!(decimal_string(0), "0");
    assert_eq!(decimal_string(7), "7");
    assert_eq!(decimal_string(1000), "1000");
    assert_eq!(decimal_string(u64::MAX), "18446744073709551615");
    assert_eq!(signed_decimal_string(-42), "-42");
    assert_eq!(signed_decimal_string(42), "42");
    assert_eq!(signed_decimal_string(i64::MIN), "-9223372036854775808");
}

#[test]
fn text_comparison() {
    assert!(same_text("abc", "abc"));
    assert!(!same_text("abc", "abd"));
    assert!(!same_text("abc", "ab"));
    assert!(same_text("", ""));
}

#[test]
fn the_order_of_texts_is_that_of_strings() {
    let samples = ["", "A", "AA", "AAPL", "AB", "B", "a", "ab", "b", "é", "z", "日本", "~"];
    for a in samples {
        for b in samples {
            assert_eq!(text_before(a, b), a < b, "{:?} before {:?}", a, b);
        }
    }
}

#[test]
fn numbers_in_text() {
    assert_eq!(parse_u32("0"), Some(0));
    assert_eq!(parse_u32("007"), Some(7));
    assert_eq!(parse_u32("+12"), Some(12));
    assert_eq!(parse_u32("12a"), None);
    assert_eq!(parse_u32("-1"), None);
    assert_eq!(parse_u32(""), None);
    assert_eq!(parse_u32("4294967295"), "4294967295".parse::<u32>().ok());
    assert_eq!(parse_u32("4294967296"), "4294967296".parse::<u32>().ok());
    assert_eq!(prefix_before("a.b.c", '.'), "a");
    assert_eq!(prefix_before("abc", '.'), "abc");
    assert_eq!(prefix_before(".abc", '.'), "");
    assert_eq!(prefix_before("", '.'), "");
}
