use redirection::decimal::{parse_u128, u128_to_string, u16_to_string, u64_to_string};
use redirection::text::same_text;

#[test]
fn numbers_are_written_as_shortest_decimal_text() {
    assert_eq!(u64_to_string(0), "0");
    assert_eq!(u64_to_string(7), "7");
    assert_eq!(u64_to_string(10), "10");
    assert_eq!(u64_to_string(10_300), "10300");
    assert_eq!(u64_to_string(u64::MAX), "18446744073709551615");
    assert_eq!(u16_to_string(50), "50");
    assert_eq!(u16_to_string(u16::MAX), "65535");
    assert_eq!(u128_to_string(1_000_000), "1000000");
    assert_eq!(u128_to_string(u128::MAX), "340282366920938463463374607431768211455");
}

#[test]
fn writing_agrees_with_the_standard_library() {
    let samples: [u128; 8] = [0, 1, 9, 10, 99, 100, 12_345_678_901_234_567_890, u128::MAX];
    for n in samples {
        assert_eq!(u128_to_string(n), n.to_string());
    }
}

#[test]
fn decimal_text_is_read() {
    assert_eq!(parse_u128("0"), Some(0));
    assert_eq!(parse_u128("9950"), Some(9_950));
    assert_eq!(parse_u128("007"), Some(7));
    assert_eq!(parse_u128("+5"), Some(5));
    assert_eq!(parse_u128("18446744073709551615"), Some(u64::MAX as u128));
    assert_eq!(parse_u128("65535"), Some(65_535));
    assert_eq!(parse_u128("340282366920938463463374607431768211455"), Some(u128::MAX));
    assert_eq!(
        parse_u128("000000000000000000000000000000000000000000000000000000000001"),
        Some(1)
    );
}

#[test]
fn text_that_is_no_number_is_refused() {
    assert_eq!(parse_u128(""), None);
    assert_eq!(parse_u128("+"), None);
    assert_eq!(parse_u128("-1"), None);
    assert_eq!(parse_u128("-0"), None);
    assert_eq!(parse_u128("++1"), None);
    assert_eq!(parse_u128("1+"), None);
    assert_eq!(parse_u128(" 1"), None);
    assert_eq!(parse_u128("1 "), None);
    assert_eq!(parse_u128("1_000"), None);
    assert_eq!(parse_u128("12a"), None);
    assert_eq!(parse_u128("1.5"), None);
    assert_eq!(parse_u128("٣"), None);
    assert_eq!(parse_u128("1é"), None);
    assert_eq!(parse_u128("0x10"), None);
}

#[test]
fn a_number_that_does_not_fit_is_refused() {
    assert_eq!(parse_u128("340282366920938463463374607431768211456"), None);
    assert_eq!(parse_u128("3402823669209384634633746074317682114550"), None);
    assert_eq!(parse_u128("18446744073709551616"), Some(18_446_744_073_709_551_616));
}

#[test]
fn reading_agrees_with_the_standard_library() {
    let samples = [
        "", "+", "-", "0", "+0", "-0", "00", "1", "+1", "65535", "65536", "18446744073709551615",
        "18446744073709551616", "abc", "1a", "a1", " 1", "1 ", "+ 1", "١", "1_0",
    ];
    for text in samples {
        assert_eq!(parse_u128(text), text.parse::<u128>().ok());
    }
}

#[test]
fn what_is_written_is_read_back() {
    let samples: [u64; 7] = [0, 5, 100, 9_950, 10_300, 1_000_000, u64::MAX];
    for n in samples {
        assert_eq!(parse_u128(&u64_to_string(n)), Some(n as u128));
        assert_eq!(parse_u128(&u128_to_string(n as u128)), Some(n as u128));
    }
    for p in 0..=100u16 {
        assert_eq!(parse_u128(&u16_to_string(p)), Some(p as u128));
    }
}

#[test]
fn texts_are_compared_by_their_characters() {
    assert!(same_text("", ""));
    assert!(same_text("uusd", "uusd"));
    assert!(!same_text("uusd", "uluna"));
    assert!(!same_text("uusd", "uusd "));
    assert!(!same_text("uusd", "uusD"));
    assert!(!same_text("", "a"));
    assert!(same_text("é", "é"));
    assert!(!same_text("é", "e"));
}
