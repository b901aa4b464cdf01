use railway_backend::text::{
    contains, decimal_string, is_text, parse_unsigned, push_decimal, push_one_decimal, push_padded,
    push_signed_decimal, push_text,
};
use railway_backend::time::Timestamp;

#[test]
fn numbers_are_written_in_decimal() {
    assert_eq!(decimal_string(0), "0");
    assert_eq!(decimal_string(7), "7");
    assert_eq!(decimal_string(10), "10");
    assert_eq!(decimal_string(12951), "12951");
    assert_eq!(decimal_string(u64::MAX), "18446744073709551615");
    let mut out = "n=".to_string();
    push_decimal(&mut out, 405);
    push_text(&mut out, &"!".to_string());
    assert_eq!(out, "n=405!");
    let signed = |n: i64| {
        let mut s = String::new();
        push_signed_decimal(&mut s, n);
        s
    };
    assert_eq!(signed(0), "0");
    assert_eq!(signed(-1), "-1");
    assert_eq!(signed(31), "31");
    assert_eq!(signed(i64::MIN), "-9223372036854775808");
    assert_eq!(signed(i64::MAX), "9223372036854775807");
}

#[test]
fn thousandths_are_written_with_one_decimal() {
    let one = |n: i64| {
        let mut s = String::new();
        push_one_decimal(&mut s, n);
        s
    };
    assert_eq!(one(0), "0.0");
    assert_eq!(one(120_000), "120.0");
    assert_eq!(one(120_049), "120.0");
    assert_eq!(one(120_050), "120.1");
    assert_eq!(one(125_500), "125.5");
    assert_eq!(one(999_950), "1000.0");
    assert_eq!(one(-1_250), "-1.3");
    assert_eq!(one(-49), "0.0");
    assert_eq!(one(-50), "-0.1");
}

#[test]
fn numbers_are_padded_with_zeros() {
    let padded = |n: u64, width: usize| {
        let mut s = "SEC".to_string();
        push_padded(&mut s, n, width);
        s
    };
    assert_eq!(padded(1, 3), "SEC001");
    assert_eq!(padded(42, 3), "SEC042");
    assert_eq!(padded(999, 3), "SEC999");
    assert_eq!(padded(1000, 3), "SEC1000");
    assert_eq!(padded(0, 0), "SEC0");
    assert_eq!(padded(5, 1), "SEC5");
}

#[test]
fn unsigned_numbers_are_read_as_the_standard_library_reads_them() {
    for text in ["0", "7", "007", "+7", "443", "65535", "65536", "", "+", "-1", "1 ", " 1", "1e3",
        "١", "+-1", "++1", "99999999999999999999999999"]
    {
        assert_eq!(
            parse_unsigned(text, u16::MAX as u64),
            text.parse::<u16>().ok().map(|n| n as u64),
            "{:?}",
            text
        );
        assert_eq!(parse_unsigned(text, u64::MAX), text.parse::<u64>().ok(), "{:?}", text);
    }
    assert_eq!(parse_unsigned("18446744073709551615", u64::MAX), Some(u64::MAX));
    assert_eq!(parse_unsigned("18446744073709551616", u64::MAX), None);
    assert_eq!(parse_unsigned("5", 4), None);
    assert_eq!(parse_unsigned("4", 4), Some(4));
    assert_eq!(parse_unsigned("0", 0), Some(0));
    assert_eq!(parse_unsigned("9", 0), None);
}

#[test]
fn substrings_are_found() {
    assert!(contains("Rajdhani Express", "Express"));
    assert!(contains("Rajdhani Express", "Rajdhani"));
    assert!(contains("Rajdhani Express", "i E"));
    assert!(contains("abc", ""));
    assert!(contains("", ""));
    assert!(contains("abc", "abc"));
    assert!(contains("aab", "ab"));
    assert!(!contains("abc", "abcd"));
    assert!(!contains("", "a"));
    assert!(!contains("Rajdhani", "rajdhani"));
    assert!(contains("d\u{00e9}j\u{00e0} vu", "j\u{00e0}"));
    assert!(is_text(&"abc".to_string(), "abc"));
    assert!(!is_text(&"abc".to_string(), "abd"));
    assert!(!is_text(&"abc".to_string(), "ab"));
}

#[test]
fn instants_are_compared_and_moved_exactly() {
    let t = Timestamp::from_millis(1_000_000);
    assert_eq!(t.millis, 1_000_000);
    assert_eq!(t.minutes_since(Timestamp { millis: 0 }), 16);
    assert_eq!(t.minutes_since(Timestamp { millis: 1_000_000 - 59_999 }), 0);
    assert_eq!(t.minutes_since(Timestamp { millis: 1_000_000 - 60_000 }), 1);
    assert_eq!(Timestamp { millis: 0 }.minutes_since(t), -16);
    assert_eq!(Timestamp { millis: -59_999 }.minutes_since(Timestamp { millis: 0 }), 0);
    assert_eq!(
        Timestamp { millis: i64::MAX }.minutes_since(Timestamp { millis: i64::MIN }),
        307_445_734_561_825
    );
    assert!(Timestamp { millis: 0 }.older_than(t, 999_999));
    assert!(!Timestamp { millis: 0 }.older_than(t, 1_000_000));
    assert!(!t.older_than(Timestamp { millis: 0 }, 0));
    assert!(Timestamp { millis: i64::MIN }.older_than(Timestamp { millis: i64::MAX }, i64::MAX));
    assert_eq!(t.plus_millis(500), Timestamp { millis: 1_000_500 });
    assert_eq!(t.plus_millis(-2_000_000), Timestamp { millis: -1_000_000 });
    assert_eq!(Timestamp { millis: i64::MAX - 1 }.plus_millis(5), Timestamp { millis: i64::MAX });
    assert_eq!(Timestamp { millis: i64::MIN + 1 }.plus_millis(-5), Timestamp { millis: i64::MIN });
    assert!(t.not_after(t));
    assert!(Timestamp { millis: 0 }.not_after(t));
    assert!(!t.not_after(Timestamp { millis: 0 }));
}
