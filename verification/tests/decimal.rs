use knr_bootstrap::decimal::{all_digits, read_number, write_number};

#[test]
fn numbers_are_written_without_leading_zeros() {
    assert_eq!(write_number(0), "0");
    assert_eq!(write_number(10), "10");
    assert_eq!(write_number(5001), "5001");
    assert_eq!(write_number(u64::MAX), "18446744073709551615");
}

#[test]
fn numbers_are_read_within_bounds() {
    assert_eq!(read_number("5001", 65535), Some(5001));
    assert_eq!(read_number("0005001", 65535), Some(5001));
    assert_eq!(read_number("+65535", 65535), Some(65535));
    assert_eq!(read_number("65536", 65535), None);
    assert_eq!(read_number("99999999999999999999999999", u32::MAX), None);
    assert_eq!(read_number("4294967295", u32::MAX), Some(u32::MAX));
    assert_eq!(read_number("4294967296", u32::MAX), None);
    assert_eq!(read_number("-0", 65535), Some(0));
    assert_eq!(read_number("-1", 65535), None);
    for text in ["", "+", "-", "+-1", " 1", "1 ", "0x10", "1e3", "\u{661}"] {
        assert_eq!(read_number(text, 65535), None, "{text}");
    }
}

#[test]
fn written_numbers_are_read_back() {
    for n in [0, 1, 9, 10, 99, 100, 65535, u32::MAX] {
        assert_eq!(read_number(&write_number(u64::from(n)), u32::MAX), Some(n));
    }
    assert_eq!(read_number(&write_number(100), 99), None);
}

#[test]
fn only_ascii_digits_are_digits() {
    assert!(all_digits("0123456789"));
    assert!(!all_digits(""));
    assert!(!all_digits("12a"));
    assert!(!all_digits("-1"));
    assert!(!all_digits("\u{661}"));
}
