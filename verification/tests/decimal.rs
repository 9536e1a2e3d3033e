use tap_parser::decimal::{is_digit_char, parse_decimal, render_decimal};

fn parse(text: &str) -> Option<u64> {
    let chars: Vec<char> = text.chars().collect();
    parse_decimal(&chars, 0, chars.len())
}

#[test]
fn numerals_are_written_without_leading_zeros() {
    assert_eq!(render_decimal(0), "0");
    assert_eq!(render_decimal(7), "7");
    assert_eq!(render_decimal(10), "10");
    assert_eq!(render_decimal(14), "14");
    assert_eq!(render_decimal(1000), "1000");
    assert_eq!(render_decimal(9081726354), "9081726354");
    assert_eq!(render_decimal(u64::MAX), "18446744073709551615");
}

#[test]
fn digits_are_read_most_significant_first() {
    assert_eq!(parse(""), Some(0));
    assert_eq!(parse("0"), Some(0));
    assert_eq!(parse("14"), Some(14));
    assert_eq!(parse("0014"), Some(14));
    assert_eq!(parse("9081726354"), Some(9081726354));
    assert_eq!(parse("18446744073709551615"), Some(u64::MAX));
}

#[test]
fn numbers_beyond_u64_are_not_read() {
    assert_eq!(parse("18446744073709551616"), None);
    assert_eq!(parse("18446744073709551620"), None);
    assert_eq!(parse("100000000000000000000"), None);
    assert_eq!(parse("000018446744073709551616"), None);
}

#[test]
fn part_of_a_text_can_be_read() {
    let chars: Vec<char> = "ab123cd".chars().collect();
    assert_eq!(parse_decimal(&chars, 2, 5), Some(123));
    assert_eq!(parse_decimal(&chars, 3, 4), Some(2));
    assert_eq!(parse_decimal(&chars, 4, 4), Some(0));
}

#[test]
fn written_numbers_read_back() {
    for n in [0u64, 1, 9, 10, 99, 100, 12345, u64::MAX - 1, u64::MAX] {
        assert_eq!(parse(&render_decimal(n)), Some(n));
        assert_eq!(render_decimal(n), n.to_string());
    }
}

#[test]
fn digits_are_read_as_the_standard_library_reads_them() {
    for text in [
        "0",
        "7",
        "0014",
        "4294967296",
        "18446744073709551615",
        "18446744073709551616",
        "00000000000000000000000000000000000000001",
        "99999999999999999999",
    ] {
        assert_eq!(parse(text), text.parse::<u64>().ok(), "{:?}", text);
    }
}

#[test]
fn only_ascii_digits_are_digits() {
    for c in '0'..='9' {
        assert!(is_digit_char(c));
    }
    for c in ['/', ':', 'a', ' ', '\u{663}', '\u{ff11}'] {
        assert!(!is_digit_char(c));
    }
}
