use backend::decimal::{decimal_string, parse_u32};

#[test]
fn writes_single_digits() {
    assert_eq!(decimal_string(0), "0");
    assert_eq!(decimal_string(7), "7");
    assert_eq!(decimal_string(9), "9");
}

#[test]
fn writes_longer_numbers_most_significant_digit_first() {
    assert_eq!(decimal_string(10), "10");
    assert_eq!(decimal_string(4000), "4000");
    assert_eq!(decimal_string(8080), "8080");
    assert_eq!(decimal_string(1234567890), "1234567890");
}

#[test]
fn writes_the_largest_number() {
    assert_eq!(decimal_string(u64::MAX), "18446744073709551615");
}

#[test]
fn writes_as_the_standard_formatting_does() {
    let mut n: u64 = 0;
    while n < 2500 {
        assert_eq!(decimal_string(n), format!("{}", n));
        n += 1;
    }
    let mut big: u64 = 1;
    while big < u64::MAX / 7 {
        assert_eq!(decimal_string(big), format!("{}", big));
        assert_eq!(decimal_string(big - 1), format!("{}", big - 1));
        big *= 7;
    }
}

#[test]
fn reads_plain_digits() {
    assert_eq!(parse_u32("0"), Some(0));
    assert_eq!(parse_u32("8080"), Some(8080));
    assert_eq!(parse_u32("4000"), Some(4000));
}

#[test]
fn reads_a_leading_plus_sign() {
    assert_eq!(parse_u32("+80"), Some(80));
    assert_eq!(parse_u32("+0"), Some(0));
}

#[test]
fn reads_leading_zeros() {
    assert_eq!(parse_u32("007"), Some(7));
    assert_eq!(parse_u32("00000000000000000000080"), Some(80));
}

#[test]
fn reads_up_to_the_largest_u32_and_no_further() {
    assert_eq!(parse_u32("4294967295"), Some(u32::MAX));
    assert_eq!(parse_u32("4294967296"), None);
    assert_eq!(parse_u32("42949672950"), None);
    assert_eq!(parse_u32("99999999999999999999999999"), None);
}

#[test]
fn refuses_text_without_digits() {
    assert_eq!(parse_u32(""), None);
    assert_eq!(parse_u32("+"), None);
    assert_eq!(parse_u32("-"), None);
}

#[test]
fn refuses_anything_but_digits_after_the_sign() {
    assert_eq!(parse_u32("-1"), None);
    assert_eq!(parse_u32("++1"), None);
    assert_eq!(parse_u32("1+"), None);
    assert_eq!(parse_u32("80a"), None);
    assert_eq!(parse_u32("a80"), None);
    assert_eq!(parse_u32(" 80"), None);
    assert_eq!(parse_u32("80 "), None);
    assert_eq!(parse_u32("1_000"), None);
    assert_eq!(parse_u32("0x10"), None);
    assert_eq!(parse_u32("8.0"), None);
    assert_eq!(parse_u32("\u{0663}"), None);
    assert_eq!(parse_u32("8\u{ff10}"), None);
}

#[test]
fn reads_as_the_standard_parsing_does() {
    let samples = [
        "", "+", "-", "0", "+0", "-0", "1", "+1", "007", "8080", "65535", "65536", "4294967295",
        "4294967296", "+4294967295", "+4294967296", "00004294967295", "18446744073709551616",
        "12a", "a12", " 12", "12 ", "1 2", "++12", "+-12", "1+2", "\u{0663}", "1e3", "0x1f",
        "\t7", "7\n",
    ];
    for text in samples.iter() {
        assert_eq!(parse_u32(text), text.parse::<u32>().ok());
    }
}

#[test]
fn reading_back_what_was_written_gives_the_number() {
    let samples: [u32; 9] = [0, 1, 9, 10, 99, 100, 8080, 65535, u32::MAX];
    for n in samples.iter() {
        assert_eq!(parse_u32(&decimal_string(*n as u64)), Some(*n));
    }
}
