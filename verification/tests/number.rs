use weather::number::{parse_unsigned, write_decimal};

#[test]
fn whole_numbers_are_read_with_a_limit() {
    assert_eq!(parse_unsigned("0", 10), Some(0));
    assert_eq!(parse_unsigned("7", 10), Some(7));
    assert_eq!(parse_unsigned("10", 10), Some(10));
    assert_eq!(parse_unsigned("11", 10), None);
    assert_eq!(parse_unsigned("+7", 10), Some(7));
    assert_eq!(parse_unsigned("007", 10), Some(7));
    assert_eq!(parse_unsigned("", 10), None);
    assert_eq!(parse_unsigned("+", 10), None);
    assert_eq!(parse_unsigned("-1", 10), None);
    assert_eq!(parse_unsigned("-0", 10), None);
    assert_eq!(parse_unsigned("++1", 10), None);
    assert_eq!(parse_unsigned("1+", 10), None);
    assert_eq!(parse_unsigned(" 1", 10), None);
    assert_eq!(parse_unsigned("1 ", 10), None);
    assert_eq!(parse_unsigned("1.0", 10), None);
    assert_eq!(parse_unsigned("one", 10), None);
    assert_eq!(parse_unsigned("١", 10), None);
    assert_eq!(parse_unsigned("4294967295", 0xffff_ffff), Some(4294967295));
    assert_eq!(parse_unsigned("4294967296", 0xffff_ffff), None);
    assert_eq!(parse_unsigned("18446744073709551615", u64::MAX), Some(u64::MAX));
    assert_eq!(parse_unsigned("18446744073709551616", u64::MAX), None);
    assert_eq!(parse_unsigned("99999999999999999999999", u64::MAX), None);
    assert_eq!(parse_unsigned("5", 0), None);
    assert_eq!(parse_unsigned("0", 0), Some(0));
}

#[test]
fn whole_numbers_are_read_as_the_standard_library_reads_them() {
    for text in ["0", "+0", "12", "+12", "0012", "4294967295", "4294967296", "", "+", "-", "-3", "3a", "a3"] {
        let expected = text.parse::<u32>().ok().map(|n| n as u64);
        assert_eq!(parse_unsigned(text, 0xffff_ffff), expected);
    }
}

#[test]
fn whole_numbers_are_written_without_leading_zeros() {
    for n in [0u32, 1, 9, 10, 11, 99, 100, 324505, 4294967295] {
        let mut out = String::from("id=");
        write_decimal(n, &mut out);
        assert_eq!(out, format!("id={}", n));
    }
}
