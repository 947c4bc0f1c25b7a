use i3s::text::{digit_str, find_bytes, parse_leading_number, push_int, push_nat, str_eq};

fn natural(n: u64) -> String {
    let mut out = String::new();
    push_nat(&mut out, n);
    out
}

fn integer(i: i64) -> String {
    let mut out = String::new();
    push_int(&mut out, i);
    out
}

#[test]
fn digits_are_their_characters() {
    let all: Vec<&str> = (0u8..10).map(digit_str).collect();
    assert_eq!(all, vec!["0", "1", "2", "3", "4", "5", "6", "7", "8", "9"]);
}

#[test]
fn naturals_are_written_in_decimal() {
    assert_eq!(natural(0), "0");
    assert_eq!(natural(7), "7");
    assert_eq!(natural(10), "10");
    assert_eq!(natural(12345), "12345");
    assert_eq!(natural(1_000_000), "1000000");
    assert_eq!(natural(u64::MAX), "18446744073709551615");
}

#[test]
fn numerals_are_appended_to_what_is_there() {
    let mut out = String::from("page ");
    push_nat(&mut out, 42);
    out.push('/');
    push_int(&mut out, -3);
    assert_eq!(out, "page 42/-3");
}

#[test]
fn integers_carry_their_sign() {
    assert_eq!(integer(0), "0");
    assert_eq!(integer(5), "5");
    assert_eq!(integer(-1), "-1");
    assert_eq!(integer(-120), "-120");
    assert_eq!(integer(i64::MAX), "9223372036854775807");
    assert_eq!(integer(i64::MIN), "-9223372036854775808");
}

#[test]
fn numerals_agree_with_the_standard_formatting() {
    for n in [0u64, 1, 9, 10, 11, 99, 100, 101, 999, 1000, 65535, 4294967296] {
        assert_eq!(natural(n), format!("{}", n));
    }
    for i in [-1000i64, -99, -10, -9, -1, 0, 1, 9, 10, 1000] {
        assert_eq!(integer(i), format!("{}", i));
    }
}

#[test]
fn texts_are_compared_by_their_characters() {
    assert!(str_eq("Point", "Point"));
    assert!(str_eq("", ""));
    assert!(!str_eq("Point", "PointCloud"));
    assert!(!str_eq("point", "Point"));
}

#[test]
fn the_first_occurrence_is_found() {
    assert_eq!(find_bytes(b"nodepages/0.json.gz", b"nodepages"), Some(0));
    assert_eq!(find_bytes(b"layers/0/nodepages/3", b"nodepages"), Some(9));
    assert_eq!(find_bytes(b"abcabc", b"bc"), Some(1));
    assert_eq!(find_bytes(b"abcabc", b"c"), Some(2));
    assert_eq!(find_bytes(b"aab", b"ab"), Some(1));
}

#[test]
fn what_does_not_occur_is_not_found() {
    assert_eq!(find_bytes(b"nodes/1/geometries/0.bin.gz", b"nodepages"), None);
    assert_eq!(find_bytes(b"nodepage", b"nodepages"), None);
    assert_eq!(find_bytes(b"", b"a"), None);
    assert_eq!(find_bytes(b"ab", b"abc"), None);
}

#[test]
fn the_empty_needle_occurs_at_the_start() {
    assert_eq!(find_bytes(b"abc", b""), Some(0));
    assert_eq!(find_bytes(b"", b""), Some(0));
}

#[test]
fn leading_numbers_are_read() {
    assert_eq!(parse_leading_number(b"12.json.gz", 0), Some(12));
    assert_eq!(parse_leading_number(b"0", 0), Some(0));
    assert_eq!(parse_leading_number(b"007x", 0), Some(7));
    assert_eq!(parse_leading_number(b"nodepages/345", 10), Some(345));
    assert_eq!(parse_leading_number(b"18446744073709551615", 0), Some(usize::MAX));
}

#[test]
fn no_digit_is_no_number() {
    assert_eq!(parse_leading_number(b"x12", 0), None);
    assert_eq!(parse_leading_number(b"", 0), None);
    assert_eq!(parse_leading_number(b"12", 2), None);
    assert_eq!(parse_leading_number(b"-1", 0), None);
}

#[test]
fn a_number_that_does_not_fit_is_no_number() {
    assert_eq!(parse_leading_number(b"18446744073709551616", 0), None);
    assert_eq!(parse_leading_number(b"99999999999999999999999.json", 0), None);
    assert_eq!(parse_leading_number(b"184467440737095516150", 0), None);
}
