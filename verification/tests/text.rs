use amp_mate::controller::protocol::digits::decimal_string;
use amp_mate::controller::protocol::text::{
    bytes_equal, equal_ignoring_case, find_byte, lower, read_numeral, Numeral,
};

#[test]
fn compares_bytes() {
    assert!(bytes_equal(b"power", b"power"));
    assert!(!bytes_equal(b"power", b"Power"));
    assert!(!bytes_equal(b"power", b"powe"));
    assert!(bytes_equal(b"", b""));
}

#[test]
fn compares_ignoring_case() {
    assert!(equal_ignoring_case(b"DoWn", b"down"));
    assert!(equal_ignoring_case(b"on", b"ON"));
    assert!(!equal_ignoring_case(b"on", b"off"));
    assert!(!equal_ignoring_case(b"on", b"onn"));
    assert!(!equal_ignoring_case(b"[", b"{"));
    assert!(!equal_ignoring_case(b"@", b"`"));
    assert_eq!(lower(b'A'), b'a');
    assert_eq!(lower(b'Z'), b'z');
    assert_eq!(lower(b'a'), b'a');
    assert_eq!(lower(b'@'), b'@');
    assert_eq!(lower(b'['), b'[');
    assert_eq!(lower(0xc9), 0xc9);
}

#[test]
fn finds_first_byte() {
    assert_eq!(find_byte(b"a=b=c", b'='), Some(1));
    assert_eq!(find_byte(b"=", b'='), Some(0));
    assert_eq!(find_byte(b"abc", b'='), None);
    assert_eq!(find_byte(b"", b'='), None);
}

#[test]
fn reads_numerals() {
    assert_eq!(read_numeral(b"0", 96), Numeral::Within(0));
    assert_eq!(read_numeral(b"96", 96), Numeral::Within(96));
    assert_eq!(read_numeral(b"0096", 96), Numeral::Within(96));
    assert_eq!(read_numeral(b"+5", 96), Numeral::Within(5));
    assert_eq!(read_numeral(b"255", 255), Numeral::Within(255));
    assert_eq!(read_numeral(b"256", 255), Numeral::AboveLimit);
    assert_eq!(read_numeral(b"97", 96), Numeral::AboveLimit);
    assert_eq!(read_numeral(b"1000000000000000000000", 96), Numeral::AboveLimit);
    assert_eq!(read_numeral(b"", 96), Numeral::Malformed);
    assert_eq!(read_numeral(b"+", 96), Numeral::Malformed);
    assert_eq!(read_numeral(b"++5", 96), Numeral::Malformed);
    assert_eq!(read_numeral(b"-5", 96), Numeral::Malformed);
    assert_eq!(read_numeral(b"5a", 96), Numeral::Malformed);
    assert_eq!(read_numeral(b"100a", 96), Numeral::Malformed);
    assert_eq!(read_numeral(b" 5", 96), Numeral::Malformed);
    assert_eq!(read_numeral(b"5/", 96), Numeral::Malformed);
    assert_eq!(read_numeral(b"5:", 96), Numeral::Malformed);
}

#[test]
fn writes_decimals() {
    assert_eq!(decimal_string(0), "0");
    assert_eq!(decimal_string(9), "9");
    assert_eq!(decimal_string(10), "10");
    assert_eq!(decimal_string(96), "96");
    assert_eq!(decimal_string(100), "100");
    assert_eq!(decimal_string(205), "205");
    assert_eq!(decimal_string(255), "255");
}
