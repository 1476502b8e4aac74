use sloop::colored;
use sloop::fmt_i32;
use sloop::fmt_u64;

#[test]
fn decimal_digits() {
    assert_eq!(fmt_u64(0), "0");
    assert_eq!(fmt_u64(7), "7");
    assert_eq!(fmt_u64(10), "10");
    assert_eq!(fmt_u64(1234567890), "1234567890");
    assert_eq!(fmt_u64(u64::MAX), "18446744073709551615");
}

#[test]
fn signed_decimal() {
    assert_eq!(fmt_i32(0), "0");
    assert_eq!(fmt_i32(-1), "-1");
    assert_eq!(fmt_i32(-42), "-42");
    assert_eq!(fmt_i32(i32::MIN), "-2147483648");
    assert_eq!(fmt_i32(i32::MAX), "2147483647");
}

#[test]
fn truecolor_escape() {
    assert_eq!(colored(155, 255, 155, "x"), "\u{1b}[38;2;155;255;155mx\u{1b}[0m");
    assert_eq!(colored(0, 0, 0, ""), "\u{1b}[38;2;0;0;0m\u{1b}[0m");
}

#[test]
fn truecolor_escape_passes_channels_through() {
    assert_eq!(colored(-5, 1000, 7, "hi"), "\u{1b}[38;2;-5;1000;7mhi\u{1b}[0m");
}
