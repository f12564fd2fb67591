use fcheck::text::fmt_i32;
use fcheck::text::fmt_u64;
use fcheck::text::str_concat;
use fcheck::text::str_eq;

#[test]
fn t_fmt_u64() {
    assert_eq!(fmt_u64(0), "0");
    assert_eq!(fmt_u64(9), "9");
    assert_eq!(fmt_u64(10), "10");
    assert_eq!(fmt_u64(302), "302");
    assert_eq!(fmt_u64(u64::MAX), "18446744073709551615");
}

#[test]
fn t_fmt_i32() {
    assert_eq!(fmt_i32(0), "0");
    assert_eq!(fmt_i32(7), "7");
    assert_eq!(fmt_i32(-1), "-1");
    assert_eq!(fmt_i32(i32::MIN), "-2147483648");
    assert_eq!(fmt_i32(i32::MAX), "2147483647");
}

#[test]
fn t_str_concat() {
    assert_eq!(str_concat("", ""), "");
    assert_eq!(str_concat("ab", "cd"), "abcd");
}

#[test]
fn t_str_eq() {
    assert!(str_eq("", ""));
    assert!(str_eq("abc", "abc"));
    assert!(!str_eq("abc", "abd"));
    assert!(!str_eq("abc", "ab"));
}
