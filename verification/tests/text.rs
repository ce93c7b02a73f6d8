use filetime_type::text::{compose_text, decimal_string};
use filetime_type::FileTime;

#[test]
fn decimal_of_small_and_large_numbers() {
    assert_eq!(decimal_string(0), "0");
    assert_eq!(decimal_string(7), "7");
    assert_eq!(decimal_string(10), "10");
    assert_eq!(decimal_string(1234567890), "1234567890");
    assert_eq!(decimal_string(u128::MAX), u128::MAX.to_string());
}

#[test]
fn compose_puts_the_parts_in_order() {
    assert_eq!(compose_text("then", 12, 345), "DateTime=then secs=12 nsecs=345");
    assert_eq!(compose_text("", 0, 0), "DateTime= secs=0 nsecs=0");
}

#[test]
fn text_of_a_known_value() {
    let ft = FileTime::from_i64(128930364000001000).unwrap();
    assert_eq!(
        ft.to_text(),
        "DateTime=2009-07-25 23:00:00.000100 UTC secs=12893036400 nsecs=100000"
    );
}

#[test]
fn text_of_the_epoch() {
    let ft = FileTime::from_i64(0).unwrap();
    assert_eq!(ft.to_text(), "DateTime=1601-01-01 00:00:00 UTC secs=0 nsecs=0");
}

#[test]
fn text_of_the_largest_value() {
    let ft = FileTime::from_i64(i64::MAX).unwrap();
    assert_eq!(
        ft.to_text(),
        "DateTime=+30828-09-14 02:48:05.477580700 UTC secs=922337203685 nsecs=477580700"
    );
}
