use nicer::text::{append_decimal, decimal_string};

#[test]
fn decimal_of_single_digits() {
    for (n, text) in [(0u32, "0"), (1, "1"), (2, "2"), (3, "3"), (4, "4"), (5, "5"), (6, "6"), (7, "7"), (8, "8"), (9, "9")] {
        assert_eq!(decimal_string(n), text);
    }
}

#[test]
fn decimal_of_longer_numbers() {
    assert_eq!(decimal_string(10), "10");
    assert_eq!(decimal_string(1234), "1234");
    assert_eq!(decimal_string(100000), "100000");
    assert_eq!(decimal_string(90210), "90210");
    assert_eq!(decimal_string(u32::MAX), "4294967295");
}

#[test]
fn decimal_agrees_with_std() {
    for n in (0u32..5000).chain([65535, 65536, 999_999_999, 1_000_000_000, u32::MAX - 1]) {
        assert_eq!(decimal_string(n), format!("{}", n));
    }
}

#[test]
fn append_decimal_keeps_what_was_there() {
    let mut out = String::from("pid ");
    append_decimal(&mut out, 4711);
    assert_eq!(out, "pid 4711");
    append_decimal(&mut out, 0);
    assert_eq!(out, "pid 47110");
}
