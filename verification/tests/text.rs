use fundamental::text::{format_thousandths, push_decimal};

#[test]
fn thousandths_are_shown_with_three_decimal_places() {
    assert_eq!(format_thousandths(10), "0.010");
    assert_eq!(format_thousandths(0), "0.000");
    assert_eq!(format_thousandths(1), "0.001");
    assert_eq!(format_thousandths(100), "0.100");
    assert_eq!(format_thousandths(999), "0.999");
    assert_eq!(format_thousandths(1_000), "1.000");
    assert_eq!(format_thousandths(1_005), "1.005");
    assert_eq!(format_thousandths(1_234_567), "1234.567");
    assert_eq!(format_thousandths(u32::MAX), "4294967.295");
}

#[test]
fn thousandths_agree_with_the_decimal_fraction() {
    for n in [0u32, 9, 10, 11, 99, 100, 101, 999, 1_000, 12_345, 4_000_000_000] {
        let expected = format!("{}.{:03}", n / 1000, n % 1000);
        assert_eq!(format_thousandths(n), expected);
    }
}

#[test]
fn decimal_numerals_have_no_leading_zeros() {
    for n in [0u32, 7, 10, 42, 100, 1_009, 65_536, u32::MAX] {
        let mut out = String::new();
        push_decimal(&mut out, n);
        assert_eq!(out, format!("{}", n));
    }
}

#[test]
fn decimal_numerals_are_appended() {
    let mut out = String::from("speed ");
    push_decimal(&mut out, 120);
    push_decimal(&mut out, 5);
    assert_eq!(out, "speed 1205");
}
