use gas_metering_cost::text::push_decimal;

fn decimal(n: u64) -> String {
    let mut s = String::new();
    push_decimal(&mut s, n);
    s
}

#[test]
fn decimal_single_digits() {
    assert_eq!(decimal(0), "0");
    assert_eq!(decimal(7), "7");
    assert_eq!(decimal(9), "9");
}

#[test]
fn decimal_multiple_digits() {
    assert_eq!(decimal(10), "10");
    assert_eq!(decimal(200), "200");
    assert_eq!(decimal(90210), "90210");
}

#[test]
fn decimal_largest_value() {
    assert_eq!(decimal(u64::MAX), "18446744073709551615");
}

#[test]
fn decimal_appends_after_existing_text() {
    let mut s = String::from("depth ");
    push_decimal(&mut s, 42);
    assert_eq!(s, "depth 42");
}
