use lobsters_web::text::push_decimal;

fn decimal(n: u32) -> String {
    let mut s = String::new();
    push_decimal(&mut s, n);
    s
}

#[test]
fn decimal_of_single_digits() {
    assert_eq!(decimal(0), "0");
    assert_eq!(decimal(7), "7");
    assert_eq!(decimal(9), "9");
}

#[test]
fn decimal_of_longer_numbers() {
    assert_eq!(decimal(10), "10");
    assert_eq!(decimal(42), "42");
    assert_eq!(decimal(1000), "1000");
    assert_eq!(decimal(90210), "90210");
    assert_eq!(decimal(u32::MAX), "4294967295");
}

#[test]
fn decimal_matches_the_standard_rendering() {
    for n in [0u32, 1, 9, 10, 11, 99, 100, 101, 12345, 999999, 1000000, u32::MAX - 1] {
        assert_eq!(decimal(n), format!("{}", n));
    }
}

#[test]
fn push_decimal_appends() {
    let mut s = String::from("user");
    push_decimal(&mut s, 305);
    assert_eq!(s, "user305");
    push_decimal(&mut s, 0);
    assert_eq!(s, "user3050");
}
