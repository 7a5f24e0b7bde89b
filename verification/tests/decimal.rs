use fibonacci::decimal::append_decimal;

fn written(value: u64) -> String {
    let mut text = String::new();
    append_decimal(&mut text, value);
    text
}

#[test]
fn zero_is_a_single_digit() {
    assert_eq!(written(0), "0");
}

#[test]
fn single_digits() {
    let expected = ["0", "1", "2", "3", "4", "5", "6", "7", "8", "9"];
    for d in 0..10u64 {
        assert_eq!(written(d), expected[d as usize]);
    }
}

#[test]
fn several_digits_most_significant_first() {
    assert_eq!(written(10), "10");
    assert_eq!(written(34), "34");
    assert_eq!(written(100), "100");
    assert_eq!(written(9075), "9075");
    assert_eq!(written(1234567890), "1234567890");
}

#[test]
fn largest_value() {
    assert_eq!(written(u64::MAX), "18446744073709551615");
}

#[test]
fn agrees_with_the_standard_formatting() {
    let mut value: u64 = 1;
    for _ in 0..64 {
        assert_eq!(written(value), format!("{}", value));
        assert_eq!(written(value - 1), format!("{}", value - 1));
        value = value.wrapping_mul(2);
    }
}

#[test]
fn keeps_what_was_there() {
    let mut text = String::from("n = ");
    append_decimal(&mut text, 42);
    assert_eq!(text, "n = 42");
    append_decimal(&mut text, 0);
    assert_eq!(text, "n = 420");
}
