use workmate::text::push_decimal;

fn written(value: i64) -> String {
    let mut text = String::new();
    push_decimal(&mut text, value);
    text
}

#[test]
fn single_digits() {
    assert_eq!(written(0), "0");
    assert_eq!(written(7), "7");
    assert_eq!(written(9), "9");
}

#[test]
fn several_digits() {
    assert_eq!(written(10), "10");
    assert_eq!(written(1234567890), "1234567890");
    assert_eq!(written(1000000), "1000000");
}

#[test]
fn negative_numbers() {
    assert_eq!(written(-1), "-1");
    assert_eq!(written(-10), "-10");
    assert_eq!(written(-2147483649), "-2147483649");
}

#[test]
fn the_ends_of_the_range() {
    assert_eq!(written(i64::MAX), "9223372036854775807");
    assert_eq!(written(i64::MIN), "-9223372036854775808");
}

#[test]
fn writing_goes_behind_what_is_there() {
    let mut text = String::from("x = ");
    push_decimal(&mut text, 42);
    text.push_str(", y = ");
    push_decimal(&mut text, -42);
    assert_eq!(text, "x = 42, y = -42");
}

#[test]
fn decimal_agrees_with_the_standard_library() {
    let mut value: i64 = 1;
    for _ in 0..62 {
        assert_eq!(written(value), value.to_string());
        assert_eq!(written(-value), (-value).to_string());
        assert_eq!(written(value - 1), (value - 1).to_string());
        value *= 2;
    }
}
