use plasma_furnace::text::{append_decimal, append_signed, with_number};

#[test]
fn decimal_text_of_small_and_large_numbers() {
    assert_eq!(with_number("", 0), "0");
    assert_eq!(with_number("", 7), "7");
    assert_eq!(with_number("", 10), "10");
    assert_eq!(with_number("step ", 1234567890), "step 1234567890");
    assert_eq!(with_number("", usize::MAX), format!("{}", usize::MAX));
}

#[test]
fn decimal_text_is_appended() {
    let mut text = String::from("a");
    append_decimal(&mut text, 42);
    append_decimal(&mut text, 0);
    assert_eq!(text, "a420");
}

#[test]
fn signed_text_carries_the_sign() {
    let mut text = String::new();
    append_signed(&mut text, -1);
    text.push(' ');
    append_signed(&mut text, 0);
    text.push(' ');
    append_signed(&mut text, 305);
    text.push(' ');
    append_signed(&mut text, i32::MIN);
    text.push(' ');
    append_signed(&mut text, i32::MAX);
    assert_eq!(text, format!("-1 0 305 {} {}", i32::MIN, i32::MAX));
}
