use cybulous::text::{decimal_string, push_decimal};

#[test]
fn numerals_have_no_leading_zeros() {
    assert_eq!(decimal_string(0), "0");
    assert_eq!(decimal_string(7), "7");
    assert_eq!(decimal_string(9), "9");
    assert_eq!(decimal_string(10), "10");
    assert_eq!(decimal_string(21), "21");
    assert_eq!(decimal_string(99), "99");
    assert_eq!(decimal_string(100), "100");
    assert_eq!(decimal_string(109), "109");
    assert_eq!(decimal_string(255), "255");
}

#[test]
fn every_numeral_is_the_one_of_its_number() {
    for n in 0u8..=255 {
        assert_eq!(decimal_string(n), format!("{}", n));
    }
}

#[test]
fn numeral_is_appended_to_what_is_there() {
    let mut text = String::from("age:");
    push_decimal(&mut text, 25);
    assert_eq!(text, "age:25");
    push_decimal(&mut text, 0);
    assert_eq!(text, "age:250");
}
