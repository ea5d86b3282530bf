use timetable::text::{decimal_string, digit_str, hex_digit_value, padded_decimal_string, push_hex_pair};

#[test]
fn digits_are_upper_case() {
    assert_eq!(digit_str(0), "0");
    assert_eq!(digit_str(9), "9");
    assert_eq!(digit_str(10), "A");
    assert_eq!(digit_str(15), "F");
}

#[test]
fn hex_digits_are_read_in_either_case() {
    assert_eq!(hex_digit_value('0'), Some(0));
    assert_eq!(hex_digit_value('9'), Some(9));
    assert_eq!(hex_digit_value('a'), Some(10));
    assert_eq!(hex_digit_value('F'), Some(15));
    assert_eq!(hex_digit_value('g'), None);
    assert_eq!(hex_digit_value('#'), None);
    assert_eq!(hex_digit_value('+'), None);
}

#[test]
fn decimal_numbers() {
    assert_eq!(decimal_string(0), "0");
    assert_eq!(decimal_string(7), "7");
    assert_eq!(decimal_string(10), "10");
    assert_eq!(decimal_string(4294967295), "4294967295");
    assert_eq!(padded_decimal_string(7), "07");
    assert_eq!(padded_decimal_string(59), "59");
    assert_eq!(padded_decimal_string(100), "100");
}

#[test]
fn hex_pairs_are_appended() {
    let mut s = String::from("x");
    push_hex_pair(&mut s, 0x0f);
    push_hex_pair(&mut s, 0xa0);
    assert_eq!(s, "x0FA0");
}
