use timetable::color::HexColor;

#[test]
fn six_digits_with_hash_default_alpha() {
    let c = HexColor::from_hex("#FF8800").unwrap();
    assert_eq!(c.to_tuple(), (255, 136, 0, 255));
}

#[test]
fn eight_digits_without_hash_read_alpha() {
    let c = HexColor::from_hex("ff8800cc").unwrap();
    assert_eq!(c.to_tuple(), (255, 136, 0, 204));
    assert_eq!(c, HexColor { r: 255, g: 136, b: 0, a: 204 });
}

#[test]
fn mixed_case_digits_are_read() {
    let c = HexColor::from_hex("#aBcDeF09").unwrap();
    assert_eq!(c.to_tuple(), (0xAB, 0xCD, 0xEF, 0x09));
}

#[test]
fn encode_is_hash_and_eight_upper_case_digits() {
    let c = HexColor { r: 0, g: 10, b: 171, a: 255 };
    assert_eq!(c.to_hex(), "#000AABFF");
    let d = HexColor { r: 1, g: 35, b: 69, a: 103 };
    assert_eq!(d.to_hex(), "#01234567");
}

#[test]
fn decode_then_encode_keeps_six_digits_and_adds_alpha() {
    assert_eq!(HexColor::from_hex("1a2b3c").unwrap().to_hex(), "#1A2B3CFF");
    assert_eq!(HexColor::from_hex("#1a2b3c").unwrap().to_hex(), "#1A2B3CFF");
    assert_eq!(HexColor::from_hex("#1a2b3c4d").unwrap().to_hex(), "#1A2B3C4D");
    assert_eq!(HexColor::from_hex("1A2B3C4D").unwrap().to_hex(), "#1A2B3C4D");
}

#[test]
fn encode_then_decode_gives_the_colour_back() {
    let c = HexColor { r: 18, g: 52, b: 86, a: 120 };
    assert_eq!(HexColor::from_hex(&c.to_hex()).unwrap(), c);
}

#[test]
fn malformed_colour_names_the_red_channel() {
    assert_eq!(HexColor::from_hex("#ZZZZZZ").unwrap_err(), "Invalid red value");
}

#[test]
fn each_channel_is_named_in_its_error() {
    assert_eq!(HexColor::from_hex("#FFZZ00").unwrap_err(), "Invalid green value");
    assert_eq!(HexColor::from_hex("#FFFFZZ").unwrap_err(), "Invalid blue value");
    assert_eq!(HexColor::from_hex("#FFFFFFZZ").unwrap_err(), "Invalid alpha value");
}

#[test]
fn too_few_digits_name_the_first_incomplete_channel() {
    assert_eq!(HexColor::from_hex("").unwrap_err(), "Invalid red value");
    assert_eq!(HexColor::from_hex("#").unwrap_err(), "Invalid red value");
    assert_eq!(HexColor::from_hex("F").unwrap_err(), "Invalid red value");
    assert_eq!(HexColor::from_hex("FFF").unwrap_err(), "Invalid green value");
    assert_eq!(HexColor::from_hex("#FFFFF").unwrap_err(), "Invalid blue value");
}

#[test]
fn a_sign_is_no_digit() {
    assert_eq!(HexColor::from_hex("+F0000").unwrap_err(), "Invalid red value");
}

#[test]
fn only_one_hash_is_stripped() {
    assert_eq!(HexColor::from_hex("##FFFFFF").unwrap_err(), "Invalid red value");
}

#[test]
fn alpha_is_read_from_exactly_eight_digits_only() {
    assert_eq!(HexColor::from_hex("1122334").unwrap().to_tuple(), (0x11, 0x22, 0x33, 255));
    assert_eq!(HexColor::from_hex("112233445").unwrap().to_tuple(), (0x11, 0x22, 0x33, 255));
    assert_eq!(HexColor::from_hex("#11223344").unwrap().to_tuple(), (0x11, 0x22, 0x33, 0x44));
}
