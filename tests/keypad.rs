use chip8::keypad::parse_key;

#[test]
fn digits_map_to_low_keys() {
    assert_eq!(parse_key('0' as i32), Some(0));
    assert_eq!(parse_key('1' as i32), Some(1));
    assert_eq!(parse_key('9' as i32), Some(9));
}

#[test]
fn letters_map_to_high_keys() {
    assert_eq!(parse_key('a' as i32), Some(10));
    assert_eq!(parse_key('f' as i32), Some(15));
}

#[test]
fn other_codes_map_to_nothing() {
    assert_eq!(parse_key('g' as i32), None);
    assert_eq!(parse_key('/' as i32), None);
    assert_eq!(parse_key(27), None);
    assert_eq!(parse_key(-1), None);
}
