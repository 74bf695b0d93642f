use gb_core::text::{digit_char, push_decimal, push_hexadecimal, push_hexadecimal_list};

#[test]
fn digits_are_lower_case() {
    let expected = "0123456789abcdef";
    for (d, ch) in expected.chars().enumerate() {
        assert_eq!(digit_char(d as u8), ch);
    }
}

#[test]
fn decimal_matches_the_standard_rendering() {
    for value in [0u16, 1, 9, 10, 11, 99, 100, 101, 255, 256, 999, 1000, 9999, 10000, 65535] {
        let mut text = String::from("=");
        push_decimal(&mut text, value);
        assert_eq!(text, format!("={}", value));
    }
}

#[test]
fn hexadecimal_matches_the_standard_rendering() {
    for value in 0..=255u8 {
        let mut text = String::new();
        push_hexadecimal(&mut text, value);
        assert_eq!(text, format!("{:x}", value));
    }
}

#[test]
fn hexadecimal_list_separates_with_comma_and_space() {
    let mut text = String::from("[");
    push_hexadecimal_list(&mut text, &vec![]);
    assert_eq!(text, "[");
    push_hexadecimal_list(&mut text, &vec![0xAB]);
    assert_eq!(text, "[ab");
    let mut text = String::new();
    push_hexadecimal_list(&mut text, &vec![0x00, 0x0F, 0x10, 0xFF]);
    assert_eq!(text, "0, f, 10, ff");
}
