use chip8::text::{hex_digit_str, hex_len, push_decimal, push_hex, push_hex_digits};

#[test]
fn hex_digits_are_upper_case() {
    let expected = [
        "0", "1", "2", "3", "4", "5", "6", "7", "8", "9", "A", "B", "C", "D", "E", "F",
    ];
    for d in 0..16u8 {
        assert_eq!(hex_digit_str(d), expected[d as usize]);
    }
}

#[test]
fn hex_is_prefixed_and_padded_with_spaces() {
    let mut out = String::new();
    push_hex(&mut out, 0x6005, 6);
    assert_eq!(out, "0x6005");
    let mut out = String::new();
    push_hex(&mut out, 0x00E0, 6);
    assert_eq!(out, "  0xE0");
    let mut out = String::new();
    push_hex(&mut out, 0x5, 4);
    assert_eq!(out, " 0x5");
    let mut out = String::new();
    push_hex(&mut out, 0x0, 5);
    assert_eq!(out, "  0x0");
    let mut out = String::from("at ");
    push_hex(&mut out, 0xFFFF, 4);
    assert_eq!(out, "at 0xFFFF");
}

#[test]
fn hex_agrees_with_the_standard_formatter() {
    for v in 0..=0xFFFFu16 {
        let mut four = String::new();
        push_hex(&mut four, v, 4);
        assert_eq!(four, format!("{:#4X}", v));
        let mut five = String::new();
        push_hex(&mut five, v, 5);
        assert_eq!(five, format!("{:#5X}", v));
        let mut six = String::new();
        push_hex(&mut six, v, 6);
        assert_eq!(six, format!("{:#6X}", v));
        let mut bare = String::new();
        push_hex_digits(&mut bare, v);
        assert_eq!(bare, format!("{:1X}", v));
        assert_eq!(hex_len(v), bare.len());
    }
}

#[test]
fn decimal_agrees_with_the_standard_formatter() {
    for v in 0..=255u8 {
        let mut out = String::new();
        push_decimal(&mut out, v);
        assert_eq!(out, format!("{}", v));
    }
    let mut out = String::from("n=");
    push_decimal(&mut out, 205);
    assert_eq!(out, "n=205");
}
