use chip8::alu::{add_with_carry, shift_left, shift_right, subtract_with_borrow};

#[test]
fn add_reports_carry() {
    assert_eq!(add_with_carry(0xFF, 0x01), (0x00, true));
    assert_eq!(add_with_carry(0x01, 0x01), (0x02, false));
    assert_eq!(add_with_carry(0xFF, 0xFF), (0xFE, true));
    assert_eq!(add_with_carry(0x80, 0x7F), (0xFF, false));
}

#[test]
fn subtract_reports_no_borrow() {
    assert_eq!(subtract_with_borrow(0x05, 0x03), (0x02, true));
    assert_eq!(subtract_with_borrow(0x03, 0x05), (0xFE, false));
    assert_eq!(subtract_with_borrow(0x07, 0x07), (0x00, true));
    assert_eq!(subtract_with_borrow(0x00, 0xFF), (0x01, false));
}

#[test]
fn shift_right_reports_low_bit() {
    assert_eq!(shift_right(0x03), (0x01, true));
    assert_eq!(shift_right(0x04), (0x02, false));
    assert_eq!(shift_right(0xFF), (0x7F, true));
    assert_eq!(shift_right(0x00), (0x00, false));
}

#[test]
fn shift_left_reports_high_bit() {
    assert_eq!(shift_left(0x81), (0x02, true));
    assert_eq!(shift_left(0x41), (0x82, false));
    assert_eq!(shift_left(0xFF), (0xFE, true));
}

#[test]
fn arithmetic_agrees_with_wrapping_operations() {
    for a in 0..=255u8 {
        for b in 0..=255u8 {
            assert_eq!(add_with_carry(a, b), a.overflowing_add(b));
            let (difference, borrowed) = a.overflowing_sub(b);
            assert_eq!(subtract_with_borrow(a, b), (difference, !borrowed));
        }
        assert_eq!(shift_right(a), (a >> 1, a & 1 == 1));
        assert_eq!(shift_left(a), (a << 1, a & 0x80 == 0x80));
    }
}
