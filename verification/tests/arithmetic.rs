use chip8::alu::{
    add_with_carry, shift_left, shift_right, sub_with_borrow, wrapping_offset, wrapping_sum,
};
use chip8::font::glyph_addr;

#[test]
fn sums_wrap_at_eight_bits() {
    assert_eq!(wrapping_sum(0xFF, 0x02), 0x01);
    assert_eq!(wrapping_sum(0x80, 0x80), 0x00);
    assert_eq!(wrapping_sum(0x12, 0x34), 0x46);
    assert_eq!(add_with_carry(0xFF, 0x01), (0x00, true));
    assert_eq!(add_with_carry(0x01, 0x01), (0x02, false));
    assert_eq!(add_with_carry(0xFF, 0xFF), (0xFE, true));
    assert_eq!(add_with_carry(0xFF, 0x00), (0xFF, false));
}

#[test]
fn differences_wrap_and_flag_no_borrow() {
    assert_eq!(sub_with_borrow(9, 4), (5, true));
    assert_eq!(sub_with_borrow(4, 9), (0xFB, false));
    assert_eq!(sub_with_borrow(7, 7), (0, true));
    assert_eq!(sub_with_borrow(0, 0xFF), (1, false));
}

#[test]
fn shifts_hand_out_the_lost_bit() {
    assert_eq!(shift_right(0x05), (0x02, true));
    assert_eq!(shift_right(0x04), (0x02, false));
    assert_eq!(shift_right(0xFF), (0x7F, true));
    assert_eq!(shift_left(0xC1), (0x82, true));
    assert_eq!(shift_left(0x41), (0x82, false));
    assert_eq!(shift_left(0x80), (0x00, true));
}

#[test]
fn addresses_wrap_at_sixteen_bits() {
    assert_eq!(wrapping_offset(0x0FFF, 0xFF), 0x10FE);
    assert_eq!(wrapping_offset(0xFFFF, 0x01), 0x0000);
    assert_eq!(wrapping_offset(0xFF80, 0xFF), 0x007F);
}

#[test]
fn glyphs_lie_five_bytes_apart() {
    assert_eq!(glyph_addr(0x0), 0);
    assert_eq!(glyph_addr(0x1), 5);
    assert_eq!(glyph_addr(0xF), 75);
    assert_eq!(glyph_addr(0x10), 0);
    assert_eq!(glyph_addr(0xFA), 50);
}
