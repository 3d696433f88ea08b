//! The built-in hexadecimal font.

use vstd::prelude::*;

verus! {

/// Bytes in one font sprite.
pub const GLYPH_BYTES: u16 = 5;

/// Bytes in the whole font: sixteen sprites.
pub const FONT_BYTES: usize = 80;

/// The sprites of the digits `0` to `F`, five rows each, in digit order.
pub const FONT: [u8; 80] = [
    0xF0, 0x90, 0x90, 0x90, 0xF0,
    0x20, 0x60, 0x20, 0x20, 0x70,
    0xF0, 0x10, 0xF0, 0x80, 0xF0,
    0xF0, 0x10, 0xF0, 0x10, 0xF0,
    0x90, 0x90, 0xF0, 0x10, 0x10,
    0xF0, 0x80, 0xF0, 0x10, 0xF0,
    0xF0, 0x80, 0xF0, 0x90, 0xF0,
    0xF0, 0x10, 0x20, 0x40, 0x40,
    0xF0, 0x90, 0xF0, 0x90, 0xF0,
    0xF0, 0x90, 0xF0, 0x10, 0xF0,
    0xF0, 0x90, 0xF0, 0x90, 0x90,
    0xE0, 0x90, 0xE0, 0x90, 0xE0,
    0xF0, 0x80, 0x80, 0x80, 0xF0,
    0xE0, 0x90, 0x90, 0x90, 0xE0,
    0xF0, 0x80, 0xF0, 0x80, 0xF0,
    0xF0, 0x80, 0xF0, 0x80, 0x80,
];

/// The address of the sprite of a digit. Only the low four bits of `digit`
/// select the sprite, so every byte names one.
pub open spec fn glyph_address(digit: u8) -> u16 {
    ((digit % 16) * 5) as u16
}

/// Computes the address of the sprite of a digit.
pub fn glyph_addr(digit: u8) -> (addr: u16)
    ensures
        addr == glyph_address(digit),
        addr + GLYPH_BYTES <= FONT_BYTES,
{
    let low: u16 = (digit % 16) as u16;
    low * GLYPH_BYTES
}

} // verus!
