//! The arithmetic of the register instructions. Registers are eight bits
//! wide; every result wraps at eight bits, and the flag is found from the
//! operands, before the result is cut to size.

use vstd::prelude::*;

verus! {

/// The sum of two registers, wrapped.
pub open spec fn sum(a: u8, b: u8) -> u8 {
    ((a + b) % 256) as u8
}

/// Whether the sum of two registers does not fit in a register.
pub open spec fn carry(a: u8, b: u8) -> bool {
    a + b > 255
}

/// The difference `a - b` of two registers, wrapped.
pub open spec fn difference(a: u8, b: u8) -> u8 {
    ((a - b) % 256) as u8
}

/// Whether `a - b` needs no borrow.
pub open spec fn no_borrow(a: u8, b: u8) -> bool {
    a >= b
}

/// A register shifted right by one bit.
pub open spec fn halved(a: u8) -> u8 {
    a / 2
}

/// Whether the lowest bit of a register is set.
pub open spec fn low_bit(a: u8) -> bool {
    a % 2 == 1
}

/// A register shifted left by one bit, wrapped.
pub open spec fn doubled(a: u8) -> u8 {
    (a * 2 % 256) as u8
}

/// Whether the highest bit of a register is set.
pub open spec fn high_bit(a: u8) -> bool {
    a >= 128
}

/// An address moved on by a register, wrapped at sixteen bits.
pub open spec fn offset(addr: u16, by: u8) -> u16 {
    ((addr + by) % 0x10000) as u16
}

/// Moves an address on by a register.
pub fn wrapping_offset(addr: u16, by: u8) -> (moved: u16)
    ensures
        moved == offset(addr, by),
{
    addr.wrapping_add(by as u16)
}

/// Adds two registers without a flag.
pub fn wrapping_sum(a: u8, b: u8) -> (value: u8)
    ensures
        value == sum(a, b),
{
    a.wrapping_add(b)
}

/// Adds two registers. The flag is the carry.
pub fn add_with_carry(a: u8, b: u8) -> (out: (u8, bool))
    ensures
        out.0 == sum(a, b),
        out.1 == carry(a, b),
{
    let wide: u16 = a as u16 + b as u16;
    ((wide % 256) as u8, wide > 255)
}

/// Subtracts `b` from `a`. The flag is set unless a borrow occurred.
pub fn sub_with_borrow(a: u8, b: u8) -> (out: (u8, bool))
    ensures
        out.0 == difference(a, b),
        out.1 == no_borrow(a, b),
{
    (a.wrapping_sub(b), a >= b)
}

/// Shifts a register right by one bit. The flag is the bit shifted out.
pub fn shift_right(a: u8) -> (out: (u8, bool))
    ensures
        out.0 == halved(a),
        out.1 == low_bit(a),
{
    assert(a >> 1 == a / 2 && (a & 1 == 1 <==> a % 2 == 1)) by (bit_vector);
    (a >> 1, a & 1 == 1)
}

/// Shifts a register left by one bit. The flag is the bit shifted out.
pub fn shift_left(a: u8) -> (out: (u8, bool))
    ensures
        out.0 == doubled(a),
        out.1 == high_bit(a),
{
    assert(a << 1 == a * 2 % 256 && (a & 0x80 != 0 <==> a >= 128)) by (bit_vector);
    (a << 1, a & 0x80 != 0)
}

} // verus!
