//! The arithmetic of the machine: sums, differences and shifts of bytes,
//! each with the flag that it raises.

use vstd::prelude::*;

verus! {

/// The sum of `a` and `b`, cut to a byte, and whether it did not fit.
pub fn add_with_carry(a: u8, b: u8) -> (r: (u8, bool))
    ensures
        r.0 == (a + b) % 256,
        r.1 == (a + b > 255),
{
    let sum: u16 = a as u16 + b as u16;
    ((sum % 256) as u8, sum > 255)
}

/// `a` less `b`, taken around zero where `b` is the greater, and whether
/// nothing had to be borrowed.
pub fn subtract_with_borrow(a: u8, b: u8) -> (r: (u8, bool))
    ensures
        r.0 == (a - b) % 256,
        r.1 == (a >= b),
{
    if a >= b {
        (a - b, true)
    } else {
        ((256 + a as u16 - b as u16) as u8, false)
    }
}

/// `v` shifted right by one, and whether the bit that fell out was set.
pub fn shift_right(v: u8) -> (r: (u8, bool))
    ensures
        r.0 == v / 2,
        r.1 == (v % 2 == 1),
{
    assert(v >> 1 == v / 2 && ((v & 1 == 1) == (v % 2 == 1))) by (bit_vector);
    (v >> 1, v & 1 == 1)
}

/// `v` shifted left by one, and whether the bit that fell out was set.
pub fn shift_left(v: u8) -> (r: (u8, bool))
    ensures
        r.0 == (v * 2) % 256,
        r.1 == (v >= 128),
{
    assert(v << 1 == (v * 2) % 256 && (((v & 0x80) >> 7 == 1) == (v >= 128))) by (bit_vector);
    (v << 1, (v & 0x80) >> 7 == 1)
}

} // verus!
