//! Helpers for assembling instruction fields out of hexadecimal digits.

use vstd::prelude::*;

verus! {

/// The byte that `make_byte(high, low)` yields: `high` moved up by one
/// hexadecimal digit, joined with `low`, cut to eight bits.
pub open spec fn byte_of(high: u16, low: u16) -> u8 {
    (((high << 4) | low) & 0xFF) as u8
}

/// The 16-bit value that `make_tribble(n1, n2, n3)` yields: `n1`, `n2` and
/// `n3` laid over each other at digit positions two, one and zero.
pub open spec fn tribble_of(n1: u16, n2: u16, n3: u16) -> u16 {
    (n1 << 8) | (n2 << 4) | n3
}

/// Joins two hexadecimal digits into a byte.
pub fn make_byte(high: u16, low: u16) -> (byte: u8)
    requires
        high <= 0xFF,
        low <= 0xFF,
    ensures
        byte == byte_of(high, low),
        high <= 0xF && low <= 0xF ==> byte == high * 16 + low,
{
    let joined: u16 = (high << 4) | low;
    assert((joined & 0xFF) < 0x100) by (bit_vector);
    assert(high <= 0xF && low <= 0xF ==> (((high << 4) | low) & 0xFF) == high * 16 + low)
        by (bit_vector);
    (joined & 0xFF) as u8
}

/// Joins three hexadecimal digits into a 12-bit value.
pub fn make_tribble(n1: u16, n2: u16, n3: u16) -> (tribble: u16)
    requires
        n1 <= 0xFF,
        n2 <= 0xFF,
        n3 <= 0xFF,
    ensures
        tribble == tribble_of(n1, n2, n3),
        n1 <= 0xF && n2 <= 0xF && n3 <= 0xF ==> tribble == n1 * 256 + n2 * 16 + n3,
{
    assert(n1 <= 0xF && n2 <= 0xF && n3 <= 0xF ==> ((n1 << 8) | (n2 << 4) | n3) == n1 * 256 + n2
        * 16 + n3) by (bit_vector);
    (n1 << 8) | (n2 << 4) | n3
}

} // verus!
