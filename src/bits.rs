//! Byte and word helpers shared by the memory and the register file.

use vstd::prelude::*;

verus! {

/// The 16-bit word whose low byte is `low` and high byte is `high`.
pub open spec fn word(low: u8, high: u8) -> u16 {
    (high * 256 + low) as u16
}

/// The low byte of a word.
pub open spec fn low_byte(v: u16) -> u8 {
    (v % 256) as u8
}

/// The high byte of a word.
pub open spec fn high_byte(v: u16) -> u8 {
    (v / 256) as u8
}

/// The number of one bits in `v`.
pub open spec fn ones(v: nat) -> nat
    decreases v,
{
    if v == 0 {
        0
    } else {
        v % 2 + ones(v / 2)
    }
}

/// A byte has even parity when it holds an even number of one bits.
pub open spec fn even_parity(v: u8) -> bool {
    ones(v as nat) % 2 == 0
}

/// Joins a low and a high byte into one word.
pub fn u8_to_u16(low: u8, high: u8) -> (r: u16)
    ensures
        r == word(low, high),
        r == high * 256 + low,
{
    (high as u16) * 256 + (low as u16)
}

/// Splits a word into its high and its low byte, in that order.
pub fn u16_to_u8(v: u16) -> (r: (u8, u8))
    ensures
        r.0 == high_byte(v),
        r.1 == low_byte(v),
        v == r.0 * 256 + r.1,
{
    ((v / 256) as u8, (v % 256) as u8)
}

/// Whether `v` holds an even number of one bits.
pub fn is_even_parity(v: u8) -> (r: bool)
    ensures
        r == even_parity(v),
{
    let mut x: u8 = v;
    let mut n: u8 = 0;
    while x > 0
        invariant
            n + x <= v,
            n + ones(x as nat) == ones(v as nat),
        decreases x,
    {
        n = n + x % 2;
        x = x / 2;
    }
    n % 2 == 0
}

} // verus!
