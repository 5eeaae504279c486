//! Packing and unpacking of 16-bit values.

use vstd::prelude::*;

verus! {

/// The 16-bit value whose high byte is `hi` and whose low byte is `lo`.
pub open spec fn pack(hi: u8, lo: u8) -> u16 {
    (hi as int * 256 + lo as int) as u16
}

/// The high byte of `value`.
pub open spec fn high_byte(value: u16) -> u8 {
    (value as int / 256) as u8
}

/// The low byte of `value`.
pub open spec fn low_byte(value: u16) -> u8 {
    (value as int % 256) as u8
}

/// Joins two bytes into a 16-bit value, high byte first.
pub fn as_u16(hi: u8, lo: u8) -> (value: u16)
    ensures
        value == pack(hi, lo),
        value as int == hi as int * 256 + lo as int,
{
    let wide_hi: u16 = hi as u16;
    let wide_lo: u16 = lo as u16;
    assert(wide_hi << 8 == wide_hi * 256) by (bit_vector)
        requires
            wide_hi < 256,
    ;
    assert((wide_hi << 8) | wide_lo == (wide_hi << 8) + wide_lo) by (bit_vector)
        requires
            wide_hi < 256,
            wide_lo < 256,
    ;
    (wide_hi << 8) | wide_lo
}

/// Splits a 16-bit value into its high and low byte.
pub fn hilo(value: u16) -> (bytes: (u8, u8))
    ensures
        bytes.0 == high_byte(value),
        bytes.1 == low_byte(value),
        pack(bytes.0, bytes.1) == value,
{
    assert(value >> 8 == value / 256) by (bit_vector);
    assert(value & 0xFF == value % 256) by (bit_vector);
    let hi: u8 = (value >> 8) as u8;
    let lo: u8 = (value & 0xFF) as u8;
    (hi, lo)
}

/// Packing the two halves of a value gives the value back, and the halves of
/// a packed pair are the pair.
pub proof fn lemma_pack_split(hi: u8, lo: u8, value: u16)
    ensures
        pack(high_byte(value), low_byte(value)) == value,
        high_byte(pack(hi, lo)) == hi,
        low_byte(pack(hi, lo)) == lo,
{
}

} // verus!
