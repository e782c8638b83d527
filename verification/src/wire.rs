//! Byte order on the wire: every 16-bit field travels low byte first.

use vstd::prelude::*;

verus! {

/// The low byte of a 16-bit field.
pub open spec fn low_byte(v: u16) -> u8 {
    (v & 0xFF) as u8
}

/// The high byte of a 16-bit field.
pub open spec fn high_byte(v: u16) -> u8 {
    (v >> 8) as u8
}

/// The two bytes that carry `v` on the wire: low byte, then high byte.
pub open spec fn le_bytes_spec(v: u16) -> Seq<u8> {
    seq![low_byte(v), high_byte(v)]
}

/// Serialises a 16-bit field low byte first.
pub fn le_bytes(v: u16) -> (b: [u8; 2])
    ensures
        b@ == le_bytes_spec(v),
        b[0] == low_byte(v),
        b[1] == high_byte(v),
{
    let lo: u8 = (v & 0xFF) as u8;
    let hi: u8 = (v >> 8) as u8;
    let b: [u8; 2] = [lo, hi];
    assert(b@ =~= le_bytes_spec(v));
    b
}

/// The two bytes of a field determine it: the low byte counts ones, the
/// high byte counts multiples of 256.
pub proof fn le_bytes_value(v: u16)
    ensures
        le_bytes_spec(v).len() == 2,
        le_bytes_spec(v)[0] == v % 256,
        le_bytes_spec(v)[1] == v / 256,
        le_bytes_spec(v)[0] + 256 * le_bytes_spec(v)[1] == v,
{
    assert((v & 0xFF) as u8 == v % 256) by (bit_vector);
    assert((v >> 8) as u8 == v / 256) by (bit_vector);
}

/// Two fields with the same bytes on the wire are the same field.
pub proof fn le_bytes_injective(v: u16, w: u16)
    requires
        le_bytes_spec(v) == le_bytes_spec(w),
    ensures
        v == w,
{
    le_bytes_value(v);
    le_bytes_value(w);
}

} // verus!
