//! Bit-level facts shared by the register encoders.
use vstd::prelude::*;

verus! {

/// Setting or clearing the bits of a mask touches only those bits.
pub proof fn lemma_mask_set_clear(x: u32, m: u32)
    by (bit_vector)
    ensures
        (x | m) & m == m,
        (x | m) & !m == x & !m,
        (x & !m) & m == 0,
        (x & !m) & !m == x & !m,
        (x | m) | m == x | m,
        ((x | m) & !m) == x & !m,
        ((x & !m) | m) == x | m,
        x & m == m ==> (x & !m) | m == x,
        x & m == 0 ==> (x | m) & !m == x,
        (x | m) & x == x,
{
}

/// A masked value is no larger than the mask or the value.
pub proof fn lemma_and_le(x: u32, m: u32)
    by (bit_vector)
    ensures
        x & m <= m,
        x & m <= x,
{
}

/// A value that fits 16 bits is its own low half and has a zero high half.
pub proof fn lemma_u16_halves(x: u32)
    by (bit_vector)
    requires
        x <= 0xFFFF,
    ensures
        x & 0xFFFF == x,
        (x >> 16u32) & 0xFFFF == 0,
{
}

} // verus!
