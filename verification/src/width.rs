//! Narrowing of counts and machine words to the 32 bits in which the host reads them.

use vstd::prelude::*;

verus! {

/// The low 32 bits of a number.
pub open spec fn low_32(n: int) -> int {
    n % 0x1_0000_0000
}

/// The low 32 bits of a 64-bit word.
pub fn low_u32(word: u64) -> (low: u32)
    ensures
        low == low_32(word as int),
{
    let masked: u64 = word & 0xffff_ffff;
    assert(masked == word % 0x1_0000_0000) by (bit_vector)
        requires
            masked == word & 0xffff_ffff,
    ;
    masked as u32
}

/// The low 32 bits of a count.
pub fn count_low_u32(n: usize) -> (low: u32)
    ensures
        low == low_32(n as int),
{
    low_u32(n as u64)
}

} // verus!
