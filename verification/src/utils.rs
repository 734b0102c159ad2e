//! Alignment and fixed-width integer helpers of the wire format.

use vstd::prelude::*;

verus! {

/// The number of zero bytes that bring an offset of `value` up to the next
/// multiple of eight.
pub open spec fn spec_padding_for_8_bytes(value: int) -> int {
    (8 - value % 8) % 8
}

/// The number of padding bytes needed after `value` bytes to reach an 8-byte
/// boundary.
pub fn padding_for_8_bytes(value: usize) -> (padding: usize)
    ensures
        padding == spec_padding_for_8_bytes(value as int),
        0 <= padding < 8,
{
    let rest: usize = value % 8;
    if rest == 0 {
        0
    } else {
        8 - rest
    }
}

/// Padding always lands on a boundary, is shorter than the alignment, and is
/// the least such number.
pub proof fn lemma_padding_for_8_bytes(value: int)
    requires
        value >= 0,
    ensures
        (value + spec_padding_for_8_bytes(value)) % 8 == 0,
        0 <= spec_padding_for_8_bytes(value) < 8,
        value % 8 == 0 ==> spec_padding_for_8_bytes(value) == 0,
{
}

} // verus!
