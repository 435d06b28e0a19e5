//! Bit masks and sign extension shared by the decoders and executors.

use vstd::prelude::*;

verus! {

pub const MASK_3BIT: u64 = 0b111;

pub const MASK_4BIT: u64 = 0b1111;

pub const MASK_5BIT: u64 = 0b11111;

pub const MASK_6BIT: u64 = 0b111111;

pub const MASK_12BIT: u64 = 0b111111111111;

/// The value whose low `nbits` bits are those of `value` and whose remaining
/// high bits all repeat bit `nbits - 1` of `value`.
pub open spec fn sign_extended(value: u64, nbits: u32) -> u64
    recommends
        1 <= nbits <= 64,
{
    if nbits >= 64 {
        value
    } else if (value >> ((nbits - 1) as u32)) & 1 == 1 {
        value | !low_mask(nbits)
    } else {
        value & low_mask(nbits)
    }
}

/// The mask that has exactly the low `nbits` bits set.
pub open spec fn low_mask(nbits: u32) -> u64
    recommends
        nbits <= 64,
{
    if nbits >= 64 {
        0xffff_ffff_ffff_ffffu64
    } else {
        ((1u64 << nbits) - 1) as u64
    }
}

/// Reinterprets the low `nbits` bits of `value` as a two's-complement number
/// and widens it to 64 bits.
pub fn extend_sign(value: u64, nbits: u32) -> (extended: u64)
    requires
        1 <= nbits <= 64,
    ensures
        extended == sign_extended(value, nbits),
{
    let shamt: u32 = 64 - nbits;
    let shifted: u64 = if shamt == 0 { value } else { value << shamt };
    let target: i64 = shifted as i64;
    let widened: i64 = if shamt == 0 { target } else { target >> shamt };
    let extended: u64 = widened as u64;
    assert(extended == sign_extended(value, nbits)) by (bit_vector)
        requires
            1 <= nbits <= 64,
            shamt == 64 - nbits,
            shifted == (if shamt == 0 { value } else { value << shamt }),
            target == shifted as i64,
            widened == (if shamt == 0 { target } else { target >> shamt }),
            extended == widened as u64,
    ;
    extended
}

/// Sign extension is idempotent under truncation: cutting an extended value
/// back to its low `nbits` bits and extending again gives the same value.
pub proof fn lemma_sign_extension_survives_truncation(value: u64, nbits: u32)
    by (bit_vector)
    requires
        1 <= nbits <= 64,
    ensures
        sign_extended(sign_extended(value, nbits) & low_mask(nbits), nbits) == sign_extended(
            value,
            nbits,
        ),
        sign_extended(value, nbits) & low_mask(nbits) == value & low_mask(nbits),
{
}

} // verus!
