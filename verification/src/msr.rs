//! Values of model-specific registers and the bit-fields inside them.
//!
//! A register value is 64 bits wide. The driver reports it as two halves: the
//! low 32 bits (`eax`) and the high 32 bits (`edx`).

use vstd::arithmetic::power2::{lemma2_to64, lemma2_to64_rest, lemma_pow2_pos, lemma_pow2_strictly_increases, pow2};
use vstd::bits::{lemma_u64_low_bits_mask_is_mod, lemma_u64_pow2_no_overflow, lemma_u64_shl_is_mul, lemma_u64_shr_is_div, low_bits_mask};
use vstd::prelude::*;

verus! {

/// The field of `width` bits that starts at bit `shift` of `value`: the
/// number that is left when the `shift` lowest bits are dropped and of the
/// rest only the `width` lowest are kept.
pub open spec fn bit_field(value: u64, shift: u32, width: u32) -> nat {
    (value as nat / pow2(shift as nat)) % pow2(width as nat)
}

/// The low 32 bits of a register value.
pub open spec fn low_half_of(value: u64) -> u32 {
    (value % 0x1_0000_0000) as u32
}

/// The high 32 bits of a register value.
pub open spec fn high_half_of(value: u64) -> u32 {
    (value / 0x1_0000_0000) as u32
}

/// Extracts a bit-field: `(value >> shift) & ((1 << width) - 1)`, for every
/// shift and width. A field that starts past bit 63 is zero, and a field of
/// 64 bits or more is all that is left after the shift.
pub fn extract(value: u64, shift: u32, width: u32) -> (field: u64)
    ensures
        field == bit_field(value, shift, width),
        shift < 64 && width < 64 ==> field == (value >> shift) & (((1u64 << width) - 1) as u64),
        width < 64 ==> field < pow2(width as nat),
{
    proof {
        lemma_pow2_pos(shift as nat);
        lemma_pow2_pos(width as nat);
        lemma2_to64();
        lemma2_to64_rest();
    }
    if shift >= 64 {
        proof {
            if shift > 64 {
                lemma_pow2_strictly_increases(64, shift as nat);
            }
            vstd::arithmetic::div_mod::lemma_basic_div(value as int, pow2(shift as nat) as int);
            vstd::arithmetic::div_mod::lemma_small_mod(0, pow2(width as nat));
        }
        return 0;
    }
    let s: u64 = shift as u64;
    let shifted: u64 = value >> s;
    proof {
        lemma_u64_shr_is_div(value, s);
        assert(value >> shift == value >> s) by (bit_vector)
            requires
                s == shift,
        ;
    }
    if width >= 64 {
        proof {
            if width > 64 {
                lemma_pow2_strictly_increases(64, width as nat);
            }
            vstd::arithmetic::div_mod::lemma_small_mod(shifted as nat, pow2(width as nat));
        }
        return shifted;
    }
    let w: u64 = width as u64;
    proof {
        lemma_u64_pow2_no_overflow(width as nat);
        lemma_u64_shl_is_mul(1, w);
        assert(1u64 << width == 1u64 << w) by (bit_vector)
            requires
                w == width,
        ;
        assert((1u64 << w) - 1 == low_bits_mask(width as nat));
        lemma_u64_low_bits_mask_is_mod(shifted, width as nat);
        vstd::arithmetic::div_mod::lemma_mod_bound(shifted as int, pow2(width as nat) as int);
    }
    let mask: u64 = (1u64 << w) - 1;
    shifted & mask
}

/// The low 32 bits of a register value: what the driver reports in `eax`.
pub fn low_half(value: u64) -> (half: u32)
    ensures
        half == low_half_of(value),
        half == bit_field(value, 0, 32),
{
    proof {
        assert(value & 0xffff_ffff == value % 0x1_0000_0000) by (bit_vector);
        lemma2_to64();
        assert(pow2(0) == 1 && pow2(32) == 0x1_0000_0000);
    }
    (value & 0xffff_ffff) as u32
}

/// The high 32 bits of a register value: what the driver reports in `edx`.
pub fn high_half(value: u64) -> (half: u32)
    ensures
        half == high_half_of(value),
        half == bit_field(value, 32, 32),
{
    proof {
        assert(value >> 32 == value / 0x1_0000_0000) by (bit_vector);
        lemma2_to64();
        assert(pow2(32) == 0x1_0000_0000);
    }
    (value >> 32) as u32
}

/// A register value is its two halves put together.
pub proof fn lemma_halves_make_value(value: u64)
    ensures
        value == high_half_of(value) * 0x1_0000_0000 + low_half_of(value),
{
}

/// A field that lies inside the low half of a value is the same field of
/// the low half alone.
pub proof fn lemma_field_of_low_half(value: u64, shift: u32, width: u32)
    requires
        shift + width <= 32,
    ensures
        bit_field(low_half_of(value) as u64, shift, width) == bit_field(value, shift, width),
{
    let low = low_half_of(value) as u64;
    let s: u64 = shift as u64;
    let w: u64 = width as u64;
    lemma_u64_shr_is_div(value, s);
    lemma_u64_shr_is_div(low, s);
    lemma_u64_low_bits_mask_is_mod(value >> s, width as nat);
    lemma_u64_low_bits_mask_is_mod(low >> s, width as nat);
    lemma_u64_pow2_no_overflow(width as nat);
    lemma_u64_shl_is_mul(1, w);
    assert((1u64 << w) - 1 == low_bits_mask(width as nat));
    let mask: u64 = ((1u64 << w) - 1) as u64;
    assert(((value % 0x1_0000_0000) >> s) & mask == (value >> s) & mask) by (bit_vector)
        requires
            s + w <= 32,
            mask == (1u64 << w) - 1,
    ;
}

} // verus!
