use vstd::arithmetic::power2::{lemma2_to64, lemma_pow2_pos, lemma_pow2_unfold, pow2};
use vstd::bits::{
    low_bits_mask, lemma_u32_low_bits_mask_is_mod, lemma_u32_pow2_no_overflow,
    lemma_u32_shl_is_mul, lemma_u32_shr_is_div,
};
use vstd::prelude::*;

verus! {

/// The `width` bits of `word` that start at bit `lo` (bit 0 is the least significant).
pub open spec fn bits(word: u32, lo: nat, width: nat) -> nat {
    (word as nat / pow2(lo)) % pow2(width)
}

/// The value of a `width`-bit two's-complement number whose bit pattern is `raw`.
pub open spec fn signed_value(raw: nat, width: nat) -> int {
    if raw < pow2((width - 1) as nat) {
        raw as int
    } else {
        raw - pow2(width)
    }
}

/// A 32-bit word read as a signed number.
pub open spec fn signed(word: u32) -> int {
    signed_value(word as nat, 32)
}

/// `x` reduced modulo 2^32: the result of 32-bit wrapping arithmetic.
pub open spec fn wrap32(x: int) -> u32 {
    (x % 0x1_0000_0000) as u32
}

/// Shift-and-mask form of `bits`, for a mask of `width` low ones.
pub proof fn lemma_bits_shift_mask(word: u32, lo: u32, width: u32, mask: u32)
    requires
        lo < 32,
        0 < width < 32,
        mask + 1 == pow2(width as nat),
    ensures
        (word >> lo) & mask == bits(word, lo as nat, width as nat),
{
    lemma_u32_shr_is_div(word, lo);
    lemma_u32_pow2_no_overflow(width as nat);
    lemma_u32_low_bits_mask_is_mod(word >> lo, width as nat);
    assert(mask == low_bits_mask(width as nat) as u32);
}

/// Extracts the `width` bits of `word` that start at bit `lo`.
pub fn field(word: u32, lo: u32, width: u32) -> (r: u32)
    requires
        lo < 32,
        0 < width < 32,
    ensures
        r == bits(word, lo as nat, width as nat),
{
    proof {
        lemma_u32_pow2_no_overflow(width as nat);
        lemma_u32_shl_is_mul(1, width);
        lemma_bits_shift_mask(word, lo, width, ((1u32 << width) - 1) as u32);
    }
    (word >> lo) & ((1u32 << width) - 1)
}

/// Sign-extends the `width`-bit pattern `raw`.
pub fn sign_extend(raw: u32, width: u32) -> (r: i32)
    requires
        0 < width < 32,
        raw < pow2(width as nat),
    ensures
        r == signed_value(raw as nat, width as nat),
{
    proof {
        lemma_u32_pow2_no_overflow((width - 1) as nat);
        lemma_u32_shl_is_mul(1, (width - 1) as u32);
        lemma_pow2_unfold(width as nat);
        lemma2_to64();
        lemma_pow2_pos((width - 1) as nat);
        if width < 31 {
            vstd::arithmetic::power2::lemma_pow2_strictly_increases(width as nat, 31);
        }
    }
    let half: u32 = 1u32 << (width - 1);
    if raw < half {
        raw as i32
    } else {
        (raw as i64 - 2 * (half as i64)) as i32
    }
}

/// Reads a 32-bit word as a signed number.
pub fn as_signed(word: u32) -> (r: i32)
    ensures
        r == signed(word),
{
    proof {
        lemma2_to64();
    }
    if word < 0x8000_0000 {
        word as i32
    } else {
        (word as i64 - 0x1_0000_0000) as i32
    }
}

/// The 32-bit pattern of a signed number (two's complement).
pub fn as_unsigned(value: i32) -> (r: u32)
    ensures
        r == wrap32(value as int),
{
    if value >= 0 {
        value as u32
    } else {
        (value as i64 + 0x1_0000_0000) as u32
    }
}

/// A 12-bit immediate whose bit 11 is clear keeps its value when sign-extended;
/// one whose bit 11 is set becomes its value minus 4096.
pub proof fn lemma_sign_extend_12(x: u32)
    requires
        x < 4096,
    ensures
        bits(x, 11, 1) == 0 ==> signed_value(x as nat, 12) == x,
        bits(x, 11, 1) == 1 ==> signed_value(x as nat, 12) == x - 4096,
{
    lemma2_to64();
}

} // verus!
