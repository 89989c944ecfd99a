//! Bridge lemmas between the bit-level idioms of the executable code
//! (masks, shifts, bitwise or) and the arithmetic form (quotient,
//! remainder) used by the specification model.

use vstd::prelude::*;

verus! {

/// The low byte of a 16-bit value: masking with 0x00FF is reduction mod 256.
pub proof fn lemma_u16_low_mask(v: u16)
    by (bit_vector)
    ensures
        v & 0x00FF == v % 256,
{
}

/// The page bits of a 16-bit value: masking with 0xFF00 keeps 256 times the page number.
pub proof fn lemma_u16_high_mask(v: u16)
    by (bit_vector)
    ensures
        v & 0xFF00 == (v / 256) * 256,
{
}

/// Mirroring mask for the 2KB internal RAM region.
pub proof fn lemma_u16_ram_mask(v: u16)
    by (bit_vector)
    ensures
        v & 0x07FF == v % 0x800,
{
}

/// Little-endian composition of two bytes into a 16-bit word.
pub proof fn lemma_word_combine(lo: u8, hi: u8)
    by (bit_vector)
    ensures
        (hi as u16) << 8 | (lo as u16) == hi * 256 + lo,
{
}

/// Bit 7 of a byte is its sign bit.
pub proof fn lemma_u8_bit7(v: u8)
    by (bit_vector)
    ensures
        (v & 0x80 != 0) <==> v >= 128,
{
}

/// Bit 7 of a 16-bit value agrees with the sign bit of its low byte.
pub proof fn lemma_u16_bit7(v: u16)
    by (bit_vector)
    ensures
        (v & 0x80 != 0) <==> v % 256 >= 128,
{
}

/// Bit 6 of a byte.
pub proof fn lemma_u8_bit6(v: u8)
    by (bit_vector)
    ensures
        (v & 0x40 != 0) <==> (v / 64) % 2 == 1,
{
}

/// Bit 0 of a byte is its parity.
pub proof fn lemma_u8_bit0(v: u8)
    by (bit_vector)
    ensures
        (v & 0x01 != 0) <==> v % 2 == 1,
{
}

/// Xor with an all-ones byte is the ones' complement.
pub proof fn lemma_u8_xor_ff(v: u8)
    by (bit_vector)
    ensures
        v ^ 0xFF == 255 - v,
{
}

/// A left shift by one truncates to the doubled value mod 256.
pub proof fn lemma_u8_shl1(v: u8)
    by (bit_vector)
    ensures
        v << 1 == (v * 2) % 256,
{
}

/// A left shift by one with a carry shifted into bit 0.
pub proof fn lemma_u8_shl1_carry(v: u8, c: u8)
    by (bit_vector)
    requires
        c <= 1,
    ensures
        v << 1 | c == (v * 2 + c) % 256,
{
}

/// A right shift by one halves.
pub proof fn lemma_u8_shr1(v: u8)
    by (bit_vector)
    ensures
        v >> 1 == v / 2,
{
}

/// A right shift by one with a carry shifted into bit 7.
pub proof fn lemma_u8_shr1_carry(v: u8, c: u8)
    by (bit_vector)
    requires
        c <= 1,
    ensures
        v >> 1 | c << 7 == v / 2 + c * 128,
{
}

/// The high byte of a 16-bit value.
pub proof fn lemma_u16_shr8(v: u16)
    by (bit_vector)
    ensures
        v >> 8 == v / 256,
{
}

/// Filling the high byte of a zero-extended byte with ones adds 0xFF00.
pub proof fn lemma_u16_or_high(off: u8)
    by (bit_vector)
    ensures
        (off as u16) | 0xFF00 == off + 0xFF00,
{
}

/// Shifting a byte into the high half multiplies by 256.
pub proof fn lemma_u16_shl8(hi: u8)
    by (bit_vector)
    ensures
        (hi as u16) << 8 == hi * 256,
{
}

/// The mask-based page comparison agrees with comparing the high byte.
pub proof fn lemma_page_compare(eff: u16, hi: u8)
    by (bit_vector)
    ensures
        (eff & 0xFF00 != (hi as u16) << 8) <==> eff / 256 != hi,
{
}

/// The sign-overflow bit test used by ADC and SBC: the test on the
/// 16-bit intermediate sum holds exactly when the two addends share a
/// sign and the truncated result has the other sign.
pub proof fn lemma_overflow_flag(a: u8, m: u8, s: u16)
    by (bit_vector)
    ensures
        ((!(a as u16 ^ m as u16) & (a as u16 ^ s)) & 0x80 != 0) <==> (((a >= 128) <==> (m
            >= 128)) && !((a >= 128) <==> (s % 256 >= 128))),
{
}

} // verus!
