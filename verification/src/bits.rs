//! Two's-complement helpers on 16-bit words.
use crate::vm::Lc3;
use vstd::prelude::*;

verus! {

/// Bit `width - 1` of `value`: the sign bit of a `width`-bit two's-complement
/// field held in the low bits of a word.
pub open spec fn sign_bit(value: u16, width: u16) -> bool {
    (value >> ((width - 1) as u16)) & 1 == 1
}

/// The mask of all bits above a `width`-bit field, that is bits `width..16`.
pub open spec fn bits_above(width: u16) -> u16 {
    if width < 16 {
        0xFFFFu16 << width
    } else {
        0
    }
}

/// The low `width` bits of `value` read as a two's-complement number and
/// widened to sixteen bits: when the field's sign bit is set, every higher bit
/// is set as well; otherwise the word is returned as it is.
pub open spec fn sign_extended(value: u16, width: u16) -> u16 {
    if sign_bit(value, width) {
        value | bits_above(width)
    } else {
        value
    }
}

/// The number of values that a field of `width` bits can hold: 2 to the power
/// `width`.
pub open spec fn field_size(width: u16) -> int {
    (1u32 << (width as u32)) as int
}

/// The number that the `width`-bit field `value` stands for in two's
/// complement: the upper half of the field's values stands for the negative
/// numbers.
pub open spec fn signed_value(value: u16, width: u16) -> int {
    if value >= field_size(width) / 2 {
        value - field_size(width)
    } else {
        value as int
    }
}

/// The character in the low byte of a word.
pub open spec fn low_byte(word: u16) -> u8 {
    (word & 0xFF) as u8
}

/// The character in the high byte of a word.
pub open spec fn high_byte(word: u16) -> u8 {
    (word >> 8) as u8
}

/// Both bytes of a word fit in a `u8`, and a word is zero exactly when both
/// of its bytes are.
pub proof fn lemma_bytes_of_word(word: u16)
    by (bit_vector)
    ensures
        word & 0xFF < 256,
        word >> 8 < 256,
        word == 0 <==> (word & 0xFF == 0 && word >> 8 == 0),
{
}

impl Lc3 {
    /// Whether the `bit_count`-bit field in the low bits of `x` is negative,
    /// that is whether bit `bit_count - 1` of `x` is set.
    pub fn is_negative(x: u16, bit_count: u16) -> (negative: bool)
        requires
            1 <= bit_count <= 16,
        ensures
            negative == sign_bit(x, bit_count),
    {
        ((x >> (bit_count - 1)) & 1) == 1
    }

    /// Sign-extends the `bit_count`-bit field in the low bits of `x` to
    /// sixteen bits. A word whose bit `bit_count - 1` is clear comes back
    /// unchanged; otherwise every bit from `bit_count` up is set in it.
    pub fn sign_extend(x: u16, bit_count: u16) -> (extended: u16)
        requires
            1 <= bit_count <= 16,
        ensures
            extended == sign_extended(x, bit_count),
            !sign_bit(x, bit_count) ==> extended == x,
            sign_bit(x, bit_count) ==> extended == x | bits_above(bit_count),
    {
        if bit_count < 16 && Self::is_negative(x, bit_count) {
            x | (u16::MAX << bit_count)
        } else {
            assert(x | 0u16 == x) by (bit_vector);
            x
        }
    }
}

} // verus!
