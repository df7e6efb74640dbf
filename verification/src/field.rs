//! Bit fields: runs of bits within one byte of a register.
//!
//! A field is given by its mask, the bits of the byte that belong to it. A
//! value is written to a field by moving it up to the lowest bit of the mask,
//! and read from it by moving the bits under the mask down again; the bits
//! outside the mask stay as they are.

use vstd::prelude::*;
use crate::error::{RangeError, ValidationError};

verus! {

/// Position of the lowest set bit of `mask`; 8 for the empty mask.
pub open spec fn field_shift(mask: u8) -> u8 {
    vstd::std_specs::bits::u8_trailing_zeros(mask) as u8
}

/// The largest value a field can hold: its mask moved down to bit 0.
pub open spec fn field_max(mask: u8) -> u8 {
    mask >> field_shift(mask)
}

/// `mask` is one unbroken run of set bits: moved down to bit 0 it is one less
/// than a power of two.
pub open spec fn is_contiguous(mask: u8) -> bool {
    mask != 0 && field_max(mask) & ((field_max(mask) + 1) as u8) == 0
}

/// `byte` with the field under `mask` replaced by `value`.
pub open spec fn field_insert(mask: u8, value: u8, byte: u8) -> u8 {
    (byte & !mask) | (value << field_shift(mask))
}

/// The value that `byte` holds in the field under `mask`.
pub open spec fn field_extract(mask: u8, byte: u8) -> u8 {
    (byte & mask) >> field_shift(mask)
}

/// The facts about writing and reading a field on which the laws below
/// rest, for a mask that is one run of bits beginning at `shift`.
proof fn lemma_field_bits(mask: u8, shift: u8, value: u8, byte: u8)
    by (bit_vector)
    requires
        shift < 8,
        (mask >> shift) & 1 == 1,
        mask << ((8 - shift) as u8) == 0,
        (mask >> shift) & (((mask >> shift) + 1) as u8) == 0,
        value <= mask >> shift,
    ensures
        (((byte & !mask) | (value << shift)) & mask) >> shift == value,
        ((byte & !mask) | (value << shift)) & !mask == byte & !mask,
        ((byte & !mask) | (value << shift)) & mask == value << shift,
        (byte & mask) >> shift <= mask >> shift,
{
}

/// Written to a zero byte, a field is the value moved to its place.
proof fn lemma_with(mask: u8, shift: u8, value: u8)
    by (bit_vector)
    requires
        shift < 8,
    ensures
        (0u8 & !mask) | (value << shift) == value << shift,
{
}

/// A field holds a value other than zero exactly if one of its bits is set.
proof fn lemma_nonzero(mask: u8, shift: u8, byte: u8)
    by (bit_vector)
    requires
        shift < 8,
        mask << ((8 - shift) as u8) == 0,
    ensures
        ((byte & mask) >> shift != 0) == (byte & mask != 0),
{
}

/// What is known of the shift of a non-empty mask.
pub proof fn lemma_shift(mask: u8)
    requires
        mask != 0,
    ensures
        field_shift(mask) < 8,
        (mask >> field_shift(mask)) & 1 == 1,
        mask << ((8 - field_shift(mask)) as u8) == 0,
{
    vstd::std_specs::bits::axiom_u8_trailing_zeros(mask);
}

/// A contiguous mask has no gaps: with any two bits of it, it holds every
/// bit between them.
pub proof fn lemma_contiguous_has_no_gaps(mask: u8, low: u8, between: u8, high: u8)
    requires
        is_contiguous(mask),
        low <= between <= high < 8,
        (mask >> low) & 1 == 1,
        (mask >> high) & 1 == 1,
    ensures
        (mask >> between) & 1 == 1,
{
    lemma_shift(mask);
    let shift = field_shift(mask);
    assert((mask >> between) & 1 == 1) by (bit_vector)
        requires
            shift < 8,
            (mask >> shift) & (((mask >> shift) + 1) as u8) == 0,
            low <= between <= high < 8,
            (mask >> low) & 1 == 1,
            (mask >> high) & 1 == 1,
            mask << ((8 - shift) as u8) == 0,
    ;
}

/// Reading a field back after writing it gives the value written.
pub proof fn lemma_insert_then_extract(mask: u8, value: u8, byte: u8)
    requires
        is_contiguous(mask),
        value <= field_max(mask),
    ensures
        field_extract(mask, field_insert(mask, value, byte)) == value,
{
    lemma_shift(mask);
    lemma_field_bits(mask, field_shift(mask), value, byte);
}

/// Writing a field leaves every bit outside its mask as it was.
pub proof fn lemma_insert_keeps_other_bits(mask: u8, value: u8, byte: u8)
    requires
        is_contiguous(mask),
        value <= field_max(mask),
    ensures
        field_insert(mask, value, byte) & !mask == byte & !mask,
{
    lemma_shift(mask);
    lemma_field_bits(mask, field_shift(mask), value, byte);
}

/// What writing `value` to the field under `mask` gives: the byte with the
/// field replaced, or, for a value that does not fit, the value together
/// with the largest one that does.
pub open spec fn field_apply(mask: u8, value: u8, byte: u8) -> Result<u8, RangeError> {
    if value <= field_max(mask) {
        Ok(field_insert(mask, value, byte))
    } else {
        Err(RangeError { value, max: field_max(mask) })
    }
}

/// One run of bits within a byte.
#[derive(Clone, Copy, Debug, PartialEq, Eq, Hash)]
pub struct BitField {
    bits: u8,
}

impl View for BitField {
    type V = u8;

    /// The mask of the field.
    closed spec fn view(&self) -> u8 {
        self.bits
    }
}

impl BitField {
    #[verifier::type_invariant]
    spec fn unbroken(self) -> bool {
        is_contiguous(self.bits)
    }

    /// The field with the mask `bits`. A mask that is empty or has a gap is
    /// refused.
    pub fn new(bits: u8) -> (r: Result<BitField, ValidationError>)
        ensures
            is_contiguous(bits) ==> r is Ok && r->Ok_0@ == bits,
            !is_contiguous(bits) ==> r == Err::<BitField, ValidationError>(
                ValidationError::Field { bits },
            ),
    {
        if bits == 0 {
            return Err(ValidationError::Field { bits });
        }
        proof {
            lemma_shift(bits);
            assert(255u8 & ((255u8 + 1) as u8) == 0) by (bit_vector);
        }
        let low = bits >> bits.trailing_zeros();
        if low != u8::MAX && low & (low + 1) != 0 {
            return Err(ValidationError::Field { bits });
        }
        Ok(BitField { bits })
    }

    /// The mask of the field: one unbroken run of bits.
    pub fn bits(&self) -> (r: u8)
        ensures
            r == self@,
            is_contiguous(r),
    {
        proof {
            use_type_invariant(self);
        }
        self.bits
    }

    /// Replaces the field in `to_byte` by `value` and leaves the other bits
    /// alone. A value too large for the field is refused.
    ///
    /// With the mask `0b0000_1100`, the value `0b10` and the byte
    /// `0b1111_1111` the result is `0b1111_1011`.
    pub fn apply(&self, value: u8, to_byte: u8) -> (r: Result<u8, RangeError>)
        ensures
            r == field_apply(self@, value, to_byte),
    {
        let bits = self.bits();
        proof {
            lemma_shift(bits);
        }
        let shift = bits.trailing_zeros();
        let max = bits >> shift;
        if value > max {
            return Err(RangeError { value, max });
        }
        Ok((to_byte & !bits) | (value << shift))
    }

    /// Moves `value` to the position of the field, all other bits zero. A
    /// value too large for the field is refused.
    pub fn with(&self, value: u8) -> (r: Result<u8, RangeError>)
        ensures
            r == field_apply(self@, value, 0),
            r matches Ok(byte) ==> byte == value << field_shift(self@),
    {
        let bits = self.bits();
        proof {
            lemma_shift(bits);
            lemma_with(bits, field_shift(bits), value);
        }
        let shift = bits.trailing_zeros();
        let max = bits >> shift;
        if value > max {
            return Err(RangeError { value, max });
        }
        Ok(value << shift)
    }

    /// The value that `byte` holds in the field: its bits under the mask,
    /// moved down to bit 0.
    ///
    /// With the mask `0b0000_1100` and the byte `0b1100_1100` the result is
    /// `0b11`.
    pub fn value(&self, byte: u8) -> (r: u8)
        ensures
            r == field_extract(self@, byte),
            r <= field_max(self@),
    {
        let bits = self.bits();
        proof {
            lemma_shift(bits);
            lemma_field_bits(bits, field_shift(bits), 0, byte);
        }
        (byte & bits) >> bits.trailing_zeros()
    }

    /// Whether any bit of the field is set in `byte`.
    pub fn is_set(&self, byte: u8) -> (r: bool)
        ensures
            r == (field_extract(self@, byte) != 0),
            r == (byte & self@ != 0),
    {
        let bits = self.bits();
        proof {
            lemma_shift(bits);
            lemma_nonzero(bits, field_shift(bits), byte);
        }
        self.value(byte) > 0
    }
}

} // verus!
