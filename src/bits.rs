use vstd::prelude::*;

verus! {

/// The field of `raw` that starts at bit `shift` and is `mask` wide
/// (`mask` is one less than a power of two).
pub open spec fn field(raw: u8, shift: u8, mask: u8) -> u8 {
    (raw >> shift) & mask
}

/// `raw` with the field at `shift` replaced by `value`.
pub open spec fn with_field(raw: u8, shift: u8, mask: u8, value: u8) -> u8 {
    (raw & !(mask << shift)) | ((value & mask) << shift)
}

/// The number of bits of a field mask, or zero where `mask` is no run of ones
/// starting at bit zero.
pub open spec fn width(mask: u8) -> u8 {
    if mask == 1 {
        1
    } else if mask == 3 {
        2
    } else if mask == 7 {
        3
    } else if mask == 15 {
        4
    } else if mask == 63 {
        6
    } else if mask == 127 {
        7
    } else {
        0
    }
}

/// Whether the field `(shift, mask)` is a field of a byte.
pub open spec fn is_field(shift: u8, mask: u8) -> bool {
    width(mask) > 0 && shift + width(mask) <= 8
}

/// Whether the fields `(s1, m1)` and `(s2, m2)` share no bit.
pub open spec fn disjoint(s1: u8, m1: u8, s2: u8, m2: u8) -> bool {
    s1 + width(m1) <= s2 || s2 + width(m2) <= s1
}

pub fn get_field(raw: u8, shift: u8, mask: u8) -> (r: u8)
    requires
        shift < 8,
    ensures
        r == field(raw, shift, mask),
{
    (raw >> shift) & mask
}

pub fn set_field(raw: u8, shift: u8, mask: u8, value: u8) -> (r: u8)
    requires
        shift < 8,
    ensures
        r == with_field(raw, shift, mask, value),
{
    (raw & !(mask << shift)) | ((value & mask) << shift)
}

/// A field reads back what was written to it, and no field disjoint from it
/// changes. A field never exceeds its mask.
pub proof fn lemma_with_field(raw: u8, shift: u8, mask: u8, value: u8, s2: u8, m2: u8)
    requires
        is_field(shift, mask),
        is_field(s2, m2),
        value <= mask,
    ensures
        field(with_field(raw, shift, mask, value), shift, mask) == value,
        disjoint(shift, mask, s2, m2) ==> field(with_field(raw, shift, mask, value), s2, m2)
            == field(raw, s2, m2),
        field(raw, shift, mask) <= mask,
{
    assert(field(with_field(raw, shift, mask, value), shift, mask) == value
        && (disjoint(shift, mask, s2, m2) ==> field(with_field(raw, shift, mask, value), s2, m2)
        == field(raw, s2, m2)) && field(raw, shift, mask) <= mask) by (bit_vector)
        requires
            is_field(shift, mask),
            is_field(s2, m2),
            value <= mask,
    ;
}

/// A field never exceeds its mask.
pub proof fn lemma_field_bound(raw: u8, shift: u8, mask: u8)
    requires
        shift < 8,
    ensures
        field(raw, shift, mask) <= mask,
{
    assert(field(raw, shift, mask) <= mask) by (bit_vector)
        requires
            shift < 8,
    ;
}

/// Every field of the zero byte is zero.
pub proof fn lemma_field_of_zero(shift: u8, mask: u8)
    requires
        shift < 8,
    ensures
        field(0, shift, mask) == 0,
{
    assert(field(0, shift, mask) == 0) by (bit_vector)
        requires
            shift < 8,
    ;
}

} // verus!
