use vstd::prelude::*;

verus! {

/// Register value `reg` with the bits of `clear` cleared and `val << shift`
/// or-ed in: a read-modify-write of one bit field.
pub open spec fn field_u32(reg: u32, clear: u32, shift: u32, val: u32) -> u32 {
    (reg & !clear) | (val << shift)
}

/// Sixteen-bit version of [`field_u32`].
pub open spec fn field_u16(reg: u16, clear: u16, shift: u16, val: u16) -> u16 {
    (reg & !clear) | (val << shift)
}

/// Eight-bit version of [`field_u32`].
pub open spec fn field_u8(reg: u8, clear: u8, shift: u8, val: u8) -> u8 {
    (reg & !clear) | (val << shift)
}

/// Replaces the bit field `clear` of `reg` by `val << shift`.
pub fn set_field_u32(reg: u32, clear: u32, shift: u32, val: u32) -> (r: u32)
    requires
        shift < 32,
    ensures
        r == field_u32(reg, clear, shift, val),
{
    (reg & !clear) | (val << shift)
}

/// Replaces the bit field `clear` of `reg` by `val << shift`.
pub fn set_field_u16(reg: u16, clear: u16, shift: u16, val: u16) -> (r: u16)
    requires
        shift < 16,
    ensures
        r == field_u16(reg, clear, shift, val),
{
    (reg & !clear) | (val << shift)
}

/// Replaces the bit field `clear` of `reg` by `val << shift`.
pub fn set_field_u8(reg: u8, clear: u8, shift: u8, val: u8) -> (r: u8)
    requires
        shift < 8,
    ensures
        r == field_u8(reg, clear, shift, val),
{
    (reg & !clear) | (val << shift)
}

/// A value that fits its field reads back from it, and the bits outside the
/// field keep their old values.
pub proof fn lemma_field_u32(reg: u32, clear: u32, shift: u32, val: u32)
    by (bit_vector)
    requires
        shift < 32,
        (val << shift) & !clear == 0,
        (val << shift) >> shift == val,
    ensures
        (field_u32(reg, clear, shift, val) & clear) >> shift == val,
        field_u32(reg, clear, shift, val) & !clear == reg & !clear,
{
}

/// A value that fits its field reads back from it, and the bits outside the
/// field keep their old values.
pub proof fn lemma_field_u16(reg: u16, clear: u16, shift: u16, val: u16)
    by (bit_vector)
    requires
        shift < 16,
        (val << shift) & !clear == 0,
        (val << shift) >> shift == val,
    ensures
        (field_u16(reg, clear, shift, val) & clear) >> shift == val,
        field_u16(reg, clear, shift, val) & !clear == reg & !clear,
{
}

/// A value that fits its field reads back from it, and the bits outside the
/// field keep their old values.
pub proof fn lemma_field_u8(reg: u8, clear: u8, shift: u8, val: u8)
    by (bit_vector)
    requires
        shift < 8,
        (val << shift) & !clear == 0,
        (val << shift) >> shift == val,
    ensures
        (field_u8(reg, clear, shift, val) & clear) >> shift == val,
        field_u8(reg, clear, shift, val) & !clear == reg & !clear,
{
}

} // verus!
