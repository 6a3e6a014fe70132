//! Read-modify-write of memory-mapped register fields.
use vstd::prelude::*;

verus! {

/// `reg` with the field of (right-aligned) mask `mask` at bit `offset` set to `value`.
pub open spec fn field_set(reg: u32, offset: u32, mask: u32, value: u32) -> u32 {
    (reg & !(mask << offset)) | ((value & mask) << offset)
}

/// The field of mask `mask` at bit `offset` of `reg`.
pub open spec fn field_get(reg: u32, offset: u32, mask: u32) -> u32 {
    (reg >> offset) & mask
}

/// A field mask is a run of low one bits that fits the register from `offset` up.
pub open spec fn field_fits(offset: u32, mask: u32) -> bool {
    &&& offset < 32
    &&& mask & ((mask + 1) as u32) == 0
    &&& mask <= (0xffff_ffffu32 >> offset)
}

/// Writes `value` into the field of mask `mask` at bit `offset` of `reg`,
/// leaving every other bit as it was.
pub fn with_field(reg: u32, offset: u32, mask: u32, value: u32) -> (r: u32)
    requires
        offset < 32,
    ensures
        r == field_set(reg, offset, mask, value),
{
    (reg & !(mask << offset)) | ((value & mask) << offset)
}

/// Reading a field back gives what was written, cut to the field's width, and
/// every bit outside the field keeps its value.
pub proof fn lemma_field_set_get(reg: u32, offset: u32, mask: u32, value: u32)
    requires
        field_fits(offset, mask),
    ensures
        field_get(field_set(reg, offset, mask, value), offset, mask) == value & mask,
        field_set(reg, offset, mask, value) & !(mask << offset) == reg & !(mask << offset),
{
    assert(((((reg & !(mask << offset)) | ((value & mask) << offset)) >> offset) & mask) == value
        & mask) by (bit_vector)
        requires
            offset < 32,
            mask & ((mask + 1) as u32) == 0,
            mask <= (0xffff_ffffu32 >> offset),
    ;
    assert((((reg & !(mask << offset)) | ((value & mask) << offset)) & !(mask << offset)) == reg
        & !(mask << offset)) by (bit_vector);
}

} // verus!
