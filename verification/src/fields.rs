//! Named bitfields inside a 32-bit register cell.
//!
//! A field is an `(offset, width)` sub-range of a register's bits. Reads and
//! writes always move the whole 32-bit cell; callers mask and shift through
//! these helpers.

use vstd::prelude::*;

verus! {

/// A named sub-range of a register's bits: `width` bits starting at bit
/// `offset`.
#[derive(Clone, Copy, PartialEq, Eq, Structural)]
pub struct Field {
    pub offset: u32,
    pub width: u32,
}

/// A well-formed field has at least one bit and lies inside the 32-bit cell.
pub open spec fn field_wf(f: Field) -> bool {
    1 <= f.width && f.offset + f.width <= 32
}

/// The field's mask, right-aligned: `width` one bits.
pub open spec fn mask_bits(width: u32) -> u32 {
    ((1u64 << width) - 1) as u32
}

/// The value of field `f` inside `cell`.
pub open spec fn spec_extract_field(cell: u32, f: Field) -> u32 {
    (cell >> f.offset) & mask_bits(f.width)
}

/// `cell` with field `f` replaced by the low `f.width` bits of `value`; all
/// bits outside the field keep their old value.
pub open spec fn spec_insert_field(cell: u32, f: Field, value: u32) -> u32 {
    (cell & !(mask_bits(f.width) << f.offset)) | ((value << f.offset) & (mask_bits(f.width)
        << f.offset))
}

/// An extracted field value never exceeds the field's mask.
pub proof fn lemma_extract_field_bound(cell: u32, f: Field)
    ensures
        spec_extract_field(cell, f) <= mask_bits(f.width),
{
    let off = f.offset;
    let w = f.width;
    assert((cell >> off) & (((1u64 << w) - 1) as u32) <= ((1u64 << w) - 1) as u32) by (bit_vector);
}

/// Writing a field and reading it back yields the written value truncated to
/// the field's width; a value that fits the field round-trips exactly.
pub proof fn lemma_insert_extract_field(cell: u32, f: Field, value: u32)
    requires
        field_wf(f),
    ensures
        spec_extract_field(spec_insert_field(cell, f, value), f) == value & mask_bits(f.width),
{
    let off = f.offset;
    let w = f.width;
    assert((((cell & !((((1u64 << w) - 1) as u32) << off)) | ((value << off) & ((((1u64 << w)
        - 1) as u32) << off))) >> off) & (((1u64 << w) - 1) as u32) == value & (((1u64 << w)
        - 1) as u32)) by (bit_vector)
        requires
            1 <= w && off + w <= 32,
    ;
}

/// Writing a field leaves every bit outside the field unchanged.
pub proof fn lemma_insert_field_preserves_other_bits(cell: u32, f: Field, value: u32, i: u32)
    requires
        field_wf(f),
        i < 32,
        i < f.offset || f.offset + f.width <= i,
    ensures
        (spec_insert_field(cell, f, value) >> i) & 1 == (cell >> i) & 1,
{
    let off = f.offset;
    let w = f.width;
    assert((((cell & !((((1u64 << w) - 1) as u32) << off)) | ((value << off) & ((((1u64 << w)
        - 1) as u32) << off))) >> i) & 1 == (cell >> i) & 1) by (bit_vector)
        requires
            1 <= w && off + w <= 32 && i < 32 && (i < off || off + w <= i),
    ;
}

/// Writing a field leaves the value of every disjoint field unchanged.
pub proof fn lemma_insert_field_preserves_disjoint(cell: u32, f: Field, g: Field, value: u32)
    requires
        field_wf(f),
        field_wf(g),
        g.offset + g.width <= f.offset || f.offset + f.width <= g.offset,
    ensures
        spec_extract_field(spec_insert_field(cell, f, value), g) == spec_extract_field(cell, g),
{
    let off = f.offset;
    let w = f.width;
    let goff = g.offset;
    let gw = g.width;
    assert((((cell & !((((1u64 << w) - 1) as u32) << off)) | ((value << off) & ((((1u64 << w)
        - 1) as u32) << off))) >> goff) & (((1u64 << gw) - 1) as u32) == (cell >> goff) & (((1u64
        << gw) - 1) as u32)) by (bit_vector)
        requires
            1 <= w && off + w <= 32 && 1 <= gw && goff + gw <= 32 && (goff + gw <= off || off + w
                <= goff),
    ;
}

/// Computes the right-aligned mask of a field `width` bits wide.
pub fn mask_of_width(width: u32) -> (m: u32)
    requires
        width <= 32,
    ensures
        m == mask_bits(width),
{
    proof {
        assert(1u64 << width >= 1 && (1u64 << width) - 1 < 0x1_0000_0000u64) by (bit_vector)
            requires
                width <= 32,
        ;
    }
    let wide: u64 = (1u64 << width) - 1;
    wide as u32
}

/// Extracts the value of field `f` from `cell`.
pub fn extract_field(cell: u32, f: Field) -> (r: u32)
    requires
        field_wf(f),
    ensures
        r == spec_extract_field(cell, f),
{
    let m = mask_of_width(f.width);
    (cell >> f.offset) & m
}

/// Returns `cell` with field `f` replaced by the low bits of `value`.
pub fn insert_field(cell: u32, f: Field, value: u32) -> (r: u32)
    requires
        field_wf(f),
    ensures
        r == spec_insert_field(cell, f, value),
{
    let m = mask_of_width(f.width);
    let shifted_mask: u32 = m << f.offset;
    (cell & !shifted_mask) | ((value << f.offset) & shifted_mask)
}

} // verus!
