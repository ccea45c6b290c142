//! Bit fields of 32-bit peripheral registers.
//!
//! A field is given by a right-aligned mask (`0b1`, `0b11` or `0b1111`) and the
//! offset of its lowest bit. These spec functions and lemmas are what the
//! register-level contracts of the GPIO driver are stated with.
use vstd::prelude::*;

verus! {

/// The value of the field selected by `mask` at bit offset `offset` of `w`.
pub open spec fn field(w: u32, offset: u32, mask: u32) -> u32 {
    (w >> offset) & mask
}

/// `a` and `b` agree on every bit outside the field selected by `mask` at `offset`.
pub open spec fn unchanged_outside(a: u32, b: u32, offset: u32, mask: u32) -> bool {
    a & !(mask << offset) == b & !(mask << offset)
}

/// The masks of the fields that the GPIO, EXTI and SYSCFG registers are made of.
pub open spec fn is_field_mask(mask: u32) -> bool {
    mask == 1 || mask == 3 || mask == 15
}

/// A field of width given by `mask` fits in 32 bits when it starts at `offset`.
pub open spec fn field_fits(offset: u32, mask: u32) -> bool {
    &&& is_field_mask(mask)
    &&& (mask == 1 ==> offset < 32)
    &&& (mask == 3 ==> offset <= 30)
    &&& (mask == 15 ==> offset <= 28)
}

/// What a read-modify-write of a field leaves in the register.
pub open spec fn with_field(reg: u32, offset: u32, mask: u32, value: u32) -> u32 {
    (reg & !(mask << offset)) | (value << offset)
}

/// Writing a value that fits into a field leaves exactly that value in the field
/// and every other bit of the register as it was.
pub proof fn lemma_with_field(reg: u32, offset: u32, mask: u32, value: u32)
    requires
        field_fits(offset, mask),
        value <= mask,
    ensures
        field(with_field(reg, offset, mask, value), offset, mask) == value,
        unchanged_outside(with_field(reg, offset, mask, value), reg, offset, mask),
{
    assert(((((reg & !(mask << offset)) | (value << offset)) >> offset) & mask) == value
        && (((reg & !(mask << offset)) | (value << offset)) & !(mask << offset)) == (reg & !(mask
        << offset))) by (bit_vector)
        requires
            (mask == 1u32 && offset < 32u32) || (mask == 3u32 && offset <= 30u32) || (mask == 15u32
                && offset <= 28u32),
            value <= mask,
    ;
}

/// Two registers that agree outside one field agree on every field disjoint from it.
pub proof fn lemma_disjoint_field(a: u32, b: u32, off1: u32, m1: u32, off2: u32, m2: u32)
    requires
        unchanged_outside(a, b, off1, m1),
        field_fits(off1, m1),
        field_fits(off2, m2),
        (m1 << off1) & (m2 << off2) == 0,
    ensures
        field(a, off2, m2) == field(b, off2, m2),
{
    assert(((a >> off2) & m2) == ((b >> off2) & m2)) by (bit_vector)
        requires
            (a & !(m1 << off1)) == (b & !(m1 << off1)),
            off1 < 32u32,
            (m2 == 1u32 && off2 < 32u32) || (m2 == 3u32 && off2 <= 30u32) || (m2 == 15u32 && off2
                <= 28u32),
            ((m1 << off1) & (m2 << off2)) == 0u32,
    ;
}

/// The single-bit fields of pins `i` and `j` are disjoint when `i != j`.
pub proof fn lemma_distinct_bits(i: u32, j: u32)
    requires
        i < 32,
        j < 32,
        i != j,
    ensures
        (1u32 << i) & (1u32 << j) == 0,
{
    assert((1u32 << i) & (1u32 << j) == 0u32) by (bit_vector)
        requires
            i < 32u32,
            j < 32u32,
            i != j,
    ;
}

/// The 4-bit fields at offsets `4 * i` and `4 * j` are disjoint when `i != j`.
pub proof fn lemma_distinct_nibbles(i: u32, j: u32)
    requires
        i < 8,
        j < 8,
        i != j,
    ensures
        (15u32 << (4 * i) as u32) & (15u32 << (4 * j) as u32) == 0,
{
    let oi = (4 * i) as u32;
    let oj = (4 * j) as u32;
    assert((15u32 << oi) & (15u32 << oj) == 0u32) by (bit_vector)
        requires
            oi <= 28u32,
            oj <= 28u32,
            oi != oj,
            oi % 4u32 == 0u32,
            oj % 4u32 == 0u32,
    ;
}

/// Testing a register against the mask of bit `i` reads the single-bit field `i`.
pub proof fn lemma_bit_test(w: u32, i: u32)
    requires
        i < 32,
    ensures
        ((w & (1u32 << i)) == 0) == (field(w, i, 1) == 0),
        field(w, i, 1) == 0 || field(w, i, 1) == 1,
{
    assert(((w & (1u32 << i)) == 0u32) == (((w >> i) & 1u32) == 0u32) && (((w >> i) & 1u32)
        == 0u32 || ((w >> i) & 1u32) == 1u32)) by (bit_vector)
        requires
            i < 32u32,
    ;
}

/// Or-ing in the mask of bit `i` sets that bit and nothing else.
pub proof fn lemma_set_bit(w: u32, i: u32)
    requires
        i < 32,
    ensures
        w | (1u32 << i) == with_field(w, i, 1, 1),
{
    assert((w | (1u32 << i)) == ((w & !(1u32 << i)) | (1u32 << i))) by (bit_vector);
}

/// And-ing with the complement of the mask of bit `i` clears that bit and nothing else.
pub proof fn lemma_clear_bit(w: u32, i: u32)
    requires
        i < 32,
    ensures
        w & !(1u32 << i) == with_field(w, i, 1, 0),
{
    assert((w & !(1u32 << i)) == ((w & !(1u32 << i)) | (0u32 << i))) by (bit_vector);
}

/// A register that equals `with_field(reg, i, 1, v)` for `v` in `{0, 1}`
/// holds `v` in bit `i` and agrees with `reg` elsewhere.
pub proof fn lemma_with_bit(reg: u32, i: u32, value: u32)
    requires
        i < 32,
        value <= 1,
    ensures
        field(with_field(reg, i, 1, value), i, 1) == value,
        unchanged_outside(with_field(reg, i, 1, value), reg, i, 1),
{
    lemma_with_field(reg, i, 1, value);
}

/// Two registers that agree on one field and outside it are equal.
pub proof fn lemma_field_ext(a: u32, b: u32, offset: u32, mask: u32)
    requires
        field_fits(offset, mask),
        field(a, offset, mask) == field(b, offset, mask),
        unchanged_outside(a, b, offset, mask),
    ensures
        a == b,
{
    assert(a == b) by (bit_vector)
        requires
            (mask == 1u32 && offset < 32u32) || (mask == 3u32 && offset <= 30u32) || (mask == 15u32
                && offset <= 28u32),
            ((a >> offset) & mask) == ((b >> offset) & mask),
            (a & !(mask << offset)) == (b & !(mask << offset)),
    ;
}

/// A field is made of the register bits it covers: bit `k` of the field value
/// is bit `offset + k` of the register, for each bit `k` of the mask, and the
/// value never exceeds the mask.
pub proof fn lemma_field_bits(w: u32, offset: u32, mask: u32)
    requires
        field_fits(offset, mask),
    ensures
        field(w, offset, mask) <= mask,
        forall|k: u32|
            k < 32 && (mask >> k) & 1u32 == 1u32 ==> (#[trigger] ((field(w, offset, mask) >> k)
                & 1u32) == 1u32) == (w & (1u32 << (offset + k)) != 0u32),
{
    let f = field(w, offset, mask);
    assert(f <= mask && forall|k: u32|
        k < 32 && (mask >> k) & 1u32 == 1u32 ==> (#[trigger] ((f >> k) & 1u32) == 1u32) == (w & (1u32
            << (offset + k)) != 0u32)) by (bit_vector)
        requires
            f == (w >> offset) & mask,
            (mask == 1u32 && offset < 32u32) || (mask == 3u32 && offset <= 30u32) || (mask == 15u32
                && offset <= 28u32),
    ;
}

} // verus!
