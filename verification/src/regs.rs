//! Register values and their fields, and updates of registers as the PAC's
//! `write`, `write_with_zero` and `modify` make them.

use vstd::prelude::*;

use crate::ops::{Reg, RegOp};

verus! {

/// A mask of `width` low bits (`width` from 1 to 32).
pub open spec fn width_mask(width: u32) -> u32 {
    if width >= 32 {
        0xffff_ffffu32
    } else {
        !(0xffff_ffffu32 << width)
    }
}

/// The bits of a field of `width` bits at `offset`.
pub open spec fn field_mask(offset: u32, width: u32) -> u32 {
    width_mask(width) << offset
}

/// A field's position is valid within a 32-bit register.
pub open spec fn field_fits(offset: u32, width: u32) -> bool {
    1 <= width && offset + width <= 32
}

/// The value of the field of `width` bits at `offset`.
pub open spec fn extract(bits: u32, offset: u32, width: u32) -> u32 {
    (bits >> offset) & width_mask(width)
}

/// The register `bits` with the field at `offset` replaced by the low `width`
/// bits of `value`.
pub open spec fn insert(bits: u32, offset: u32, width: u32, value: u32) -> u32 {
    (bits & !field_mask(offset, width)) | ((value & width_mask(width)) << offset)
}

/// Two register values agree on every bit outside `mask`.
pub open spec fn same_outside(a: u32, b: u32, mask: u32) -> bool {
    a & !mask == b & !mask
}

/// Whether the single bit at `offset` is set.
pub open spec fn flag(bits: u32, offset: u32) -> bool {
    extract(bits, offset, 1) == 1
}

/// The register `bits` with the single bit at `offset` set to `value`.
pub open spec fn set_flag(bits: u32, offset: u32, value: bool) -> u32 {
    insert(bits, offset, 1, if value { 1 } else { 0 })
}

/// Writing a field: it reads back as the written value cut to its width, and
/// no bit outside it changes.
pub proof fn lemma_insert(bits: u32, offset: u32, width: u32, value: u32)
    requires
        field_fits(offset, width),
    ensures
        extract(insert(bits, offset, width, value), offset, width) == value & width_mask(width),
        same_outside(insert(bits, offset, width, value), bits, field_mask(offset, width)),
{
    if width >= 32 {
        assert(offset == 0);
        assert(extract(insert(bits, 0, 32, value), 0, 32) == value & 0xffff_ffffu32) by (bit_vector);
        assert(same_outside(insert(bits, 0, 32, value), bits, field_mask(0, 32))) by (bit_vector);
    } else {
        let m = !(0xffff_ffffu32 << width);
        assert(((bits & !(m << offset)) | ((value & m) << offset)) >> offset & m == value & m)
            by (bit_vector)
            requires
                1 <= width < 32,
                offset + width <= 32,
                m == !(0xffff_ffffu32 << width),
        ;
        assert(((bits & !(m << offset)) | ((value & m) << offset)) & !(m << offset) == bits & !(m
            << offset)) by (bit_vector)
            requires
                1 <= width < 32,
                offset + width <= 32,
                m == !(0xffff_ffffu32 << width),
        ;
    }
}

/// The masks of the field widths that the register layouts use.
pub proof fn lemma_width_masks()
    ensures
        width_mask(1) == 1,
        width_mask(2) == 3,
        width_mask(3) == 7,
        width_mask(4) == 0xf,
        width_mask(5) == 0x1f,
        width_mask(6) == 0x3f,
        width_mask(8) == 0xff,
        width_mask(12) == 0xfff,
        width_mask(14) == 0x3fff,
        width_mask(16) == 0xffff,
        width_mask(32) == 0xffff_ffff,
{
    assert(!(0xffff_ffffu32 << 1u32) == 1u32 && !(0xffff_ffffu32 << 2u32) == 3u32 && !(
    0xffff_ffffu32 << 3u32) == 7u32 && !(0xffff_ffffu32 << 4u32) == 0xfu32 && !(0xffff_ffffu32
        << 5u32) == 0x1fu32 && !(0xffff_ffffu32 << 6u32) == 0x3fu32 && !(0xffff_ffffu32 << 8u32)
        == 0xffu32 && !(0xffff_ffffu32 << 12u32) == 0xfffu32 && !(0xffff_ffffu32 << 14u32)
        == 0x3fffu32 && !(0xffff_ffffu32 << 16u32) == 0xffffu32) by (bit_vector);
}

/// A value that fits in a field's width passes through its mask unchanged.
pub proof fn lemma_mask_small(value: u32, width: u32)
    requires
        1 <= width <= 32,
        value <= width_mask(width),
    ensures
        value & width_mask(width) == value,
{
    if width >= 32 {
        assert(value & 0xffff_ffffu32 == value) by (bit_vector);
    } else {
        assert(value & !(0xffff_ffffu32 << width) == value) by (bit_vector)
            requires
                1 <= width < 32,
                value <= !(0xffff_ffffu32 << width),
        ;
    }
}

/// Writing one field leaves every field that does not overlap it unchanged.
pub proof fn lemma_extract_other(bits: u32, offset: u32, width: u32, value: u32, o: u32, w: u32)
    requires
        field_fits(offset, width),
        field_fits(o, w),
        o + w <= offset || offset + width <= o,
    ensures
        extract(insert(bits, offset, width, value), o, w) == extract(bits, o, w),
{
    let m = width_mask(width);
    let n = width_mask(w);
    assert(m == if width >= 32 { 0xffff_ffffu32 } else { !(0xffff_ffffu32 << width) });
    assert(n == if w >= 32 { 0xffff_ffffu32 } else { !(0xffff_ffffu32 << w) });
    assert((((bits & !(m << offset)) | ((value & m) << offset)) >> o) & n == (bits >> o) & n)
        by (bit_vector)
        requires
            1 <= width,
            offset + width <= 32,
            1 <= w,
            o + w <= 32,
            o + w <= offset || offset + width <= o,
            m == if width >= 32 { 0xffff_ffffu32 } else { !(0xffff_ffffu32 << width) },
            n == if w >= 32 { 0xffff_ffffu32 } else { !(0xffff_ffffu32 << w) },
    ;
}

/// The single-bit mask at `offset`, and how a wait on it reads.
pub proof fn lemma_bit_mask(offset: u32)
    requires
        offset < 32,
    ensures
        field_mask(offset, 1) == 1u32 << offset,
        forall|cur: u32| #[trigger] (cur & (1u32 << offset)) == (1u32 << offset) <==> flag(cur, offset),
{
    assert(!(0xffff_ffffu32 << 1u32) << offset == 1u32 << offset) by (bit_vector);
    assert forall|cur: u32| #[trigger] (cur & (1u32 << offset)) == (1u32 << offset) <==> flag(cur, offset) by {
        assert(((cur & (1u32 << offset)) == (1u32 << offset)) == (((cur >> offset) & !(0xffff_ffffu32 << 1u32)) == 1u32)) by (bit_vector)
            requires offset < 32;
    }
}

/// Setting one bit: it reads back as set, and no other bit changes.
pub proof fn lemma_set_flag(bits: u32, offset: u32, value: bool)
    requires
        offset < 32,
    ensures
        flag(set_flag(bits, offset, value), offset) == value,
        same_outside(set_flag(bits, offset, value), bits, 1u32 << offset),
{
    let x: u32 = if value { 1 } else { 0 };
    lemma_insert(bits, offset, 1, x);
    lemma_width_masks();
    lemma_mask_small(x, 1);
    lemma_bit_mask(offset);
}

/// Setting one bit leaves every other bit as it was.
pub proof fn lemma_flag_other(bits: u32, offset: u32, value: bool, other: u32)
    requires
        offset < 32,
        other < 32,
        other != offset,
    ensures
        flag(set_flag(bits, offset, value), other) == flag(bits, other),
{
    lemma_extract_other(bits, offset, 1, if value { 1 } else { 0 }, other, 1);
}

/// Agreement outside two masks chains into agreement outside their union.
pub proof fn lemma_same_outside_trans(a: u32, b: u32, c: u32, m1: u32, m2: u32)
    requires
        same_outside(a, b, m1),
        same_outside(b, c, m2),
    ensures
        same_outside(a, c, m1 | m2),
{
    assert(a & !m1 == b & !m1 && b & !m2 == c & !m2 ==> a & !(m1 | m2) == c & !(m1 | m2))
        by (bit_vector);
}

/// Flipping a bit and flipping it back gives the register back its value.
pub proof fn lemma_set_flag_undo(bits: u32, offset: u32, value: bool)
    requires
        offset < 32,
        flag(bits, offset) == value,
    ensures
        set_flag(set_flag(bits, offset, !value), offset, value) == bits,
{
    lemma_set_flag(bits, offset, !value);
    lemma_set_flag(set_flag(bits, offset, !value), offset, value);
    let m = 1u32 << offset;
    let y = set_flag(set_flag(bits, offset, !value), offset, value);
    assert(same_outside(y, bits, m)) by {
        lemma_same_outside_trans(y, set_flag(bits, offset, !value), bits, m, m);
        assert(m | m == m) by (bit_vector);
    }
    assert(y == bits) by (bit_vector)
        requires
            offset < 32,
            m == 1u32 << offset,
            y & !m == bits & !m,
            ((y >> offset) & !(0xffff_ffffu32 << 1u32) == 1) == ((bits >> offset) & !(
            0xffff_ffffu32 << 1u32) == 1),
    ;
}

/// Unions of four masks, grouped either way.
pub proof fn lemma_or_assoc(a: u32, b: u32, c: u32, d: u32)
    ensures
        a | (b | (c | d)) == a | b | c | d,
{
    assert(a | (b | (c | d)) == a | b | c | d) by (bit_vector);
}

/// The value a field reads after one field of the register was written: the
/// written value (cut to the field's width) when it is the same field, the
/// old value when the two do not overlap.
pub proof fn lemma_read_field(bits: u32, offset: u32, width: u32, value: u32, o: u32, w: u32)
    requires
        field_fits(offset, width),
        field_fits(o, w),
        (o == offset && w == width) || o + w <= offset || offset + width <= o,
    ensures
        extract(insert(bits, offset, width, value), o, w) == if o == offset && w == width {
            value & width_mask(width)
        } else {
            extract(bits, o, w)
        },
{
    if o == offset && w == width {
        lemma_insert(bits, offset, width, value);
    } else {
        lemma_extract_other(bits, offset, width, value, o, w);
    }
}

/// What the PAC records of a register beside its fields: the reset value that
/// `write` starts from, and the fields that a write of one (or of zero) would
/// act on, which `modify` and `write` keep at their neutral value.
#[derive(Clone, Copy, PartialEq, Eq, Structural, Debug)]
pub struct RegSpec {
    pub reset: u32,
    pub one_to_modify: u32,
    pub zero_to_modify: u32,
}

/// A register update: the bits in `keep` are taken from the register's current
/// value, and the bits in `set` are then set. An update whose `keep` is zero is
/// a plain write of `set`.
#[derive(Clone, Copy, PartialEq, Eq, Structural, Debug)]
pub struct Update {
    pub keep: u32,
    pub set: u32,
}

impl Update {
    /// The value that the update leaves in a register that held `cur`.
    pub open spec fn apply(self, cur: u32) -> u32 {
        (cur & self.keep) | self.set
    }

    /// The start of a read-modify-write: every bit kept, with the fields that
    /// react to a written one cleared and those that react to a written zero set.
    pub fn modify(spec: RegSpec) -> (r: Update)
        ensures
            forall|cur: u32|
                #[trigger] r.apply(cur) == (cur & !spec.one_to_modify) | spec.zero_to_modify,
            spec.one_to_modify == 0 && spec.zero_to_modify == 0 ==> forall|cur: u32|
                #[trigger] r.apply(cur) == cur,
    {
        let r = Update { keep: !spec.one_to_modify, set: spec.zero_to_modify };
        proof {
            assert forall|cur: u32| (cur & !0u32) | 0u32 == cur by {
                assert((cur & !0u32) | 0u32 == cur) by (bit_vector);
            }
        }
        r
    }

    /// The start of a write: the reset value, made neutral as in `modify`.
    pub fn write(spec: RegSpec) -> (r: Update)
        ensures
            r.keep == 0,
            r.set == (spec.reset & !spec.one_to_modify) | spec.zero_to_modify,
            spec.one_to_modify == 0 && spec.zero_to_modify == 0 ==> r.set == spec.reset,
            spec.reset == 0 && spec.zero_to_modify == 0 ==> r.set == 0,
    {
        let reset = spec.reset;
        let one = spec.one_to_modify;
        assert((reset & !0u32) | 0u32 == reset && (0u32 & !one) | 0u32 == 0u32) by (bit_vector);
        Update { keep: 0, set: (spec.reset & !spec.one_to_modify) | spec.zero_to_modify }
    }

    /// The start of a write in which every bit not written is zero.
    pub fn write_with_zero() -> (r: Update)
        ensures
            r.keep == 0,
            r.set == 0,
    {
        Update { keep: 0, set: 0 }
    }

    /// Followed by the write of `value` into the field of `width` bits at `offset`.
    pub fn field(self, offset: u32, width: u32, value: u32) -> (r: Update)
        requires
            field_fits(offset, width),
        ensures
            forall|cur: u32| #[trigger] r.apply(cur) == insert(self.apply(cur), offset, width, value),
            r.set == insert(self.set, offset, width, value),
            self.keep == 0 ==> r.keep == 0,
    {
        let m: u32 = if width >= 32 {
            0xffff_ffffu32
        } else {
            !(0xffff_ffffu32 << width)
        };
        let fm: u32 = m << offset;
        let v: u32 = (value & m) << offset;
        let r = Update { keep: self.keep & !fm, set: (self.set & !fm) | v };
        proof {
            assert(m == width_mask(width));
            assert forall|cur: u32| #[trigger] r.apply(cur) == insert(self.apply(cur), offset, width, value) by {
                let k = self.keep;
                let s = self.set;
                assert(((cur & k) | s) & !fm | v == (cur & (k & !fm)) | ((s & !fm) | v)) by (bit_vector);
            }
            let k0 = self.keep;
            assert(k0 == 0 ==> k0 & !fm == 0) by (bit_vector);
        }
        r
    }

    /// Followed by the write of `value` into the single bit at `offset`.
    pub fn bit(self, offset: u32, value: bool) -> (r: Update)
        requires
            offset < 32,
        ensures
            forall|cur: u32| #[trigger] r.apply(cur) == set_flag(self.apply(cur), offset, value),
            r.set == set_flag(self.set, offset, value),
            self.keep == 0 ==> r.keep == 0,
    {
        self.field(offset, 1, if value { 1 } else { 0 })
    }
}

/// `op` is a read-modify-write of `reg` that turns a current value `cur` into `f(cur)`.
pub open spec fn modifies(op: RegOp, reg: Reg, f: spec_fn(u32) -> u32) -> bool {
    &&& op matches RegOp::Modify { reg: r, keep, set }
    &&& r == reg
    &&& forall|cur: u32| #[trigger] f(cur) == (cur & keep) | set
}

/// The read-modify-write of `reg` that `u` describes.
pub fn modify_op(reg: Reg, u: Update) -> (r: RegOp)
    ensures
        r == (RegOp::Modify { reg, keep: u.keep, set: u.set }),
{
    RegOp::Modify { reg, keep: u.keep, set: u.set }
}

/// The write of `reg` that `u`, an update that keeps nothing, describes.
pub fn write_op(reg: Reg, u: Update) -> (r: RegOp)
    ensures
        r == (RegOp::Write { reg, value: u.set }),
{
    RegOp::Write { reg, value: u.set }
}

} // verus!
