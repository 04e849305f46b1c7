//! Shift/mask primitives for the bit-packed hardware words of the
//! control block. Every bit-range accessor of the layout is an
//! application of these four operations, and every fact about an
//! accessor follows from the three lemmas below.

use vstd::prelude::*;

verus! {

/// The mask with the low `width` bits set.
pub open spec fn spec_mask64(width: u64) -> u64
    recommends
        width < 64,
{
    ((1u64 << width) - 1) as u64
}

/// The value of the `width`-bit range of `w` that starts at bit `lo`.
pub open spec fn spec_get_bits64(w: u64, lo: u64, width: u64) -> u64
    recommends
        0 < width,
        width < 64,
        lo + width <= 64,
{
    (w >> lo) & spec_mask64(width)
}

/// `w` with the `width`-bit range starting at bit `lo` replaced by the
/// low `width` bits of `v`.
pub open spec fn spec_set_bits64(w: u64, lo: u64, width: u64, v: u64) -> u64
    recommends
        0 < width,
        width < 64,
        lo + width <= 64,
{
    (w & !(spec_mask64(width) << lo)) | ((v & spec_mask64(width)) << lo)
}

/// Reads a bit range out of a packed 64-bit word.
pub fn get_bits64(w: u64, lo: u64, width: u64) -> (r: u64)
    requires
        0 < width,
        width < 64,
        lo + width <= 64,
    ensures
        r == spec_get_bits64(w, lo, width),
        r <= spec_mask64(width),
{
    proof {
        assert(1u64 << width >= 1) by (bit_vector)
            requires
                width < 64,
        ;
        assert((w >> lo) & ((1u64 << width) - 1) as u64 <= ((1u64 << width) - 1) as u64)
            by (bit_vector);
    }
    (w >> lo) & ((1u64 << width) - 1)
}

/// Writes a bit range of a packed 64-bit word, leaving the rest of the
/// word untouched.
pub fn set_bits64(w: u64, lo: u64, width: u64, v: u64) -> (r: u64)
    requires
        0 < width,
        width < 64,
        lo + width <= 64,
    ensures
        r == spec_set_bits64(w, lo, width, v),
{
    proof {
        assert(1u64 << width >= 1) by (bit_vector)
            requires
                width < 64,
        ;
    }
    let mask = (1u64 << width) - 1;
    (w & !(mask << lo)) | ((v & mask) << lo)
}

/// Reading a range just written yields the written value, masked to
/// the range's width.
pub proof fn lemma_get_set_same64(w: u64, lo: u64, width: u64, v: u64)
    by (bit_vector)
    requires
        0 < width,
        width < 64,
        lo + width <= 64,
    ensures
        spec_get_bits64(spec_set_bits64(w, lo, width, v), lo, width) == v & spec_mask64(width),
        v <= spec_mask64(width) ==> spec_get_bits64(spec_set_bits64(w, lo, width, v), lo, width)
            == v,
{
}

/// Writing one range leaves the value of any disjoint range unchanged.
pub proof fn lemma_get_set_disjoint64(w: u64, lo: u64, width: u64, v: u64, lo2: u64, width2: u64)
    by (bit_vector)
    requires
        0 < width,
        width < 64,
        lo + width <= 64,
        0 < width2,
        width2 < 64,
        lo2 + width2 <= 64,
        lo + width <= lo2 || lo2 + width2 <= lo,
    ensures
        spec_get_bits64(spec_set_bits64(w, lo, width, v), lo2, width2) == spec_get_bits64(
            w,
            lo2,
            width2,
        ),
{
}

/// Every bit range of the zero word is zero.
pub proof fn lemma_get_zero64(lo: u64, width: u64)
    by (bit_vector)
    requires
        0 < width,
        width < 64,
        lo + width <= 64,
    ensures
        spec_get_bits64(0u64, lo, width) == 0,
{
}

/// The numeric values of the masks for the range widths the control
/// block uses.
pub proof fn lemma_mask64_values()
    by (bit_vector)
    ensures
        spec_mask64(1) == 0x1,
        spec_mask64(3) == 0x7,
        spec_mask64(4) == 0xf,
        spec_mask64(8) == 0xff,
        spec_mask64(12) == 0xfff,
        spec_mask64(24) == 0xff_ffff,
        spec_mask64(25) == 0x1ff_ffff,
        spec_mask64(26) == 0x3ff_ffff,
        spec_mask64(32) == 0xffff_ffff,
        spec_mask64(40) == 0xff_ffff_ffff,
        spec_mask64(52) == 0xf_ffff_ffff_ffff,
        spec_mask64(56) == 0xff_ffff_ffff_ffff,
        spec_mask64(61) == 0x1fff_ffff_ffff_ffff,
        spec_mask64(62) == 0x3fff_ffff_ffff_ffff,
{
}

/// A bit-packed 64-bit hardware word accessed by shift/mask bit
/// ranges.
#[derive(Clone, Copy, Debug, PartialEq, Eq, Structural)]
pub struct PackedWord64 {
    bits: u64,
}

impl PackedWord64 {
    /// The raw word.
    pub closed spec fn spec_bits(self) -> u64 {
        self.bits
    }

    /// The all-zero word.
    pub fn zero() -> (r: Self)
        ensures
            r.spec_bits() == 0,
    {
        PackedWord64 { bits: 0 }
    }

    /// A word with the given raw bits.
    pub fn from_bits(bits: u64) -> (r: Self)
        ensures
            r.spec_bits() == bits,
    {
        PackedWord64 { bits }
    }

    /// The raw word.
    pub fn bits(&self) -> (r: u64)
        ensures
            r == self.spec_bits(),
    {
        self.bits
    }

    /// The value of the `width`-bit range starting at bit `lo`.
    pub fn field(&self, lo: u64, width: u64) -> (r: u64)
        requires
            0 < width,
            width < 64,
            lo + width <= 64,
        ensures
            r == spec_get_bits64(self.spec_bits(), lo, width),
            r <= spec_mask64(width),
    {
        get_bits64(self.bits, lo, width)
    }

    /// Whether the bit at `lo` is set.
    pub fn bit(&self, lo: u64) -> (r: bool)
        requires
            lo < 64,
        ensures
            r == (spec_get_bits64(self.spec_bits(), lo, 1) == 1),
    {
        get_bits64(self.bits, lo, 1) == 1
    }

    /// Writes the `width`-bit range starting at bit `lo`, leaving every
    /// disjoint range unchanged.
    pub fn set_field(&mut self, lo: u64, width: u64, v: u64)
        requires
            0 < width,
            width < 64,
            lo + width <= 64,
        ensures
            final(self).spec_bits() == spec_set_bits64(old(self).spec_bits(), lo, width, v),
            spec_get_bits64(final(self).spec_bits(), lo, width) == v & spec_mask64(width),
            v <= spec_mask64(width) ==> spec_get_bits64(final(self).spec_bits(), lo, width) == v,
            forall|lo2: u64, width2: u64|
                0 < width2 < 64 && lo2 + width2 <= 64 && (lo + width <= lo2 || lo2 + width2 <= lo)
                    ==> spec_get_bits64(final(self).spec_bits(), lo2, width2) == spec_get_bits64(
                    old(self).spec_bits(),
                    lo2,
                    width2,
                ),
    {
        proof {
            lemma_get_set_same64(self.bits, lo, width, v);
            assert forall|lo2: u64, width2: u64|
                0 < width2 < 64 && lo2 + width2 <= 64 && (lo + width <= lo2 || lo2 + width2
                    <= lo) implies spec_get_bits64(
                spec_set_bits64(old(self).spec_bits(), lo, width, v),
                lo2,
                width2,
            ) == spec_get_bits64(old(self).spec_bits(), lo2, width2) by {
                lemma_get_set_disjoint64(old(self).spec_bits(), lo, width, v, lo2, width2);
            }
        }
        self.bits = set_bits64(self.bits, lo, width, v);
    }

    /// Writes the bit at `lo`, leaving every other bit unchanged.
    pub fn set_bit(&mut self, lo: u64, v: bool)
        requires
            lo < 64,
        ensures
            final(self).spec_bits() == spec_set_bits64(
                old(self).spec_bits(),
                lo,
                1,
                (if v {
                    1u64
                } else {
                    0u64
                }),
            ),
            (spec_get_bits64(final(self).spec_bits(), lo, 1) == 1) == v,
            forall|lo2: u64, width2: u64|
                0 < width2 < 64 && lo2 + width2 <= 64 && (lo + 1 <= lo2 || lo2 + width2 <= lo)
                    ==> spec_get_bits64(final(self).spec_bits(), lo2, width2) == spec_get_bits64(
                    old(self).spec_bits(),
                    lo2,
                    width2,
                ),
    {
        proof {
            lemma_mask64_values();
        }
        self.set_field(
            lo,
            1,
            if v {
                1
            } else {
                0
            },
        );
    }
}

/// The mask with the low `width` bits set, in a 32-bit word.
pub open spec fn spec_mask32(width: u32) -> u32
    recommends
        width < 32,
{
    ((1u32 << width) - 1) as u32
}

/// The value of the `width`-bit range of `w` that starts at bit `lo`.
pub open spec fn spec_get_bits32(w: u32, lo: u32, width: u32) -> u32
    recommends
        0 < width,
        width < 32,
        lo + width <= 32,
{
    (w >> lo) & spec_mask32(width)
}

/// `w` with the `width`-bit range starting at bit `lo` replaced by the
/// low `width` bits of `v`.
pub open spec fn spec_set_bits32(w: u32, lo: u32, width: u32, v: u32) -> u32
    recommends
        0 < width,
        width < 32,
        lo + width <= 32,
{
    (w & !(spec_mask32(width) << lo)) | ((v & spec_mask32(width)) << lo)
}

/// Reads a bit range out of a packed 32-bit word.
pub fn get_bits32(w: u32, lo: u32, width: u32) -> (r: u32)
    requires
        0 < width,
        width < 32,
        lo + width <= 32,
    ensures
        r == spec_get_bits32(w, lo, width),
        r <= spec_mask32(width),
{
    proof {
        assert(1u32 << width >= 1) by (bit_vector)
            requires
                width < 32,
        ;
        assert((w >> lo) & ((1u32 << width) - 1) as u32 <= ((1u32 << width) - 1) as u32)
            by (bit_vector);
    }
    (w >> lo) & ((1u32 << width) - 1)
}

/// Writes a bit range of a packed 32-bit word, leaving the rest of the
/// word untouched.
pub fn set_bits32(w: u32, lo: u32, width: u32, v: u32) -> (r: u32)
    requires
        0 < width,
        width < 32,
        lo + width <= 32,
    ensures
        r == spec_set_bits32(w, lo, width, v),
{
    proof {
        assert(1u32 << width >= 1) by (bit_vector)
            requires
                width < 32,
        ;
    }
    let mask = (1u32 << width) - 1;
    (w & !(mask << lo)) | ((v & mask) << lo)
}

/// Reading a range just written yields the written value, masked to
/// the range's width.
pub proof fn lemma_get_set_same32(w: u32, lo: u32, width: u32, v: u32)
    by (bit_vector)
    requires
        0 < width,
        width < 32,
        lo + width <= 32,
    ensures
        spec_get_bits32(spec_set_bits32(w, lo, width, v), lo, width) == v & spec_mask32(width),
        v <= spec_mask32(width) ==> spec_get_bits32(spec_set_bits32(w, lo, width, v), lo, width)
            == v,
{
}

/// Writing one range leaves the value of any disjoint range unchanged.
pub proof fn lemma_get_set_disjoint32(w: u32, lo: u32, width: u32, v: u32, lo2: u32, width2: u32)
    by (bit_vector)
    requires
        0 < width,
        width < 32,
        lo + width <= 32,
        0 < width2,
        width2 < 32,
        lo2 + width2 <= 32,
        lo + width <= lo2 || lo2 + width2 <= lo,
    ensures
        spec_get_bits32(spec_set_bits32(w, lo, width, v), lo2, width2) == spec_get_bits32(
            w,
            lo2,
            width2,
        ),
{
}

/// The numeric values of the masks for the range widths the control
/// block uses.
pub proof fn lemma_mask32_values()
    by (bit_vector)
    ensures
        spec_mask32(1) == 0x1,
        spec_mask32(26) == 0x3ff_ffff,
{
}

/// Every bit range of the zero word is zero.
pub proof fn lemma_get_zero32(lo: u32, width: u32)
    by (bit_vector)
    requires
        0 < width,
        width < 32,
        lo + width <= 32,
    ensures
        spec_get_bits32(0u32, lo, width) == 0,
{
}

/// A bit-packed 32-bit hardware word accessed by shift/mask bit
/// ranges.
#[derive(Clone, Copy, Debug, PartialEq, Eq, Structural)]
pub struct PackedWord32 {
    bits: u32,
}

impl PackedWord32 {
    /// The raw word.
    pub closed spec fn spec_bits(self) -> u32 {
        self.bits
    }

    /// The all-zero word.
    pub fn zero() -> (r: Self)
        ensures
            r.spec_bits() == 0,
    {
        PackedWord32 { bits: 0 }
    }

    /// A word with the given raw bits.
    pub fn from_bits(bits: u32) -> (r: Self)
        ensures
            r.spec_bits() == bits,
    {
        PackedWord32 { bits }
    }

    /// The raw word.
    pub fn bits(&self) -> (r: u32)
        ensures
            r == self.spec_bits(),
    {
        self.bits
    }

    /// The value of the `width`-bit range starting at bit `lo`.
    pub fn field(&self, lo: u32, width: u32) -> (r: u32)
        requires
            0 < width,
            width < 32,
            lo + width <= 32,
        ensures
            r == spec_get_bits32(self.spec_bits(), lo, width),
            r <= spec_mask32(width),
    {
        get_bits32(self.bits, lo, width)
    }

    /// Whether the bit at `lo` is set.
    pub fn bit(&self, lo: u32) -> (r: bool)
        requires
            lo < 32,
        ensures
            r == (spec_get_bits32(self.spec_bits(), lo, 1) == 1),
    {
        get_bits32(self.bits, lo, 1) == 1
    }

    /// Writes the `width`-bit range starting at bit `lo`, leaving every
    /// disjoint range unchanged.
    pub fn set_field(&mut self, lo: u32, width: u32, v: u32)
        requires
            0 < width,
            width < 32,
            lo + width <= 32,
        ensures
            final(self).spec_bits() == spec_set_bits32(old(self).spec_bits(), lo, width, v),
            spec_get_bits32(final(self).spec_bits(), lo, width) == v & spec_mask32(width),
            v <= spec_mask32(width) ==> spec_get_bits32(final(self).spec_bits(), lo, width) == v,
            forall|lo2: u32, width2: u32|
                0 < width2 < 32 && lo2 + width2 <= 32 && (lo + width <= lo2 || lo2 + width2 <= lo)
                    ==> spec_get_bits32(final(self).spec_bits(), lo2, width2) == spec_get_bits32(
                    old(self).spec_bits(),
                    lo2,
                    width2,
                ),
    {
        proof {
            lemma_get_set_same32(self.bits, lo, width, v);
            assert forall|lo2: u32, width2: u32|
                0 < width2 < 32 && lo2 + width2 <= 32 && (lo + width <= lo2 || lo2 + width2
                    <= lo) implies spec_get_bits32(
                spec_set_bits32(old(self).spec_bits(), lo, width, v),
                lo2,
                width2,
            ) == spec_get_bits32(old(self).spec_bits(), lo2, width2) by {
                lemma_get_set_disjoint32(old(self).spec_bits(), lo, width, v, lo2, width2);
            }
        }
        self.bits = set_bits32(self.bits, lo, width, v);
    }

    /// Writes the bit at `lo`, leaving every other bit unchanged.
    pub fn set_bit(&mut self, lo: u32, v: bool)
        requires
            lo < 32,
        ensures
            final(self).spec_bits() == spec_set_bits32(
                old(self).spec_bits(),
                lo,
                1,
                (if v {
                    1u32
                } else {
                    0u32
                }),
            ),
            (spec_get_bits32(final(self).spec_bits(), lo, 1) == 1) == v,
            forall|lo2: u32, width2: u32|
                0 < width2 < 32 && lo2 + width2 <= 32 && (lo + 1 <= lo2 || lo2 + width2 <= lo)
                    ==> spec_get_bits32(final(self).spec_bits(), lo2, width2) == spec_get_bits32(
                    old(self).spec_bits(),
                    lo2,
                    width2,
                ),
    {
        proof {
            lemma_mask32_values();
        }
        self.set_field(
            lo,
            1,
            if v {
                1
            } else {
                0
            },
        );
    }
}

} // verus!
