//! Bit-range extraction for structure fields and uniform widening/narrowing
//! of unsigned integers.
use vstd::prelude::*;

verus! {

/// All-ones in the low `len` bits (all 64 bits when `len >= 64`).
pub open spec fn low_ones(len: u64) -> u64 {
    if len >= 64 {
        u64::MAX
    } else {
        ((1u64 << len) - 1) as u64
    }
}

/// Bits `pos .. pos + len` of `v`, shifted down to bit 0.  Positions at or
/// past bit 64 hold nothing.
pub open spec fn extract_bits(v: u64, pos: u64, len: u64) -> u64 {
    if pos >= 64 {
        0
    } else {
        (v >> pos) & low_ones(len)
    }
}

/// Bytes needed to hold `len` bits: `ceil(len / 8)`.
pub open spec fn bytes_for_bits(len: u64) -> u64 {
    (len / 8 + if len % 8 != 0 { 1u64 } else { 0u64 }) as u64
}

/// Extracts the bit range `pos .. pos + len` of a 64-bit value.
#[derive(Clone, Copy, Debug, PartialEq, Eq, Structural)]
pub struct BitMask {
    pub pos: u64,
    pub len: u64,
}

impl BitMask {
    /// Applies the mask to `val`.
    pub fn apply(&self, val: u64) -> (r: u64)
        ensures
            r == extract_bits(val, self.pos, self.len),
    {
        if self.pos >= 64 {
            0
        } else if self.len >= 64 {
            let r = val >> self.pos;
            proof {
                let p = self.pos;
                assert(val >> p == (val >> p) & u64::MAX) by (bit_vector);
            }
            r
        } else {
            let len = self.len;
            assert(1u64 << len >= 1) by (bit_vector)
                requires
                    len < 64,
            ;
            (val >> self.pos) & ((1u64 << len) - 1)
        }
    }

    /// Number of bytes that hold the masked range: `ceil(len / 8)`.
    pub fn width(&self) -> (r: u64)
        ensures
            r == bytes_for_bits(self.len),
    {
        self.len / 8 + if self.len % 8 != 0 {
            1
        } else {
            0
        }
    }
}

/// A mask that takes `len` bits starting at bit `pos`.
pub fn get_bit_mask_handler(pos: u64, len: u64) -> (r: BitMask)
    ensures
        r.pos == pos,
        r.len == len,
{
    BitMask { pos, len }
}

/// Widening to and narrowing from `u64`, for reading fields of any width.
pub trait MaskCast<T>: Sized {
    fn mask_cast_to(self) -> T;

    fn mask_cast_from(val: T) -> Self;
}

impl MaskCast<u64> for u8 {
    fn mask_cast_to(self) -> (r: u64)
        ensures
            r == self as u64,
    {
        self as u64
    }

    fn mask_cast_from(val: u64) -> (r: u8)
        ensures
            r == val as u8,
    {
        val as u8
    }
}

impl MaskCast<u64> for u16 {
    fn mask_cast_to(self) -> (r: u64)
        ensures
            r == self as u64,
    {
        self as u64
    }

    fn mask_cast_from(val: u64) -> (r: u16)
        ensures
            r == val as u16,
    {
        val as u16
    }
}

impl MaskCast<u64> for u32 {
    fn mask_cast_to(self) -> (r: u64)
        ensures
            r == self as u64,
    {
        self as u64
    }

    fn mask_cast_from(val: u64) -> (r: u32)
        ensures
            r == val as u32,
    {
        val as u32
    }
}

impl MaskCast<u64> for u64 {
    fn mask_cast_to(self) -> (r: u64)
        ensures
            r == self,
    {
        self
    }

    fn mask_cast_from(val: u64) -> (r: u64)
        ensures
            r == val,
    {
        val
    }
}

} // verus!
