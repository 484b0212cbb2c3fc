//! A small trait for building masks with the low `bits` bits set.

use vstd::prelude::*;

verus! {

/// Build a value with the lowest `bits` bits set.
pub trait Setbits: Sized {
    /// The number of bits in the implementing type.
    spec fn bit_width() -> usize;

    /// The mask with the lowest `bits` bits set.
    spec fn spec_setbits(bits: usize) -> Self;

    /// Return the mask with the lowest `bits` bits set.
    fn setbits(bits: usize) -> (r: Self)
        requires
            1 <= bits <= Self::bit_width(),
        ensures
            r == Self::spec_setbits(bits),
    ;
}

impl Setbits for u32 {
    open spec fn bit_width() -> usize {
        32
    }

    open spec fn spec_setbits(bits: usize) -> u32 {
        u32::MAX >> ((32 - bits) as u32)
    }

    fn setbits(bits: usize) -> (r: u32) {
        u32::MAX >> (u32::BITS - (bits as u32))
    }
}

impl Setbits for u64 {
    open spec fn bit_width() -> usize {
        64
    }

    open spec fn spec_setbits(bits: usize) -> u64 {
        u64::MAX >> ((64 - bits) as u32)
    }

    fn setbits(bits: usize) -> (r: u64) {
        u64::MAX >> (u64::BITS - (bits as u32))
    }
}

impl Setbits for i32 {
    open spec fn bit_width() -> usize {
        32
    }

    open spec fn spec_setbits(bits: usize) -> i32 {
        <u32 as Setbits>::spec_setbits(bits) as i32
    }

    fn setbits(bits: usize) -> (r: i32) {
        <u32 as Setbits>::setbits(bits) as i32
    }
}

impl Setbits for i64 {
    open spec fn bit_width() -> usize {
        64
    }

    open spec fn spec_setbits(bits: usize) -> i64 {
        <u64 as Setbits>::spec_setbits(bits) as i64
    }

    fn setbits(bits: usize) -> (r: i64) {
        <u64 as Setbits>::setbits(bits) as i64
    }
}

} // verus!
