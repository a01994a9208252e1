//! An integer type that can never be -1, stored so that an `Option` of
//! it occupies no extra space.
//!
//! Several driver queries report -1 as an in-band "no location" sentinel.
//! [`NonMinusOneI32`] shifts the value by one and stores it in the
//! standard library's nonzero 32-bit type, whose reserved zero pattern
//! gives `Option<NonMinusOneI32>` (and every single-field struct around
//! it) exactly the storage of a plain `u32`.

use vstd::prelude::*;
use core::num::NonZero;

verus! {

/// A nonzero 32-bit value, held in the standard library's `NonZero<u32>`
/// so that the compiler's niche layout applies. `NonZero<u32>` itself
/// cannot be named in verified signatures (its constructors are generic
/// over a sealed trait), so this single-field wrapper carries it and the
/// two functions below state what the standard library guarantees of it.
#[verifier::external_body]
#[derive(Debug)]
pub struct NonZeroU32 {
    inner: NonZero<u32>,
}

/// The value a [`NonZeroU32`] holds.
pub uninterp spec fn nonzero_u32_value(n: NonZeroU32) -> u32;

/// Relies on `core::num::NonZero::<u32>::new`: yields a value exactly
/// when the argument is nonzero, and stores the argument unchanged.
#[verifier::external_body]
pub(crate) fn nonzero_u32_new(value: u32) -> (r: Option<NonZeroU32>)
    ensures
        r is Some <==> value != 0,
        r matches Some(n) ==> nonzero_u32_value(n) == value,
{
    NonZero::<u32>::new(value).map(|inner| NonZeroU32 { inner })
}

/// Relies on `core::num::NonZero::<u32>::get`: returns the stored value,
/// which is never 0.
#[verifier::external_body]
pub(crate) fn nonzero_u32_get(n: &NonZeroU32) -> (r: u32)
    ensures
        r == nonzero_u32_value(*n),
        r != 0,
{
    n.inner.get()
}

/// The integer a stored nonzero pattern denotes: patterns up to
/// 0x8000_0000 stand for the values 0 through i32::MAX shifted up by
/// one, the patterns above it for the negative values below -1.
pub open spec fn decode_non_minus_one(stored: u32) -> int {
    if stored <= 0x8000_0000 {
        stored - 1
    } else {
        stored - 0x1_0000_0001
    }
}

/// A 32-bit signed integer that is never -1, with the storage of a plain
/// `u32` even inside an `Option`.
#[derive(Debug)]
pub struct NonMinusOneI32 {
    repr: NonZeroU32,
}

impl NonMinusOneI32 {
    /// The integer this value denotes.
    pub closed spec fn value_spec(self) -> int {
        decode_non_minus_one(nonzero_u32_value(self.repr))
    }

    /// Wraps `n` when it is not -1; yields nothing for -1 itself.
    pub fn new(n: i32) -> (r: Option<Self>)
        ensures
            r is Some <==> n != -1,
            r matches Some(v) ==> v.value_spec() == n,
    {
        if n == -1 {
            return None;
        }
        let encoded: u32 = if n >= 0 {
            (n as u32) + 1
        } else {
            ((n as i64) + 0x1_0000_0001) as u32
        };
        match nonzero_u32_new(encoded) {
            Some(repr) => Some(NonMinusOneI32 { repr }),
            None => None,
        }
    }

    /// Returns the value as a primitive type.
    pub fn get(&self) -> (r: i32)
        ensures
            r == self.value_spec(),
            r != -1,
    {
        let stored = nonzero_u32_get(&self.repr);
        if stored <= 0x8000_0000 {
            (stored - 1) as i32
        } else {
            ((stored as i64) - 0x1_0000_0001) as i32
        }
    }
}

} // verus!
