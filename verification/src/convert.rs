//! Explicit numeric casts between the signed and unsigned forms the
//! driver's entry points mix freely: the same 32-bit pattern, relabeled.

use vstd::prelude::*;

verus! {

/// A value obtainable from `T` by an explicit bit-preserving cast.
pub trait CastFrom<T>: Sized {
    /// The value the cast yields.
    spec fn cast_from_spec(value: T) -> Self;

    /// Casts `value` into this type.
    fn cast_from(value: T) -> (r: Self)
        ensures
            r == Self::cast_from_spec(value),
    ;
}

impl<T> CastFrom<T> for T {
    open spec fn cast_from_spec(value: T) -> Self {
        value
    }

    fn cast_from(value: T) -> (r: Self) {
        value
    }
}

impl CastFrom<u32> for i32 {
    open spec fn cast_from_spec(value: u32) -> Self {
        value as i32
    }

    fn cast_from(value: u32) -> (r: Self) {
        #[verifier::truncate] (value as i32)
    }
}

impl CastFrom<i32> for u32 {
    open spec fn cast_from_spec(value: i32) -> Self {
        value as u32
    }

    fn cast_from(value: i32) -> (r: Self) {
        #[verifier::truncate] (value as u32)
    }
}

/// The companion of [`CastFrom`], for call sites that read better with
/// the source first.
pub trait CastInto<T>: Sized {
    /// The value the cast yields.
    spec fn cast_into_spec(self) -> T;

    /// Casts this value into `T`.
    fn cast_into(self) -> (r: T)
        ensures
            r == self.cast_into_spec(),
    ;
}

impl<F, I: CastFrom<F>> CastInto<I> for F {
    open spec fn cast_into_spec(self) -> I {
        I::cast_from_spec(self)
    }

    fn cast_into(self) -> (r: I) {
        I::cast_from(self)
    }
}

} // verus!
