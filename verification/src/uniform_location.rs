//! Uniform locations, tagged with the type of the value the uniform
//! holds.
//!
//! The driver reports a missing uniform location as -1. A
//! [`UniformLocation`] excludes that sentinel, so an `Option` of it
//! occupies exactly the storage of a plain `u32`; the phantom parameter
//! records which value type the location was looked up for, so a
//! location obtained for one uniform type cannot be passed where
//! another was intended.

use vstd::prelude::*;
use core::marker::PhantomData;
use crate::num::NonMinusOneI32;

verus! {

/// The location of a uniform holding a value of type `T`: a value the
/// driver reported that is known not to be the -1 sentinel.
#[derive(Debug)]
pub struct UniformLocation<T>(NonMinusOneI32, PhantomData<T>);

impl<T> UniformLocation<T> {
    /// The location this value denotes.
    pub closed spec fn value_spec(self) -> int {
        self.0.value_spec()
    }

    /// Wraps `loc` when it is not the -1 sentinel. Does not verify that
    /// the location belongs to a uniform of type `T`; the caller
    /// vouches for that.
    pub fn from_i32(loc: i32) -> (r: Option<Self>)
        ensures
            r is Some <==> loc != -1,
            r matches Some(l) ==> l.value_spec() == loc,
    {
        match NonMinusOneI32::new(loc) {
            Some(n) => Some(UniformLocation(n, PhantomData)),
            None => None,
        }
    }

    /// The stored location, unchanged.
    pub fn as_i32(&self) -> (r: i32)
        ensures
            r == self.value_spec(),
            r != -1,
    {
        self.0.get()
    }

    /// The stored location, unchanged.
    pub fn to_i32(&self) -> (r: i32)
        ensures
            r == self.value_spec(),
            r != -1,
    {
        self.0.get()
    }

    /// The stored location, consuming the value.
    pub fn into_i32(self) -> (r: i32)
        ensures
            r == self.value_spec(),
            r != -1,
    {
        self.0.get()
    }
}

/// A compact representation of an optional [`UniformLocation`]: the raw
/// driver value with the -1 sentinel kept in band.
#[derive(Debug)]
pub struct OptionUniformLocation<T>(pub i32, pub PhantomData<T>);

impl<T> OptionUniformLocation<T> {
    /// Wraps a raw driver value; -1 is legal here and denotes absence.
    pub fn new(val: i32) -> (r: Self)
        ensures
            r.0 == val,
    {
        OptionUniformLocation(val, PhantomData)
    }

    /// The absent location.
    pub fn none() -> (r: Self)
        ensures
            r.0 == -1,
    {
        OptionUniformLocation(-1, PhantomData)
    }

    /// Whether a location is present.
    pub fn is_some(&self) -> (r: bool)
        ensures
            r <==> self.0 != -1,
    {
        self.0 != -1
    }

    /// Whether the location is absent.
    pub fn is_none(&self) -> (r: bool)
        ensures
            r <==> self.0 == -1,
    {
        self.0 == -1
    }

    /// The stored raw value, unchanged; -1 means absent.
    pub fn to_i32(&self) -> (r: i32)
        ensures
            r == self.0,
    {
        self.0
    }

    /// Converts from the standard optional form, mapping absence to the
    /// -1 sentinel.
    pub fn from_option(val: Option<UniformLocation<T>>) -> (r: Self)
        ensures
            val matches Some(l) ==> r.0 == l.value_spec(),
            val is None ==> r.0 == -1,
    {
        match val {
            Some(l) => OptionUniformLocation(l.into_i32(), PhantomData),
            None => OptionUniformLocation(-1, PhantomData),
        }
    }

    /// Converts to the standard optional form: a location when the
    /// stored value is not the sentinel, nothing otherwise.
    pub fn to_option(&self) -> (r: Option<UniformLocation<T>>)
        ensures
            r is Some <==> self.0 != -1,
            r matches Some(l) ==> l.value_spec() == self.0,
    {
        UniformLocation::from_i32(self.0)
    }
}

} // verus!
