//! Locations and indices reported by program interface queries.
//!
//! The driver reports a missing attribute location as -1 and a missing
//! uniform block index as `u32::MAX`. Each location type excludes its
//! sentinel, and a compact companion type keeps the sentinel in band,
//! occupying exactly the storage of the raw value.

use vstd::prelude::*;
use crate::num::NonMinusOneI32;

verus! {

/// An attribute location: a value the driver reported that is known not
/// to be the -1 sentinel.
#[derive(Debug)]
pub struct AttributeLocation(NonMinusOneI32);

impl AttributeLocation {
    /// The location this value denotes.
    pub closed spec fn value_spec(self) -> int {
        self.0.value_spec()
    }

    /// Wraps `val` when it is not the -1 sentinel.
    pub fn from_i32(val: i32) -> (r: Option<Self>)
        ensures
            r is Some <==> val != -1,
            r matches Some(l) ==> l.value_spec() == val,
    {
        match NonMinusOneI32::new(val) {
            Some(n) => Some(AttributeLocation(n)),
            None => None,
        }
    }

    /// The stored location, unchanged.
    pub fn to_i32(&self) -> (r: i32)
        ensures
            r == self.value_spec(),
            r != -1,
    {
        self.0.get()
    }

    /// The stored location, consuming the value.
    pub fn into_i32(self) -> (r: i32)
        ensures
            r == self.value_spec(),
            r != -1,
    {
        self.0.get()
    }
}

/// A compact representation of an optional [`AttributeLocation`]: the
/// raw driver value with the -1 sentinel kept in band.
#[derive(Clone, Copy, PartialEq, Eq, Structural, Hash, Debug)]
pub struct OptionAttributeLocation(pub i32);

impl OptionAttributeLocation {
    /// Wraps a raw driver value; -1 is legal here and denotes absence.
    pub fn new(val: i32) -> (r: Self)
        ensures
            r.0 == val,
    {
        OptionAttributeLocation(val)
    }

    /// Wraps a raw driver value; -1 is legal here and denotes absence.
    pub fn from_i32(val: i32) -> (r: Self)
        ensures
            r.0 == val,
    {
        OptionAttributeLocation(val)
    }

    /// The absent location.
    pub fn none() -> (r: Self)
        ensures
            r.0 == -1,
    {
        OptionAttributeLocation(-1)
    }

    /// Whether a location is present.
    pub fn is_some(&self) -> (r: bool)
        ensures
            r <==> self.0 != -1,
    {
        self.0 != -1
    }

    /// Whether the location is absent.
    pub fn is_none(&self) -> (r: bool)
        ensures
            r <==> self.0 == -1,
    {
        self.0 == -1
    }

    /// The stored raw value, unchanged; -1 means absent.
    pub fn to_i32(&self) -> (r: i32)
        ensures
            r == self.0,
    {
        self.0
    }

    /// Converts from the standard optional form, mapping absence to the
    /// -1 sentinel.
    pub fn from_option(val: Option<AttributeLocation>) -> (r: Self)
        ensures
            val matches Some(l) ==> r.0 == l.value_spec(),
            val is None ==> r.0 == -1,
    {
        match val {
            Some(l) => OptionAttributeLocation(l.into_i32()),
            None => OptionAttributeLocation(-1),
        }
    }

    /// Converts to the standard optional form: a location when the
    /// stored value is not the sentinel, nothing otherwise.
    pub fn to_option(&self) -> (r: Option<AttributeLocation>)
        ensures
            r is Some <==> self.0 != -1,
            r matches Some(l) ==> l.value_spec() == self.0,
    {
        AttributeLocation::from_i32(self.0)
    }
}

/// A uniform block index: a value the driver reported that is known not
/// to be the `u32::MAX` sentinel.
#[derive(Clone, Copy, PartialEq, Eq, Structural, Hash, Debug)]
pub struct UniformBlockIndex(u32);

impl UniformBlockIndex {
    #[verifier::type_invariant]
    spec fn inv(self) -> bool {
        self.0 != u32::MAX
    }

    /// The index this value denotes.
    pub closed spec fn value_spec(self) -> u32 {
        self.0
    }

    /// Wraps `val` when it is not the `u32::MAX` sentinel.
    pub fn from_u32(val: u32) -> (r: Option<Self>)
        ensures
            r is Some <==> val != u32::MAX,
            r matches Some(x) ==> x.value_spec() == val,
    {
        if val != u32::MAX {
            Some(UniformBlockIndex(val))
        } else {
            None
        }
    }

    /// The stored index, unchanged.
    pub fn to_u32(&self) -> (r: u32)
        ensures
            r == self.value_spec(),
            r != u32::MAX,
    {
        proof {
            use_type_invariant(self);
        }
        self.0
    }

    /// The stored index, consuming the value.
    pub fn into_u32(self) -> (r: u32)
        ensures
            r == self.value_spec(),
            r != u32::MAX,
    {
        proof {
            use_type_invariant(&self);
        }
        self.0
    }
}

/// A compact representation of an optional [`UniformBlockIndex`]: the
/// raw driver value with the `u32::MAX` sentinel kept in band.
#[derive(Clone, Copy, PartialEq, Eq, Structural, Hash, Debug)]
pub struct OptionUniformBlockIndex(pub u32);

impl OptionUniformBlockIndex {
    /// Wraps a raw driver value; `u32::MAX` is legal here and denotes
    /// absence.
    pub fn new(val: u32) -> (r: Self)
        ensures
            r.0 == val,
    {
        OptionUniformBlockIndex(val)
    }

    /// Wraps a raw driver value; `u32::MAX` is legal here and denotes
    /// absence.
    pub fn from_u32(val: u32) -> (r: Self)
        ensures
            r.0 == val,
    {
        OptionUniformBlockIndex(val)
    }

    /// The absent index.
    pub fn none() -> (r: Self)
        ensures
            r.0 == u32::MAX,
    {
        OptionUniformBlockIndex(u32::MAX)
    }

    /// Whether an index is present.
    pub fn is_some(&self) -> (r: bool)
        ensures
            r <==> self.0 != u32::MAX,
    {
        self.0 != u32::MAX
    }

    /// Whether the index is absent.
    pub fn is_none(&self) -> (r: bool)
        ensures
            r <==> self.0 == u32::MAX,
    {
        self.0 == u32::MAX
    }

    /// The stored raw value, unchanged; `u32::MAX` means absent.
    pub fn to_u32(&self) -> (r: u32)
        ensures
            r == self.0,
    {
        self.0
    }

    /// Converts from the standard optional form, mapping absence to the
    /// `u32::MAX` sentinel.
    pub fn from_option(val: Option<UniformBlockIndex>) -> (r: Self)
        ensures
            val matches Some(x) ==> r.0 == x.value_spec(),
            val is None ==> r.0 == u32::MAX,
    {
        match val {
            Some(x) => OptionUniformBlockIndex(x.into_u32()),
            None => OptionUniformBlockIndex(u32::MAX),
        }
    }

    /// Converts to the standard optional form: an index when the stored
    /// value is not the sentinel, nothing otherwise.
    pub fn to_option(&self) -> (r: Option<UniformBlockIndex>)
        ensures
            r is Some <==> self.0 != u32::MAX,
            r matches Some(x) ==> x.value_spec() == self.0,
    {
        UniformBlockIndex::from_u32(self.0)
    }
}

/// The index of a vertex buffer binding point of a vertex array object.
/// Any value is legal; the driver bounds-checks it against its own
/// limit.
#[derive(Clone, Copy, PartialEq, Eq, Structural, Hash, Debug)]
pub struct VertexArrayBufferBindingIndex(u32);

impl VertexArrayBufferBindingIndex {
    /// Wraps a binding point index.
    pub fn from_u32(value: u32) -> (r: Self)
        ensures
            r.to_u32_spec() == value,
    {
        VertexArrayBufferBindingIndex(value)
    }

    /// The stored index.
    pub closed spec fn to_u32_spec(self) -> u32 {
        self.0
    }

    /// The stored index, unchanged.
    pub fn to_u32(&self) -> (r: u32)
        ensures
            r == self.to_u32_spec(),
    {
        self.0
    }
}

} // verus!
