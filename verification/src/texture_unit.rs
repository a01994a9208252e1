//! Texture units, bounds-checked against the driver's reported limit.

use vstd::prelude::*;
use crate::gl;

verus! {

/// The driver's limit on combined texture image units, as reported by
/// its integer query.
#[derive(Clone, Copy, PartialEq, Eq, Structural, Hash, Debug)]
pub struct MaxCombinedTextureImageUnits(u32);

impl MaxCombinedTextureImageUnits {
    /// The reported limit.
    pub closed spec fn value_spec(self) -> u32 {
        self.0
    }

    /// Wraps the limit the driver's integer query reported.
    pub fn from_u32(limit: u32) -> (r: Self)
        ensures
            r.value_spec() == limit,
    {
        MaxCombinedTextureImageUnits(limit)
    }

    /// The reported limit, unchanged.
    pub fn get(&self) -> (r: u32)
        ensures
            r == self.value_spec(),
    {
        self.0
    }

    /// The reported limit, unchanged.
    pub fn to_u32(&self) -> (r: u32)
        ensures
            r == self.value_spec(),
    {
        self.0
    }

    /// The reported limit, consuming the value.
    pub fn into_u32(self) -> (r: u32)
        ensures
            r == self.value_spec(),
    {
        self.0
    }
}

/// A texture unit: the constant of the first unit plus a bounds-checked
/// index.
#[derive(Clone, Copy, PartialEq, Eq, Structural, Hash, Debug)]
pub struct TextureUnit(u32);

impl TextureUnit {
    /// The raw unit constant this value denotes.
    pub closed spec fn as_u32_spec(self) -> u32 {
        self.0
    }

    /// Wraps the unit with the given index when it lies below the
    /// driver's reported limit. The limit a real driver reports is far
    /// below the numeric range where the unit constant would wrap, and
    /// this constructor asks the caller for that.
    pub fn new(index: u32, max: MaxCombinedTextureImageUnits) -> (r: Option<Self>)
        requires
            index < max.value_spec() ==> gl::TEXTURE0 + index <= u32::MAX,
        ensures
            r is Some <==> index < max.value_spec(),
            r matches Some(u) ==> u.as_u32_spec() == gl::TEXTURE0 + index,
    {
        if index < max.get() {
            Some(TextureUnit(gl::TEXTURE0 + index))
        } else {
            None
        }
    }

    /// The raw unit constant, unchanged.
    pub fn as_u32(&self) -> (r: u32)
        ensures
            r == self.as_u32_spec(),
    {
        self.0
    }

    /// The raw unit constant, unchanged.
    pub fn to_u32(&self) -> (r: u32)
        ensures
            r == self.as_u32_spec(),
    {
        self.0
    }

    /// The raw unit constant, consuming the value.
    pub fn into_u32(self) -> (r: u32)
        ensures
            r == self.as_u32_spec(),
    {
        self.0
    }
}

} // verus!
