//! Texture coordinate wrap modes and the parameter keys that accept
//! them.

use vstd::prelude::*;
use crate::gl;
use crate::texture_parameter::TextureParameterI32Key;
use crate::texture_parameter::TextureParameterI32Value;
use crate::traits::SamplerParameteriParam;
use crate::traits::SamplerParameteriValue;

verus! {

/// A texture coordinate wrap mode.
#[derive(Clone, Copy, PartialEq, Eq, Structural, Hash, Debug)]
pub enum TextureWrap {
    ClampToEdge,
    ClampToBorder,
    MirroredRepeat,
    Repeat,
    MirrorClampToEdge,
}

impl TextureWrap {
    /// The numeric constant the driver uses for this member.
    pub open spec fn as_u32_spec(self) -> u32 {
        match self {
            TextureWrap::ClampToEdge => gl::CLAMP_TO_EDGE,
            TextureWrap::ClampToBorder => gl::CLAMP_TO_BORDER,
            TextureWrap::MirroredRepeat => gl::MIRRORED_REPEAT,
            TextureWrap::Repeat => gl::REPEAT,
            TextureWrap::MirrorClampToEdge => gl::MIRROR_CLAMP_TO_EDGE,
        }
    }

    /// Encodes this member as the raw integer the driver understands.
    pub fn as_u32(&self) -> (r: u32)
        ensures
            r == self.as_u32_spec(),
    {
        match *self {
            TextureWrap::ClampToEdge => gl::CLAMP_TO_EDGE,
            TextureWrap::ClampToBorder => gl::CLAMP_TO_BORDER,
            TextureWrap::MirroredRepeat => gl::MIRRORED_REPEAT,
            TextureWrap::Repeat => gl::REPEAT,
            TextureWrap::MirrorClampToEdge => gl::MIRROR_CLAMP_TO_EDGE,
        }
    }
}

impl TextureParameterI32Value for TextureWrap {
    open spec fn as_i32_spec(&self) -> i32 {
        self.as_u32_spec() as i32
    }

    fn as_i32(&self) -> (r: i32) {
        self.as_u32() as i32
    }
}

impl SamplerParameteriValue for TextureWrap {
    open spec fn as_i32_spec(&self) -> i32 {
        TextureWrap::as_u32_spec(*self) as i32
    }

    fn to_i32(&self) -> (r: i32) {
        self.as_u32() as i32
    }
}

/// A parameter key that admits a [`TextureWrap`] value: one per texture
/// coordinate.
#[derive(Clone, Copy, PartialEq, Eq, Structural, Hash, Debug)]
pub enum TextureWrapKey {
    TextureWrapS,
    TextureWrapT,
    TextureWrapR,
}

impl TextureWrapKey {
    /// The numeric constant the driver uses for this member.
    pub open spec fn as_u32_spec(self) -> u32 {
        match self {
            TextureWrapKey::TextureWrapS => gl::TEXTURE_WRAP_S,
            TextureWrapKey::TextureWrapT => gl::TEXTURE_WRAP_T,
            TextureWrapKey::TextureWrapR => gl::TEXTURE_WRAP_R,
        }
    }
}

impl TextureParameterI32Key for TextureWrapKey {
    type Value = TextureWrap;

    open spec fn as_u32_spec(&self) -> u32 {
        TextureWrapKey::as_u32_spec(*self)
    }

    fn as_u32(&self) -> (r: u32) {
        match *self {
            TextureWrapKey::TextureWrapS => gl::TEXTURE_WRAP_S,
            TextureWrapKey::TextureWrapT => gl::TEXTURE_WRAP_T,
            TextureWrapKey::TextureWrapR => gl::TEXTURE_WRAP_R,
        }
    }
}

impl SamplerParameteriParam for TextureWrapKey {
    type Value = TextureWrap;

    open spec fn as_u32_spec(&self) -> u32 {
        TextureWrapKey::as_u32_spec(*self)
    }

    fn to_u32(&self) -> (r: u32) {
        match *self {
            TextureWrapKey::TextureWrapS => gl::TEXTURE_WRAP_S,
            TextureWrapKey::TextureWrapT => gl::TEXTURE_WRAP_T,
            TextureWrapKey::TextureWrapR => gl::TEXTURE_WRAP_R,
        }
    }
}

} // verus!
