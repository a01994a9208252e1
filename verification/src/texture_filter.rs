//! Texture filtering modes and the parameter keys that accept them.

use vstd::prelude::*;
use crate::gl;
use crate::texture_parameter::TextureParameterI32Key;
use crate::texture_parameter::TextureParameterI32Value;
use crate::traits::SamplerParameteriParam;
use crate::traits::SamplerParameteriValue;

verus! {

/// A texture filtering mode.
#[derive(Clone, Copy, PartialEq, Eq, Structural, Hash, Debug)]
pub enum TextureFilter {
    /// The texture element nearest to the sampled coordinates.
    Nearest,
    /// The weighted average of the four nearest texture elements.
    Linear,
    /// The nearest element of the closest-matching mipmap.
    NearestMipmapNearest,
    /// The weighted average within the closest-matching mipmap.
    LinearMipmapNearest,
    /// The nearest element of each of the two closest mipmaps, averaged.
    NearestMipmapLinear,
    /// The weighted average within each of the two closest mipmaps,
    /// averaged.
    LinearMipmapLinear,
}

impl TextureFilter {
    /// The numeric constant the driver uses for this member.
    pub open spec fn as_u32_spec(self) -> u32 {
        match self {
            TextureFilter::Nearest => gl::NEAREST,
            TextureFilter::Linear => gl::LINEAR,
            TextureFilter::NearestMipmapNearest => gl::NEAREST_MIPMAP_NEAREST,
            TextureFilter::LinearMipmapNearest => gl::LINEAR_MIPMAP_NEAREST,
            TextureFilter::NearestMipmapLinear => gl::NEAREST_MIPMAP_LINEAR,
            TextureFilter::LinearMipmapLinear => gl::LINEAR_MIPMAP_LINEAR,
        }
    }

    /// Encodes this member as the raw integer the driver understands.
    pub fn as_u32(&self) -> (r: u32)
        ensures
            r == self.as_u32_spec(),
    {
        match *self {
            TextureFilter::Nearest => gl::NEAREST,
            TextureFilter::Linear => gl::LINEAR,
            TextureFilter::NearestMipmapNearest => gl::NEAREST_MIPMAP_NEAREST,
            TextureFilter::LinearMipmapNearest => gl::LINEAR_MIPMAP_NEAREST,
            TextureFilter::NearestMipmapLinear => gl::NEAREST_MIPMAP_LINEAR,
            TextureFilter::LinearMipmapLinear => gl::LINEAR_MIPMAP_LINEAR,
        }
    }
}

impl TextureParameterI32Value for TextureFilter {
    open spec fn as_i32_spec(&self) -> i32 {
        self.as_u32_spec() as i32
    }

    fn as_i32(&self) -> (r: i32) {
        self.as_u32() as i32
    }
}

impl SamplerParameteriValue for TextureFilter {
    open spec fn as_i32_spec(&self) -> i32 {
        TextureFilter::as_u32_spec(*self) as i32
    }

    fn to_i32(&self) -> (r: i32) {
        self.as_u32() as i32
    }
}

/// A parameter key that admits a [`TextureFilter`] value.
#[derive(Clone, Copy, PartialEq, Eq, Structural, Hash, Debug)]
pub enum TextureFilterKey {
    TextureMinFilter,
    TextureMagFilter,
}

impl TextureFilterKey {
    /// The numeric constant the driver uses for this member.
    pub open spec fn as_u32_spec(self) -> u32 {
        match self {
            TextureFilterKey::TextureMinFilter => gl::TEXTURE_MIN_FILTER,
            TextureFilterKey::TextureMagFilter => gl::TEXTURE_MAG_FILTER,
        }
    }
}

impl TextureParameterI32Key for TextureFilterKey {
    type Value = TextureFilter;

    open spec fn as_u32_spec(&self) -> u32 {
        TextureFilterKey::as_u32_spec(*self)
    }

    fn as_u32(&self) -> (r: u32) {
        match *self {
            TextureFilterKey::TextureMinFilter => gl::TEXTURE_MIN_FILTER,
            TextureFilterKey::TextureMagFilter => gl::TEXTURE_MAG_FILTER,
        }
    }
}

impl SamplerParameteriParam for TextureFilterKey {
    type Value = TextureFilter;

    open spec fn as_u32_spec(&self) -> u32 {
        TextureFilterKey::as_u32_spec(*self)
    }

    fn to_u32(&self) -> (r: u32) {
        match *self {
            TextureFilterKey::TextureMinFilter => gl::TEXTURE_MIN_FILTER,
            TextureFilterKey::TextureMagFilter => gl::TEXTURE_MAG_FILTER,
        }
    }
}

} // verus!
