//! The binding targets of texture objects.

use vstd::prelude::*;
use crate::gl;

verus! {

#[derive(Clone, Copy, PartialEq, Eq, Structural, Hash, Debug)]
pub enum TextureTarget {
    Texture1D,
    Texture2D,
    Texture3D,
    Texture1DArray,
    Texture2DArray,
    TextureRectangle,
    TextureBuffer,
    TextureCubeMap,
    TextureCubeMapArray,
    Texture2DMultisample,
    Texture2DMultisampleArray,
}

impl TextureTarget {
    /// The numeric constant the driver uses for this member.
    pub open spec fn as_u32_spec(self) -> u32 {
        match self {
            TextureTarget::Texture1D => gl::TEXTURE_1D,
            TextureTarget::Texture2D => gl::TEXTURE_2D,
            TextureTarget::Texture3D => gl::TEXTURE_3D,
            TextureTarget::Texture1DArray => gl::TEXTURE_1D_ARRAY,
            TextureTarget::Texture2DArray => gl::TEXTURE_2D_ARRAY,
            TextureTarget::TextureRectangle => gl::TEXTURE_RECTANGLE,
            TextureTarget::TextureBuffer => gl::TEXTURE_BUFFER,
            TextureTarget::TextureCubeMap => gl::TEXTURE_CUBE_MAP,
            TextureTarget::TextureCubeMapArray => gl::TEXTURE_CUBE_MAP_ARRAY,
            TextureTarget::Texture2DMultisample => gl::TEXTURE_2D_MULTISAMPLE,
            TextureTarget::Texture2DMultisampleArray => gl::TEXTURE_2D_MULTISAMPLE_ARRAY,
        }
    }

    /// Encodes this member as the raw integer the driver understands.
    pub fn as_u32(&self) -> (r: u32)
        ensures
            r == self.as_u32_spec(),
    {
        match *self {
            TextureTarget::Texture1D => gl::TEXTURE_1D,
            TextureTarget::Texture2D => gl::TEXTURE_2D,
            TextureTarget::Texture3D => gl::TEXTURE_3D,
            TextureTarget::Texture1DArray => gl::TEXTURE_1D_ARRAY,
            TextureTarget::Texture2DArray => gl::TEXTURE_2D_ARRAY,
            TextureTarget::TextureRectangle => gl::TEXTURE_RECTANGLE,
            TextureTarget::TextureBuffer => gl::TEXTURE_BUFFER,
            TextureTarget::TextureCubeMap => gl::TEXTURE_CUBE_MAP,
            TextureTarget::TextureCubeMapArray => gl::TEXTURE_CUBE_MAP_ARRAY,
            TextureTarget::Texture2DMultisample => gl::TEXTURE_2D_MULTISAMPLE,
            TextureTarget::Texture2DMultisampleArray => gl::TEXTURE_2D_MULTISAMPLE_ARRAY,
        }
    }
}

} // verus!
