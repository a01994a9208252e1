//! The binding targets of buffer objects.

use vstd::prelude::*;
use crate::gl;

verus! {

#[derive(Clone, Copy, PartialEq, Eq, Structural, Hash, Debug)]
pub enum BufferTarget {
    ArrayBuffer,
    AtomicCounterBuffer,
    CopyReadBuffer,
    CopyWriteBuffer,
    DispatchIndirectBuffer,
    DrawIndirectBuffer,
    ElementArrayBuffer,
    PixelPackBuffer,
    PixelUnpackBuffer,
    QueryBuffer,
    ShaderStorageBuffer,
    TextureBuffer,
    TransformFeedbackBuffer,
    UniformBuffer,
}

impl BufferTarget {
    /// The numeric constant the driver uses for this member.
    pub open spec fn as_u32_spec(self) -> u32 {
        match self {
            BufferTarget::ArrayBuffer => gl::ARRAY_BUFFER,
            BufferTarget::AtomicCounterBuffer => gl::ATOMIC_COUNTER_BUFFER,
            BufferTarget::CopyReadBuffer => gl::COPY_READ_BUFFER,
            BufferTarget::CopyWriteBuffer => gl::COPY_WRITE_BUFFER,
            BufferTarget::DispatchIndirectBuffer => gl::DISPATCH_INDIRECT_BUFFER,
            BufferTarget::DrawIndirectBuffer => gl::DRAW_INDIRECT_BUFFER,
            BufferTarget::ElementArrayBuffer => gl::ELEMENT_ARRAY_BUFFER,
            BufferTarget::PixelPackBuffer => gl::PIXEL_PACK_BUFFER,
            BufferTarget::PixelUnpackBuffer => gl::PIXEL_UNPACK_BUFFER,
            BufferTarget::QueryBuffer => gl::QUERY_BUFFER,
            BufferTarget::ShaderStorageBuffer => gl::SHADER_STORAGE_BUFFER,
            BufferTarget::TextureBuffer => gl::TEXTURE_BUFFER,
            BufferTarget::TransformFeedbackBuffer => gl::TRANSFORM_FEEDBACK_BUFFER,
            BufferTarget::UniformBuffer => gl::UNIFORM_BUFFER,
        }
    }

    /// Encodes this member as the raw integer the driver understands.
    pub fn as_u32(&self) -> (r: u32)
        ensures
            r == self.as_u32_spec(),
    {
        match *self {
            BufferTarget::ArrayBuffer => gl::ARRAY_BUFFER,
            BufferTarget::AtomicCounterBuffer => gl::ATOMIC_COUNTER_BUFFER,
            BufferTarget::CopyReadBuffer => gl::COPY_READ_BUFFER,
            BufferTarget::CopyWriteBuffer => gl::COPY_WRITE_BUFFER,
            BufferTarget::DispatchIndirectBuffer => gl::DISPATCH_INDIRECT_BUFFER,
            BufferTarget::DrawIndirectBuffer => gl::DRAW_INDIRECT_BUFFER,
            BufferTarget::ElementArrayBuffer => gl::ELEMENT_ARRAY_BUFFER,
            BufferTarget::PixelPackBuffer => gl::PIXEL_PACK_BUFFER,
            BufferTarget::PixelUnpackBuffer => gl::PIXEL_UNPACK_BUFFER,
            BufferTarget::QueryBuffer => gl::QUERY_BUFFER,
            BufferTarget::ShaderStorageBuffer => gl::SHADER_STORAGE_BUFFER,
            BufferTarget::TextureBuffer => gl::TEXTURE_BUFFER,
            BufferTarget::TransformFeedbackBuffer => gl::TRANSFORM_FEEDBACK_BUFFER,
            BufferTarget::UniformBuffer => gl::UNIFORM_BUFFER,
        }
    }
}

} // verus!
