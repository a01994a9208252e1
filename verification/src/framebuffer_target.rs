//! The binding targets of framebuffer objects.

use vstd::prelude::*;
use crate::gl;

verus! {

#[derive(Clone, Copy, PartialEq, Eq, Structural, Hash, Debug)]
pub enum FramebufferTarget {
    DrawFramebuffer,
    ReadFramebuffer,
    Framebuffer,
}

impl FramebufferTarget {
    /// The numeric constant the driver uses for this member.
    pub open spec fn as_u32_spec(self) -> u32 {
        match self {
            FramebufferTarget::DrawFramebuffer => gl::DRAW_FRAMEBUFFER,
            FramebufferTarget::ReadFramebuffer => gl::READ_FRAMEBUFFER,
            FramebufferTarget::Framebuffer => gl::FRAMEBUFFER,
        }
    }

    /// Encodes this member as the raw integer the driver understands.
    pub fn as_u32(&self) -> (r: u32)
        ensures
            r == self.as_u32_spec(),
    {
        match *self {
            FramebufferTarget::DrawFramebuffer => gl::DRAW_FRAMEBUFFER,
            FramebufferTarget::ReadFramebuffer => gl::READ_FRAMEBUFFER,
            FramebufferTarget::Framebuffer => gl::FRAMEBUFFER,
        }
    }
}

} // verus!
