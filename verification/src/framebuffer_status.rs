//! The completeness statuses a framebuffer check can report.

use vstd::prelude::*;
use crate::gl;

verus! {

#[derive(Clone, Copy, PartialEq, Eq, Structural, Hash, Debug)]
pub enum FramebufferStatus {
    Complete,
    Undefined,
    IncompleteAttachment,
    IncompleteMissingAttachment,
    IncompleteDrawBuffer,
    IncompleteReadBuffer,
    Unsupported,
    IncompleteMultisample,
    IncompleteLayerTargets,
}

impl FramebufferStatus {
    /// The numeric constant the driver uses for this member.
    pub open spec fn as_u32_spec(self) -> u32 {
        match self {
            FramebufferStatus::Complete => gl::FRAMEBUFFER_COMPLETE,
            FramebufferStatus::Undefined => gl::FRAMEBUFFER_UNDEFINED,
            FramebufferStatus::IncompleteAttachment => gl::FRAMEBUFFER_INCOMPLETE_ATTACHMENT,
            FramebufferStatus::IncompleteMissingAttachment => gl::FRAMEBUFFER_INCOMPLETE_MISSING_ATTACHMENT,
            FramebufferStatus::IncompleteDrawBuffer => gl::FRAMEBUFFER_INCOMPLETE_DRAW_BUFFER,
            FramebufferStatus::IncompleteReadBuffer => gl::FRAMEBUFFER_INCOMPLETE_READ_BUFFER,
            FramebufferStatus::Unsupported => gl::FRAMEBUFFER_UNSUPPORTED,
            FramebufferStatus::IncompleteMultisample => gl::FRAMEBUFFER_INCOMPLETE_MULTISAMPLE,
            FramebufferStatus::IncompleteLayerTargets => gl::FRAMEBUFFER_INCOMPLETE_LAYER_TARGETS,
        }
    }

    /// Encodes this member as the raw integer the driver understands.
    pub fn as_u32(&self) -> (r: u32)
        ensures
            r == self.as_u32_spec(),
    {
        match *self {
            FramebufferStatus::Complete => gl::FRAMEBUFFER_COMPLETE,
            FramebufferStatus::Undefined => gl::FRAMEBUFFER_UNDEFINED,
            FramebufferStatus::IncompleteAttachment => gl::FRAMEBUFFER_INCOMPLETE_ATTACHMENT,
            FramebufferStatus::IncompleteMissingAttachment => gl::FRAMEBUFFER_INCOMPLETE_MISSING_ATTACHMENT,
            FramebufferStatus::IncompleteDrawBuffer => gl::FRAMEBUFFER_INCOMPLETE_DRAW_BUFFER,
            FramebufferStatus::IncompleteReadBuffer => gl::FRAMEBUFFER_INCOMPLETE_READ_BUFFER,
            FramebufferStatus::Unsupported => gl::FRAMEBUFFER_UNSUPPORTED,
            FramebufferStatus::IncompleteMultisample => gl::FRAMEBUFFER_INCOMPLETE_MULTISAMPLE,
            FramebufferStatus::IncompleteLayerTargets => gl::FRAMEBUFFER_INCOMPLETE_LAYER_TARGETS,
        }
    }

    /// The member a raw integer decodes to, when it is among the
    /// declared constants.
    pub open spec fn from_u32_spec(raw: u32) -> Option<FramebufferStatus> {
        if raw == gl::FRAMEBUFFER_COMPLETE {
            Some(FramebufferStatus::Complete)
        } else if raw == gl::FRAMEBUFFER_UNDEFINED {
            Some(FramebufferStatus::Undefined)
        } else if raw == gl::FRAMEBUFFER_INCOMPLETE_ATTACHMENT {
            Some(FramebufferStatus::IncompleteAttachment)
        } else if raw == gl::FRAMEBUFFER_INCOMPLETE_MISSING_ATTACHMENT {
            Some(FramebufferStatus::IncompleteMissingAttachment)
        } else if raw == gl::FRAMEBUFFER_INCOMPLETE_DRAW_BUFFER {
            Some(FramebufferStatus::IncompleteDrawBuffer)
        } else if raw == gl::FRAMEBUFFER_INCOMPLETE_READ_BUFFER {
            Some(FramebufferStatus::IncompleteReadBuffer)
        } else if raw == gl::FRAMEBUFFER_UNSUPPORTED {
            Some(FramebufferStatus::Unsupported)
        } else if raw == gl::FRAMEBUFFER_INCOMPLETE_MULTISAMPLE {
            Some(FramebufferStatus::IncompleteMultisample)
        } else if raw == gl::FRAMEBUFFER_INCOMPLETE_LAYER_TARGETS {
            Some(FramebufferStatus::IncompleteLayerTargets)
        } else {
            None
        }
    }

    /// Decodes a raw integer, yielding nothing if and only if it is
    /// not among the declared constants of this enumeration.
    pub fn from_raw(raw: u32) -> (r: Option<FramebufferStatus>)
        ensures
            r == Self::from_u32_spec(raw),
            r matches Some(s) ==> s.as_u32_spec() == raw,
    {
        if raw == gl::FRAMEBUFFER_COMPLETE {
            Some(FramebufferStatus::Complete)
        } else if raw == gl::FRAMEBUFFER_UNDEFINED {
            Some(FramebufferStatus::Undefined)
        } else if raw == gl::FRAMEBUFFER_INCOMPLETE_ATTACHMENT {
            Some(FramebufferStatus::IncompleteAttachment)
        } else if raw == gl::FRAMEBUFFER_INCOMPLETE_MISSING_ATTACHMENT {
            Some(FramebufferStatus::IncompleteMissingAttachment)
        } else if raw == gl::FRAMEBUFFER_INCOMPLETE_DRAW_BUFFER {
            Some(FramebufferStatus::IncompleteDrawBuffer)
        } else if raw == gl::FRAMEBUFFER_INCOMPLETE_READ_BUFFER {
            Some(FramebufferStatus::IncompleteReadBuffer)
        } else if raw == gl::FRAMEBUFFER_UNSUPPORTED {
            Some(FramebufferStatus::Unsupported)
        } else if raw == gl::FRAMEBUFFER_INCOMPLETE_MULTISAMPLE {
            Some(FramebufferStatus::IncompleteMultisample)
        } else if raw == gl::FRAMEBUFFER_INCOMPLETE_LAYER_TARGETS {
            Some(FramebufferStatus::IncompleteLayerTargets)
        } else {
            None
        }
    }
}

} // verus!
