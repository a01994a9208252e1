//! Framebuffer attachment points, with color attachments bounds-checked
//! against the driver's reported limit.

use vstd::prelude::*;
use crate::gl;

verus! {

/// The driver's limit on color attachments, as reported by its integer
/// query.
#[derive(Clone, Copy, PartialEq, Eq, Structural, Hash, Debug)]
pub struct MaxColorAttachments(u32);

impl MaxColorAttachments {
    /// The reported limit.
    pub closed spec fn value_spec(self) -> u32 {
        self.0
    }

    /// Wraps the limit the driver's integer query reported.
    pub fn from_u32(limit: u32) -> (r: Self)
        ensures
            r.value_spec() == limit,
    {
        MaxColorAttachments(limit)
    }

    /// The reported limit, unchanged.
    pub fn to_u32(&self) -> (r: u32)
        ensures
            r == self.value_spec(),
    {
        self.0
    }

    /// The reported limit, consuming the value.
    pub fn into_u32(self) -> (r: u32)
        ensures
            r == self.value_spec(),
    {
        self.0
    }
}

/// A framebuffer attachment point.
#[derive(Clone, Copy, PartialEq, Eq, Structural, Hash, Debug)]
pub struct FramebufferAttachment(u32);

impl FramebufferAttachment {
    /// The raw attachment constant this value denotes.
    pub closed spec fn as_u32_spec(self) -> u32 {
        self.0
    }

    /// Wraps the color attachment with the given index when it lies
    /// below the driver's reported limit. The limit a real driver
    /// reports is far below the numeric range where the attachment
    /// constant would wrap, and this constructor asks the caller for
    /// that.
    pub fn new(index: u32, max: MaxColorAttachments) -> (r: Option<Self>)
        requires
            index < max.value_spec() ==> gl::COLOR_ATTACHMENT0 + index <= u32::MAX,
        ensures
            r is Some <==> index < max.value_spec(),
            r matches Some(a) ==> a.as_u32_spec() == gl::COLOR_ATTACHMENT0 + index,
    {
        if index < max.to_u32() {
            Some(FramebufferAttachment(gl::COLOR_ATTACHMENT0 + index))
        } else {
            None
        }
    }

    /// The depth attachment point.
    pub fn depth() -> (r: Self)
        ensures
            r.as_u32_spec() == gl::DEPTH_ATTACHMENT,
    {
        FramebufferAttachment(gl::DEPTH_ATTACHMENT)
    }

    /// The stencil attachment point.
    pub fn stencil() -> (r: Self)
        ensures
            r.as_u32_spec() == gl::STENCIL_ATTACHMENT,
    {
        FramebufferAttachment(gl::STENCIL_ATTACHMENT)
    }

    /// The combined depth and stencil attachment point.
    pub fn depth_stencil() -> (r: Self)
        ensures
            r.as_u32_spec() == gl::DEPTH_STENCIL_ATTACHMENT,
    {
        FramebufferAttachment(gl::DEPTH_STENCIL_ATTACHMENT)
    }

    /// The raw attachment constant, unchanged.
    pub fn as_u32(&self) -> (r: u32)
        ensures
            r == self.as_u32_spec(),
    {
        self.0
    }

    /// The raw attachment constant, unchanged.
    pub fn to_u32(&self) -> (r: u32)
        ensures
            r == self.as_u32_spec(),
    {
        self.0
    }

    /// The raw attachment constant, consuming the value.
    pub fn into_u32(self) -> (r: u32)
        ensures
            r == self.as_u32_spec(),
    {
        self.0
    }
}

} // verus!
