//! Sentinel-free object names and bulk conversion between sequences of
//! required names and sequences of optional names.
//!
//! A name wraps a driver-assigned identifier in `[1, u32::MAX]`; the raw
//! value 0 is reserved to mean "absent". [`OptionName`] stores the raw
//! value directly, with 0 denoting absence, so an optional name occupies
//! exactly the storage of a present one. Batch allocation entry points of
//! the driver fill a flat buffer of raw identifiers; such a buffer is
//! first read as optional names (the driver may leave slots unfilled on
//! partial failure) and promoted to required names only after the
//! completeness check of [`unwrap_all`] passes.

use vstd::prelude::*;
use core::marker::PhantomData;

verus! {

/// Relies on `Clone` of `core::marker::PhantomData`: cloning the
/// zero-size marker yields the marker itself.
pub assume_specification<T>[ <PhantomData<T> as Clone>::clone ](
    marker: &PhantomData<T>,
) -> (r: PhantomData<T>) where T: core::marker::PointeeSized
    ensures
        r == *marker,
;

/// A driver object name: an identifier that is never 0. Implementations
/// guarantee that equal raw values denote equal names.
pub trait ObjectName: Sized {
    /// The raw identifier stored in this name.
    spec fn raw_spec(self) -> u32;

    /// Two names with the same raw identifier are the same name.
    proof fn lemma_raw_determines(a: Self, b: Self)
        requires
            a.raw_spec() == b.raw_spec(),
        ensures
            a == b,
    ;

    /// Wraps a raw identifier already known to be nonzero.
    fn from_nonzero_u32(raw: u32) -> (r: Self)
        requires
            raw != 0,
        ensures
            r.raw_spec() == raw,
    ;

    /// The stored identifier, unchanged.
    fn to_raw_u32(&self) -> (r: u32)
        ensures
            r == self.raw_spec(),
            r != 0,
    ;
}

/// The name of a buffer object. No guarantee is made about the validity of
/// the driver object this name denotes.
#[derive(Clone, Copy, PartialEq, Eq, Structural, Hash, Debug)]
pub struct BufferName {
    raw: u32,
}

/// The driver reported 0 where a valid buffer name was owed: an
/// allocation failure.
#[derive(Clone, Copy, PartialEq, Eq, Structural, Debug)]
pub struct ReceivedInvalidBufferName;

impl BufferName {
    #[verifier::type_invariant]
    spec fn inv(self) -> bool {
        self.raw != 0
    }

    /// The raw identifier stored in this name.
    pub closed spec fn raw_spec(self) -> u32 {
        self.raw
    }

    /// Wraps `name` when it is a valid (nonzero) identifier, and reports
    /// an allocation failure otherwise.
    pub fn new(name: u32) -> (r: Result<Self, ReceivedInvalidBufferName>)
        ensures
            r is Ok <==> name != 0,
            r matches Ok(n) ==> n.raw_spec() == name,
    {
        if name != 0 {
            Ok(BufferName { raw: name })
        } else {
            Err(ReceivedInvalidBufferName)
        }
    }

    /// The stored identifier, unchanged.
    pub fn to_u32(&self) -> (r: u32)
        ensures
            r == self.raw_spec(),
            r != 0,
    {
        proof {
            use_type_invariant(self);
        }
        self.raw
    }

    /// The stored identifier, consuming the name.
    pub fn into_u32(self) -> (r: u32)
        ensures
            r == self.raw_spec(),
            r != 0,
    {
        proof {
            use_type_invariant(&self);
        }
        self.raw
    }
}

impl ObjectName for BufferName {
    closed spec fn raw_spec(self) -> u32 {
        self.raw
    }

    proof fn lemma_raw_determines(a: Self, b: Self) {
        assert(a == b);
    }

    fn from_nonzero_u32(raw: u32) -> (r: Self) {
        BufferName { raw }
    }

    fn to_raw_u32(&self) -> (r: u32) {
        self.to_u32()
    }
}

/// The name of a renderbuffer object. No guarantee is made about the validity of
/// the driver object this name denotes.
#[derive(Clone, Copy, PartialEq, Eq, Structural, Hash, Debug)]
pub struct RenderbufferName {
    raw: u32,
}

/// The driver reported 0 where a valid renderbuffer name was owed: an
/// allocation failure.
#[derive(Clone, Copy, PartialEq, Eq, Structural, Debug)]
pub struct ReceivedInvalidRenderbufferName;

impl RenderbufferName {
    #[verifier::type_invariant]
    spec fn inv(self) -> bool {
        self.raw != 0
    }

    /// The raw identifier stored in this name.
    pub closed spec fn raw_spec(self) -> u32 {
        self.raw
    }

    /// Wraps `name` when it is a valid (nonzero) identifier, and reports
    /// an allocation failure otherwise.
    pub fn new(name: u32) -> (r: Result<Self, ReceivedInvalidRenderbufferName>)
        ensures
            r is Ok <==> name != 0,
            r matches Ok(n) ==> n.raw_spec() == name,
    {
        if name != 0 {
            Ok(RenderbufferName { raw: name })
        } else {
            Err(ReceivedInvalidRenderbufferName)
        }
    }

    /// The stored identifier, unchanged.
    pub fn to_u32(&self) -> (r: u32)
        ensures
            r == self.raw_spec(),
            r != 0,
    {
        proof {
            use_type_invariant(self);
        }
        self.raw
    }

    /// The stored identifier, consuming the name.
    pub fn into_u32(self) -> (r: u32)
        ensures
            r == self.raw_spec(),
            r != 0,
    {
        proof {
            use_type_invariant(&self);
        }
        self.raw
    }
}

impl ObjectName for RenderbufferName {
    closed spec fn raw_spec(self) -> u32 {
        self.raw
    }

    proof fn lemma_raw_determines(a: Self, b: Self) {
        assert(a == b);
    }

    fn from_nonzero_u32(raw: u32) -> (r: Self) {
        RenderbufferName { raw }
    }

    fn to_raw_u32(&self) -> (r: u32) {
        self.to_u32()
    }
}

/// The name of a framebuffer object. No guarantee is made about the validity of
/// the driver object this name denotes.
#[derive(Clone, Copy, PartialEq, Eq, Structural, Hash, Debug)]
pub struct NonDefaultFramebufferName {
    raw: u32,
}

/// The driver reported 0 where a valid framebuffer name was owed: an
/// allocation failure.
#[derive(Clone, Copy, PartialEq, Eq, Structural, Debug)]
pub struct ReceivedInvalidFramebufferName;

impl NonDefaultFramebufferName {
    #[verifier::type_invariant]
    spec fn inv(self) -> bool {
        self.raw != 0
    }

    /// The raw identifier stored in this name.
    pub closed spec fn raw_spec(self) -> u32 {
        self.raw
    }

    /// Wraps `name` when it is a valid (nonzero) identifier, and reports
    /// an allocation failure otherwise.
    pub fn new(name: u32) -> (r: Result<Self, ReceivedInvalidFramebufferName>)
        ensures
            r is Ok <==> name != 0,
            r matches Ok(n) ==> n.raw_spec() == name,
    {
        if name != 0 {
            Ok(NonDefaultFramebufferName { raw: name })
        } else {
            Err(ReceivedInvalidFramebufferName)
        }
    }

    /// The stored identifier, unchanged.
    pub fn to_u32(&self) -> (r: u32)
        ensures
            r == self.raw_spec(),
            r != 0,
    {
        proof {
            use_type_invariant(self);
        }
        self.raw
    }

    /// The stored identifier, consuming the name.
    pub fn into_u32(self) -> (r: u32)
        ensures
            r == self.raw_spec(),
            r != 0,
    {
        proof {
            use_type_invariant(&self);
        }
        self.raw
    }
}

impl ObjectName for NonDefaultFramebufferName {
    closed spec fn raw_spec(self) -> u32 {
        self.raw
    }

    proof fn lemma_raw_determines(a: Self, b: Self) {
        assert(a == b);
    }

    fn from_nonzero_u32(raw: u32) -> (r: Self) {
        NonDefaultFramebufferName { raw }
    }

    fn to_raw_u32(&self) -> (r: u32) {
        self.to_u32()
    }
}

/// The name of a program object. No guarantee is made about the validity of
/// the driver object this name denotes.
#[derive(Clone, Copy, PartialEq, Eq, Structural, Hash, Debug)]
pub struct ProgramName {
    raw: u32,
}

/// The driver reported 0 where a valid program name was owed: an
/// allocation failure.
#[derive(Clone, Copy, PartialEq, Eq, Structural, Debug)]
pub struct ReceivedInvalidProgramName;

impl ProgramName {
    #[verifier::type_invariant]
    spec fn inv(self) -> bool {
        self.raw != 0
    }

    /// The raw identifier stored in this name.
    pub closed spec fn raw_spec(self) -> u32 {
        self.raw
    }

    /// Wraps `name` when it is a valid (nonzero) identifier, and reports
    /// an allocation failure otherwise.
    pub fn new(name: u32) -> (r: Result<Self, ReceivedInvalidProgramName>)
        ensures
            r is Ok <==> name != 0,
            r matches Ok(n) ==> n.raw_spec() == name,
    {
        if name != 0 {
            Ok(ProgramName { raw: name })
        } else {
            Err(ReceivedInvalidProgramName)
        }
    }

    /// The stored identifier, unchanged.
    pub fn to_u32(&self) -> (r: u32)
        ensures
            r == self.raw_spec(),
            r != 0,
    {
        proof {
            use_type_invariant(self);
        }
        self.raw
    }

    /// The stored identifier, consuming the name.
    pub fn into_u32(self) -> (r: u32)
        ensures
            r == self.raw_spec(),
            r != 0,
    {
        proof {
            use_type_invariant(&self);
        }
        self.raw
    }
}

impl ObjectName for ProgramName {
    closed spec fn raw_spec(self) -> u32 {
        self.raw
    }

    proof fn lemma_raw_determines(a: Self, b: Self) {
        assert(a == b);
    }

    fn from_nonzero_u32(raw: u32) -> (r: Self) {
        ProgramName { raw }
    }

    fn to_raw_u32(&self) -> (r: u32) {
        self.to_u32()
    }
}

/// The name of a shader object. No guarantee is made about the validity of
/// the driver object this name denotes.
#[derive(Clone, Copy, PartialEq, Eq, Structural, Hash, Debug)]
pub struct ShaderName {
    raw: u32,
}

/// The driver reported 0 where a valid shader name was owed: an
/// allocation failure.
#[derive(Clone, Copy, PartialEq, Eq, Structural, Debug)]
pub struct ReceivedInvalidShaderName;

impl ShaderName {
    #[verifier::type_invariant]
    spec fn inv(self) -> bool {
        self.raw != 0
    }

    /// The raw identifier stored in this name.
    pub closed spec fn raw_spec(self) -> u32 {
        self.raw
    }

    /// Wraps `name` when it is a valid (nonzero) identifier, and reports
    /// an allocation failure otherwise.
    pub fn new(name: u32) -> (r: Result<Self, ReceivedInvalidShaderName>)
        ensures
            r is Ok <==> name != 0,
            r matches Ok(n) ==> n.raw_spec() == name,
    {
        if name != 0 {
            Ok(ShaderName { raw: name })
        } else {
            Err(ReceivedInvalidShaderName)
        }
    }

    /// The stored identifier, unchanged.
    pub fn to_u32(&self) -> (r: u32)
        ensures
            r == self.raw_spec(),
            r != 0,
    {
        proof {
            use_type_invariant(self);
        }
        self.raw
    }

    /// The stored identifier, consuming the name.
    pub fn into_u32(self) -> (r: u32)
        ensures
            r == self.raw_spec(),
            r != 0,
    {
        proof {
            use_type_invariant(&self);
        }
        self.raw
    }
}

impl ObjectName for ShaderName {
    closed spec fn raw_spec(self) -> u32 {
        self.raw
    }

    proof fn lemma_raw_determines(a: Self, b: Self) {
        assert(a == b);
    }

    fn from_nonzero_u32(raw: u32) -> (r: Self) {
        ShaderName { raw }
    }

    fn to_raw_u32(&self) -> (r: u32) {
        self.to_u32()
    }
}

/// The name of a texture object. No guarantee is made about the validity of
/// the driver object this name denotes.
#[derive(Clone, Copy, PartialEq, Eq, Structural, Hash, Debug)]
pub struct TextureName {
    raw: u32,
}

/// The driver reported 0 where a valid texture name was owed: an
/// allocation failure.
#[derive(Clone, Copy, PartialEq, Eq, Structural, Debug)]
pub struct ReceivedInvalidTextureName;

impl TextureName {
    #[verifier::type_invariant]
    spec fn inv(self) -> bool {
        self.raw != 0
    }

    /// The raw identifier stored in this name.
    pub closed spec fn raw_spec(self) -> u32 {
        self.raw
    }

    /// Wraps `name` when it is a valid (nonzero) identifier, and reports
    /// an allocation failure otherwise.
    pub fn new(name: u32) -> (r: Result<Self, ReceivedInvalidTextureName>)
        ensures
            r is Ok <==> name != 0,
            r matches Ok(n) ==> n.raw_spec() == name,
    {
        if name != 0 {
            Ok(TextureName { raw: name })
        } else {
            Err(ReceivedInvalidTextureName)
        }
    }

    /// The stored identifier, unchanged.
    pub fn to_u32(&self) -> (r: u32)
        ensures
            r == self.raw_spec(),
            r != 0,
    {
        proof {
            use_type_invariant(self);
        }
        self.raw
    }

    /// The stored identifier, consuming the name.
    pub fn into_u32(self) -> (r: u32)
        ensures
            r == self.raw_spec(),
            r != 0,
    {
        proof {
            use_type_invariant(&self);
        }
        self.raw
    }
}

impl ObjectName for TextureName {
    closed spec fn raw_spec(self) -> u32 {
        self.raw
    }

    proof fn lemma_raw_determines(a: Self, b: Self) {
        assert(a == b);
    }

    fn from_nonzero_u32(raw: u32) -> (r: Self) {
        TextureName { raw }
    }

    fn to_raw_u32(&self) -> (r: u32) {
        self.to_u32()
    }
}

/// The name of a vertex array object. No guarantee is made about the validity of
/// the driver object this name denotes.
#[derive(Clone, Copy, PartialEq, Eq, Structural, Hash, Debug)]
pub struct VertexArrayName {
    raw: u32,
}

/// The driver reported 0 where a valid vertex array name was owed: an
/// allocation failure.
#[derive(Clone, Copy, PartialEq, Eq, Structural, Debug)]
pub struct ReceivedInvalidVertexArrayName;

impl VertexArrayName {
    #[verifier::type_invariant]
    spec fn inv(self) -> bool {
        self.raw != 0
    }

    /// The raw identifier stored in this name.
    pub closed spec fn raw_spec(self) -> u32 {
        self.raw
    }

    /// Wraps `name` when it is a valid (nonzero) identifier, and reports
    /// an allocation failure otherwise.
    pub fn new(name: u32) -> (r: Result<Self, ReceivedInvalidVertexArrayName>)
        ensures
            r is Ok <==> name != 0,
            r matches Ok(n) ==> n.raw_spec() == name,
    {
        if name != 0 {
            Ok(VertexArrayName { raw: name })
        } else {
            Err(ReceivedInvalidVertexArrayName)
        }
    }

    /// The stored identifier, unchanged.
    pub fn to_u32(&self) -> (r: u32)
        ensures
            r == self.raw_spec(),
            r != 0,
    {
        proof {
            use_type_invariant(self);
        }
        self.raw
    }

    /// The stored identifier, consuming the name.
    pub fn into_u32(self) -> (r: u32)
        ensures
            r == self.raw_spec(),
            r != 0,
    {
        proof {
            use_type_invariant(&self);
        }
        self.raw
    }
}

impl ObjectName for VertexArrayName {
    closed spec fn raw_spec(self) -> u32 {
        self.raw
    }

    proof fn lemma_raw_determines(a: Self, b: Self) {
        assert(a == b);
    }

    fn from_nonzero_u32(raw: u32) -> (r: Self) {
        VertexArrayName { raw }
    }

    fn to_raw_u32(&self) -> (r: u32) {
        self.to_u32()
    }
}

/// The name of a sampler object. No guarantee is made about the validity of
/// the driver object this name denotes.
#[derive(Clone, Copy, PartialEq, Eq, Structural, Hash, Debug)]
pub struct SamplerName {
    raw: u32,
}

/// The driver reported 0 where a valid sampler name was owed: an
/// allocation failure.
#[derive(Clone, Copy, PartialEq, Eq, Structural, Debug)]
pub struct ReceivedInvalidSamplerName;

impl SamplerName {
    #[verifier::type_invariant]
    spec fn inv(self) -> bool {
        self.raw != 0
    }

    /// The raw identifier stored in this name.
    pub closed spec fn raw_spec(self) -> u32 {
        self.raw
    }

    /// Wraps `name` when it is a valid (nonzero) identifier, and reports
    /// an allocation failure otherwise.
    pub fn new(name: u32) -> (r: Result<Self, ReceivedInvalidSamplerName>)
        ensures
            r is Ok <==> name != 0,
            r matches Ok(n) ==> n.raw_spec() == name,
    {
        if name != 0 {
            Ok(SamplerName { raw: name })
        } else {
            Err(ReceivedInvalidSamplerName)
        }
    }

    /// The stored identifier, unchanged.
    pub fn to_u32(&self) -> (r: u32)
        ensures
            r == self.raw_spec(),
            r != 0,
    {
        proof {
            use_type_invariant(self);
        }
        self.raw
    }

    /// The stored identifier, consuming the name.
    pub fn into_u32(self) -> (r: u32)
        ensures
            r == self.raw_spec(),
            r != 0,
    {
        proof {
            use_type_invariant(&self);
        }
        self.raw
    }
}

impl ObjectName for SamplerName {
    closed spec fn raw_spec(self) -> u32 {
        self.raw
    }

    proof fn lemma_raw_determines(a: Self, b: Self) {
        assert(a == b);
    }

    fn from_nonzero_u32(raw: u32) -> (r: Self) {
        SamplerName { raw }
    }

    fn to_raw_u32(&self) -> (r: u32) {
        self.to_u32()
    }
}

/// The name of a query object. No guarantee is made about the validity of
/// the driver object this name denotes.
#[derive(Clone, Copy, PartialEq, Eq, Structural, Hash, Debug)]
pub struct QueryName {
    raw: u32,
}

/// The driver reported 0 where a valid query name was owed: an
/// allocation failure.
#[derive(Clone, Copy, PartialEq, Eq, Structural, Debug)]
pub struct ReceivedInvalidQueryName;

impl QueryName {
    #[verifier::type_invariant]
    spec fn inv(self) -> bool {
        self.raw != 0
    }

    /// The raw identifier stored in this name.
    pub closed spec fn raw_spec(self) -> u32 {
        self.raw
    }

    /// Wraps `name` when it is a valid (nonzero) identifier, and reports
    /// an allocation failure otherwise.
    pub fn new(name: u32) -> (r: Result<Self, ReceivedInvalidQueryName>)
        ensures
            r is Ok <==> name != 0,
            r matches Ok(n) ==> n.raw_spec() == name,
    {
        if name != 0 {
            Ok(QueryName { raw: name })
        } else {
            Err(ReceivedInvalidQueryName)
        }
    }

    /// The stored identifier, unchanged.
    pub fn to_u32(&self) -> (r: u32)
        ensures
            r == self.raw_spec(),
            r != 0,
    {
        proof {
            use_type_invariant(self);
        }
        self.raw
    }

    /// The stored identifier, consuming the name.
    pub fn into_u32(self) -> (r: u32)
        ensures
            r == self.raw_spec(),
            r != 0,
    {
        proof {
            use_type_invariant(&self);
        }
        self.raw
    }
}

impl ObjectName for QueryName {
    closed spec fn raw_spec(self) -> u32 {
        self.raw
    }

    proof fn lemma_raw_determines(a: Self, b: Self) {
        assert(a == b);
    }

    fn from_nonzero_u32(raw: u32) -> (r: Self) {
        QueryName { raw }
    }

    fn to_raw_u32(&self) -> (r: u32) {
        self.to_u32()
    }
}

/// The name of a program pipeline object. No guarantee is made about the validity of
/// the driver object this name denotes.
#[derive(Clone, Copy, PartialEq, Eq, Structural, Hash, Debug)]
pub struct ProgramPipelineName {
    raw: u32,
}

/// The driver reported 0 where a valid program pipeline name was owed: an
/// allocation failure.
#[derive(Clone, Copy, PartialEq, Eq, Structural, Debug)]
pub struct ReceivedInvalidProgramPipelineName;

impl ProgramPipelineName {
    #[verifier::type_invariant]
    spec fn inv(self) -> bool {
        self.raw != 0
    }

    /// The raw identifier stored in this name.
    pub closed spec fn raw_spec(self) -> u32 {
        self.raw
    }

    /// Wraps `name` when it is a valid (nonzero) identifier, and reports
    /// an allocation failure otherwise.
    pub fn new(name: u32) -> (r: Result<Self, ReceivedInvalidProgramPipelineName>)
        ensures
            r is Ok <==> name != 0,
            r matches Ok(n) ==> n.raw_spec() == name,
    {
        if name != 0 {
            Ok(ProgramPipelineName { raw: name })
        } else {
            Err(ReceivedInvalidProgramPipelineName)
        }
    }

    /// The stored identifier, unchanged.
    pub fn to_u32(&self) -> (r: u32)
        ensures
            r == self.raw_spec(),
            r != 0,
    {
        proof {
            use_type_invariant(self);
        }
        self.raw
    }

    /// The stored identifier, consuming the name.
    pub fn into_u32(self) -> (r: u32)
        ensures
            r == self.raw_spec(),
            r != 0,
    {
        proof {
            use_type_invariant(&self);
        }
        self.raw
    }
}

impl ObjectName for ProgramPipelineName {
    closed spec fn raw_spec(self) -> u32 {
        self.raw
    }

    proof fn lemma_raw_determines(a: Self, b: Self) {
        assert(a == b);
    }

    fn from_nonzero_u32(raw: u32) -> (r: Self) {
        ProgramPipelineName { raw }
    }

    fn to_raw_u32(&self) -> (r: u32) {
        self.to_u32()
    }
}

/// The name of a transform feedback object. No guarantee is made about the validity of
/// the driver object this name denotes.
#[derive(Clone, Copy, PartialEq, Eq, Structural, Hash, Debug)]
pub struct TransformFeedbackName {
    raw: u32,
}

/// The driver reported 0 where a valid transform feedback name was owed: an
/// allocation failure.
#[derive(Clone, Copy, PartialEq, Eq, Structural, Debug)]
pub struct ReceivedInvalidTransformFeedbackName;

impl TransformFeedbackName {
    #[verifier::type_invariant]
    spec fn inv(self) -> bool {
        self.raw != 0
    }

    /// The raw identifier stored in this name.
    pub closed spec fn raw_spec(self) -> u32 {
        self.raw
    }

    /// Wraps `name` when it is a valid (nonzero) identifier, and reports
    /// an allocation failure otherwise.
    pub fn new(name: u32) -> (r: Result<Self, ReceivedInvalidTransformFeedbackName>)
        ensures
            r is Ok <==> name != 0,
            r matches Ok(n) ==> n.raw_spec() == name,
    {
        if name != 0 {
            Ok(TransformFeedbackName { raw: name })
        } else {
            Err(ReceivedInvalidTransformFeedbackName)
        }
    }

    /// The stored identifier, unchanged.
    pub fn to_u32(&self) -> (r: u32)
        ensures
            r == self.raw_spec(),
            r != 0,
    {
        proof {
            use_type_invariant(self);
        }
        self.raw
    }

    /// The stored identifier, consuming the name.
    pub fn into_u32(self) -> (r: u32)
        ensures
            r == self.raw_spec(),
            r != 0,
    {
        proof {
            use_type_invariant(&self);
        }
        self.raw
    }
}

impl ObjectName for TransformFeedbackName {
    closed spec fn raw_spec(self) -> u32 {
        self.raw
    }

    proof fn lemma_raw_determines(a: Self, b: Self) {
        assert(a == b);
    }

    fn from_nonzero_u32(raw: u32) -> (r: Self) {
        TransformFeedbackName { raw }
    }

    fn to_raw_u32(&self) -> (r: u32) {
        self.to_u32()
    }
}

/// An optional object name with the same storage as the name itself:
/// the raw value 0 denotes absence, any other raw value denotes the
/// present name wrapping it.
#[derive(Clone, Copy, Hash, Debug)]
pub struct OptionName<T> {
    raw: u32,
    marker: PhantomData<T>,
}

impl<T> OptionName<T> {
    /// The raw identifier stored in this optional name; 0 means absent.
    pub closed spec fn raw_spec(self) -> u32 {
        self.raw
    }

    /// Whether this optional name is present.
    pub open spec fn is_present_spec(self) -> bool {
        self.raw_spec() != 0
    }

    /// Wraps a raw identifier; 0 is legal here and denotes absence.
    pub fn from_u32(raw: u32) -> (r: Self)
        ensures
            r.raw_spec() == raw,
    {
        OptionName { raw, marker: PhantomData }
    }

    /// The absent optional name.
    pub fn absent() -> (r: Self)
        ensures
            r.raw_spec() == 0,
    {
        OptionName { raw: 0, marker: PhantomData }
    }

    /// The stored raw identifier, unchanged; 0 means absent.
    pub fn to_u32(&self) -> (r: u32)
        ensures
            r == self.raw_spec(),
    {
        self.raw
    }

    /// Whether this optional name is present.
    pub fn is_some(&self) -> (r: bool)
        ensures
            r == self.is_present_spec(),
    {
        self.raw != 0
    }

    /// Whether this optional name is absent.
    pub fn is_none(&self) -> (r: bool)
        ensures
            r == !self.is_present_spec(),
    {
        self.raw == 0
    }
}

impl<T: ObjectName> OptionName<T> {
    /// A present optional name: a pure relabeling of `name`.
    pub fn from_name(name: T) -> (r: Self)
        ensures
            r.raw_spec() == name.raw_spec(),
            r.is_present_spec(),
    {
        OptionName { raw: name.to_raw_u32(), marker: PhantomData }
    }

    /// Converts to the standard optional form: a present name when the
    /// stored raw value is nonzero, nothing otherwise.
    pub fn to_name(self) -> (r: Option<T>)
        ensures
            r is Some <==> self.is_present_spec(),
            r matches Some(n) ==> n.raw_spec() == self.raw_spec(),
    {
        if self.raw != 0 {
            Some(T::from_nonzero_u32(self.raw))
        } else {
            None
        }
    }

    /// Converts from the standard optional form, mapping absence to the
    /// reserved raw value 0.
    pub fn from_option(name: Option<T>) -> (r: Self)
        ensures
            r.is_present_spec() <==> name is Some,
            name matches Some(n) ==> r.raw_spec() == n.raw_spec(),
    {
        match name {
            Some(n) => Self::from_name(n),
            None => Self::absent(),
        }
    }
}

impl<T> PartialEq for OptionName<T> {
    fn eq(&self, other: &Self) -> (r: bool) {
        self.raw == other.raw
    }
}

impl<T> Eq for OptionName<T> {}

impl<T> vstd::std_specs::cmp::PartialEqSpecImpl for OptionName<T> {
    open spec fn obeys_eq_spec() -> bool {
        true
    }

    open spec fn eq_spec(&self, other: &Self) -> bool {
        self.raw_spec() == other.raw_spec()
    }
}

/// Whether every raw identifier in the sequence encodes a present name.
pub open spec fn all_present_spec<T>(names: Seq<OptionName<T>>) -> bool {
    forall|i: int| 0 <= i < names.len() ==> #[trigger] names[i].raw_spec() != 0
}

/// Forward bulk conversion: relabels every required name as a present
/// optional name. Total: every name is trivially a valid present
/// optional name.
pub fn wrap_all<T: ObjectName>(names: Vec<T>) -> (r: Vec<OptionName<T>>)
    ensures
        r@.len() == names@.len(),
        forall|i: int| 0 <= i < names@.len() ==>
            #[trigger] r@[i].raw_spec() == names@[i].raw_spec(),
        all_present_spec(r@),
{
    let mut out: Vec<OptionName<T>> = Vec::new();
    let mut i: usize = 0;
    while i < names.len()
        invariant
            i <= names@.len(),
            out@.len() == i,
            forall|j: int| 0 <= j < i ==>
                #[trigger] out@[j].raw_spec() == names@[j].raw_spec(),
            forall|j: int| 0 <= j < i ==> #[trigger] out@[j].raw_spec() != 0,
        decreases names@.len() - i,
    {
        let name = &names[i];
        out.push(OptionName { raw: name.to_raw_u32(), marker: PhantomData });
        i = i + 1;
    }
    out
}

/// Backward bulk conversion: succeeds with the required names exactly
/// when every element is present; on failure the original sequence is
/// returned completely unmodified, never a partially converted result.
pub fn unwrap_all<T: ObjectName>(names: Vec<OptionName<T>>) -> (r: Result<Vec<T>, Vec<OptionName<T>>>)
    ensures
        r is Ok <==> all_present_spec(names@),
        r matches Ok(v) ==> {
            &&& v@.len() == names@.len()
            &&& forall|i: int| 0 <= i < names@.len() ==>
                #[trigger] v@[i].raw_spec() == names@[i].raw_spec()
        },
        r matches Err(e) ==> e == names,
{
    let mut i: usize = 0;
    while i < names.len()
        invariant
            i <= names@.len(),
            forall|j: int| 0 <= j < i ==> #[trigger] names@[j].raw_spec() != 0,
        decreases names@.len() - i,
    {
        let raw = names[i].raw;
        if raw == 0 {
            proof {
                assert(names@[i as int].raw_spec() == 0);
            }
            return Err(names);
        }
        proof {
            assert(names@[i as int].raw_spec() != 0);
        }
        i = i + 1;
    }
    let mut out: Vec<T> = Vec::new();
    let mut k: usize = 0;
    while k < names.len()
        invariant
            k <= names@.len(),
            out@.len() == k,
            all_present_spec(names@),
            forall|j: int| 0 <= j < k ==>
                #[trigger] out@[j].raw_spec() == names@[j].raw_spec(),
        decreases names@.len() - k,
    {
        let raw = names[k].raw;
        proof {
            assert(names@[k as int].raw_spec() != 0);
        }
        out.push(T::from_nonzero_u32(raw));
        k = k + 1;
    }
    Ok(out)
}

/// Forward conversion of a read-only view, with the semantics of
/// [`wrap_all`].
pub fn wrap_slice<T: ObjectName>(names: &[T]) -> (r: Vec<OptionName<T>>)
    ensures
        r@.len() == names@.len(),
        forall|i: int| 0 <= i < names@.len() ==>
            #[trigger] r@[i].raw_spec() == names@[i].raw_spec(),
        all_present_spec(r@),
{
    let mut out: Vec<OptionName<T>> = Vec::new();
    let mut i: usize = 0;
    while i < names.len()
        invariant
            i <= names@.len(),
            out@.len() == i,
            forall|j: int| 0 <= j < i ==>
                #[trigger] out@[j].raw_spec() == names@[j].raw_spec(),
            forall|j: int| 0 <= j < i ==> #[trigger] out@[j].raw_spec() != 0,
        decreases names@.len() - i,
    {
        let name = &names[i];
        out.push(OptionName { raw: name.to_raw_u32(), marker: PhantomData });
        i = i + 1;
    }
    out
}

/// Backward conversion of a read-only view, with the success condition
/// of [`unwrap_all`]; the view itself is left untouched.
pub fn unwrap_slice<T: ObjectName>(names: &[OptionName<T>]) -> (r: Option<Vec<T>>)
    ensures
        r is Some <==> all_present_spec(names@),
        r matches Some(v) ==> {
            &&& v@.len() == names@.len()
            &&& forall|i: int| 0 <= i < names@.len() ==>
                #[trigger] v@[i].raw_spec() == names@[i].raw_spec()
        },
{
    let mut out: Vec<T> = Vec::new();
    let mut i: usize = 0;
    while i < names.len()
        invariant
            i <= names@.len(),
            out@.len() == i,
            forall|j: int| 0 <= j < i ==> #[trigger] names@[j].raw_spec() != 0,
            forall|j: int| 0 <= j < i ==>
                #[trigger] out@[j].raw_spec() == names@[j].raw_spec(),
        decreases names@.len() - i,
    {
        let raw = names[i].raw;
        if raw == 0 {
            proof {
                assert(names@[i as int].raw_spec() == 0);
            }
            return None;
        }
        proof {
            assert(names@[i as int].raw_spec() != 0);
        }
        out.push(T::from_nonzero_u32(raw));
        i = i + 1;
    }
    Some(out)
}

/// The linear completeness scan on a view: whether every element of the
/// buffer encodes a present name.
pub fn all_present<T>(names: &[OptionName<T>]) -> (r: bool)
    ensures
        r == all_present_spec(names@),
{
    let mut i: usize = 0;
    while i < names.len()
        invariant
            i <= names@.len(),
            forall|j: int| 0 <= j < i ==> #[trigger] names@[j].raw_spec() != 0,
        decreases names@.len() - i,
    {
        let raw = names[i].raw;
        if raw == 0 {
            proof {
                assert(names@[i as int].raw_spec() == 0);
            }
            return false;
        }
        proof {
            assert(names@[i as int].raw_spec() != 0);
        }
        i = i + 1;
    }
    true
}

/// Round-trip law: converting a sequence of names forward and then
/// backward yields the original sequence exactly. The hypotheses are
/// precisely what the contracts of [`wrap_all`] and [`unwrap_all`] state
/// about a forward result `wrapped` and a backward result `recovered`.
pub proof fn lemma_wrap_unwrap_round_trip<T: ObjectName>(
    names: Seq<T>,
    wrapped: Seq<OptionName<T>>,
    recovered: Seq<T>,
)
    requires
        forall|i: int| 0 <= i < names.len() ==> #[trigger] names[i].raw_spec() != 0,
        wrapped.len() == names.len(),
        forall|i: int| 0 <= i < names.len() ==>
            #[trigger] wrapped[i].raw_spec() == names[i].raw_spec(),
        recovered.len() == wrapped.len(),
        forall|i: int| 0 <= i < wrapped.len() ==>
            #[trigger] recovered[i].raw_spec() == wrapped[i].raw_spec(),
    ensures
        all_present_spec(wrapped),
        recovered == names,
{
    assert forall|i: int| 0 <= i < names.len() implies recovered[i] == names[i] by {
        T::lemma_raw_determines(recovered[i], names[i]);
    }
    assert(recovered =~= names);
}

/// The name of the driver's default framebuffer is the reserved value 0,
/// so a framebuffer name is either the default one or a nonzero name.
#[derive(Clone, Copy, PartialEq, Eq, Structural, Hash, Debug)]
pub enum FramebufferName {
    NonDefault(NonDefaultFramebufferName),
    Default,
}

impl FramebufferName {
    /// The raw identifier this framebuffer name denotes; the default
    /// framebuffer is 0.
    pub open spec fn raw_framebuffer_spec(self) -> u32 {
        match self {
            FramebufferName::NonDefault(name) => name.raw_spec(),
            FramebufferName::Default => 0,
        }
    }

    /// The raw identifier, consuming the name.
    pub fn into_u32(self) -> (r: u32)
        ensures
            r == self.raw_framebuffer_spec(),
    {
        match self {
            FramebufferName::NonDefault(name) => name.into_u32(),
            FramebufferName::Default => 0,
        }
    }

    /// The raw identifier, unchanged.
    pub fn to_u32(&self) -> (r: u32)
        ensures
            r == self.raw_framebuffer_spec(),
    {
        match *self {
            FramebufferName::NonDefault(ref name) => name.to_u32(),
            FramebufferName::Default => 0,
        }
    }
}

impl Default for FramebufferName {
    /// The default framebuffer.
    fn default() -> (r: Self)
        ensures
            r == FramebufferName::Default,
    {
        FramebufferName::Default
    }
}

} // verus!
