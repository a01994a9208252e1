//! Dynamic tagged values: the run-time side of the dual encoding of the
//! driver's closed enumerations. Each enumeration round-trips to and
//! from the raw integer the driver understands; decoding an integer that
//! is not among the declared constants fails with a typed outcome that
//! carries the offending value.

use vstd::prelude::*;
use crate::gl;

verus! {

/// The kind of a shader.
#[derive(Clone, Copy, PartialEq, Eq, Structural, Hash, Debug)]
pub enum ShaderKind {
    Compute,
    Vertex,
    TessControl,
    TessEvaluation,
    Geometry,
    Fragment,
}

/// A raw integer that matches none of the declared shader kind
/// constants; it carries the offending value.
#[derive(Clone, Copy, PartialEq, Eq, Structural, Debug)]
pub struct ReceivedInvalidShaderKind(pub u32);

impl ShaderKind {
    /// The numeric constant the driver uses for this member.
    pub open spec fn as_u32_spec(self) -> u32 {
        match self {
            ShaderKind::Compute => gl::COMPUTE_SHADER,
            ShaderKind::Vertex => gl::VERTEX_SHADER,
            ShaderKind::TessControl => gl::TESS_CONTROL_SHADER,
            ShaderKind::TessEvaluation => gl::TESS_EVALUATION_SHADER,
            ShaderKind::Geometry => gl::GEOMETRY_SHADER,
            ShaderKind::Fragment => gl::FRAGMENT_SHADER,
        }
    }

    /// The member a raw integer decodes to, when it is among the
    /// declared constants.
    pub open spec fn from_u32_spec(raw: u32) -> Option<ShaderKind> {
        if raw == gl::COMPUTE_SHADER {
            Some(ShaderKind::Compute)
        } else if raw == gl::VERTEX_SHADER {
            Some(ShaderKind::Vertex)
        } else if raw == gl::TESS_CONTROL_SHADER {
            Some(ShaderKind::TessControl)
        } else if raw == gl::TESS_EVALUATION_SHADER {
            Some(ShaderKind::TessEvaluation)
        } else if raw == gl::GEOMETRY_SHADER {
            Some(ShaderKind::Geometry)
        } else if raw == gl::FRAGMENT_SHADER {
            Some(ShaderKind::Fragment)
        } else {
            None
        }
    }

    /// Encodes this member as the raw integer the driver understands.
    pub fn as_u32(&self) -> (r: u32)
        ensures
            r == self.as_u32_spec(),
    {
        match *self {
            ShaderKind::Compute => gl::COMPUTE_SHADER,
            ShaderKind::Vertex => gl::VERTEX_SHADER,
            ShaderKind::TessControl => gl::TESS_CONTROL_SHADER,
            ShaderKind::TessEvaluation => gl::TESS_EVALUATION_SHADER,
            ShaderKind::Geometry => gl::GEOMETRY_SHADER,
            ShaderKind::Fragment => gl::FRAGMENT_SHADER,
        }
    }

    /// Decodes a raw integer, failing if and only if it is not among the
    /// declared constants of this enumeration.
    pub fn from_u32(raw: u32) -> (r: Result<ShaderKind, ReceivedInvalidShaderKind>)
        ensures
            r is Ok <==> Self::from_u32_spec(raw) is Some,
            r matches Ok(k) ==> Some(k) == Self::from_u32_spec(raw) && k.as_u32_spec() == raw,
            r matches Err(e) ==> e.0 == raw,
    {
        if raw == gl::COMPUTE_SHADER {
            Ok(ShaderKind::Compute)
        } else if raw == gl::VERTEX_SHADER {
            Ok(ShaderKind::Vertex)
        } else if raw == gl::TESS_CONTROL_SHADER {
            Ok(ShaderKind::TessControl)
        } else if raw == gl::TESS_EVALUATION_SHADER {
            Ok(ShaderKind::TessEvaluation)
        } else if raw == gl::GEOMETRY_SHADER {
            Ok(ShaderKind::Geometry)
        } else if raw == gl::FRAGMENT_SHADER {
            Ok(ShaderKind::Fragment)
        } else {
            Err(ReceivedInvalidShaderKind(raw))
        }
    }

    /// Encoding then decoding recovers the member: the two encodings of
    /// the enumeration agree.
    pub proof fn lemma_round_trip(k: ShaderKind)
        ensures
            Self::from_u32_spec(k.as_u32_spec()) == Some(k),
    {
    }
}

/// The compile status of a shader, as confirmed by a requery.
#[derive(Clone, Copy, PartialEq, Eq, Structural, Hash, Debug)]
pub enum ShaderCompileStatus {
    Uncompiled,
    Compiled,
}

/// A raw integer that matches none of the declared compile status
/// constants; it carries the offending value.
#[derive(Clone, Copy, PartialEq, Eq, Structural, Debug)]
pub struct ReceivedInvalidShaderCompileStatus(pub i32);

impl ShaderCompileStatus {
    /// The numeric constant the driver uses for this member.
    pub open spec fn as_i32_spec(self) -> i32 {
        match self {
            ShaderCompileStatus::Uncompiled => gl::FALSE,
            ShaderCompileStatus::Compiled => gl::TRUE,
        }
    }

    /// The member a raw integer decodes to, when it is among the
    /// declared constants.
    pub open spec fn from_i32_spec(raw: i32) -> Option<ShaderCompileStatus> {
        if raw == gl::FALSE {
            Some(ShaderCompileStatus::Uncompiled)
        } else if raw == gl::TRUE {
            Some(ShaderCompileStatus::Compiled)
        } else {
            None
        }
    }

    /// Encodes this member as the raw integer the driver understands.
    pub fn as_i32(&self) -> (r: i32)
        ensures
            r == self.as_i32_spec(),
    {
        match *self {
            ShaderCompileStatus::Uncompiled => gl::FALSE,
            ShaderCompileStatus::Compiled => gl::TRUE,
        }
    }

    /// Decodes a raw integer, failing if and only if it is not among the
    /// declared constants of this enumeration.
    pub fn from_i32(raw: i32) -> (r: Result<ShaderCompileStatus, ReceivedInvalidShaderCompileStatus>)
        ensures
            r is Ok <==> Self::from_i32_spec(raw) is Some,
            r matches Ok(s) ==> Some(s) == Self::from_i32_spec(raw) && s.as_i32_spec() == raw,
            r matches Err(e) ==> e.0 == raw,
    {
        if raw == gl::FALSE {
            Ok(ShaderCompileStatus::Uncompiled)
        } else if raw == gl::TRUE {
            Ok(ShaderCompileStatus::Compiled)
        } else {
            Err(ReceivedInvalidShaderCompileStatus(raw))
        }
    }

    /// Encoding then decoding recovers the member: the two encodings of
    /// the enumeration agree.
    pub proof fn lemma_round_trip(s: ShaderCompileStatus)
        ensures
            Self::from_i32_spec(s.as_i32_spec()) == Some(s),
    {
    }
}

/// The link status of a program, as confirmed by a requery. It reuses
/// the raw boolean constants of [`ShaderCompileStatus`] but remains a
/// separate closed type, so a value produced for one purpose cannot be
/// accepted where the other was intended.
#[derive(Clone, Copy, PartialEq, Eq, Structural, Hash, Debug)]
pub enum ProgramLinkStatus {
    Unlinked,
    Linked,
}

/// A raw integer that matches none of the declared link status
/// constants; it carries the offending value.
#[derive(Clone, Copy, PartialEq, Eq, Structural, Debug)]
pub struct ReceivedInvalidProgramLinkStatus(pub i32);

impl ProgramLinkStatus {
    /// The numeric constant the driver uses for this member.
    pub open spec fn as_i32_spec(self) -> i32 {
        match self {
            ProgramLinkStatus::Unlinked => gl::FALSE,
            ProgramLinkStatus::Linked => gl::TRUE,
        }
    }

    /// The member a raw integer decodes to, when it is among the
    /// declared constants.
    pub open spec fn from_i32_spec(raw: i32) -> Option<ProgramLinkStatus> {
        if raw == gl::FALSE {
            Some(ProgramLinkStatus::Unlinked)
        } else if raw == gl::TRUE {
            Some(ProgramLinkStatus::Linked)
        } else {
            None
        }
    }

    /// Encodes this member as the raw integer the driver understands.
    pub fn as_i32(&self) -> (r: i32)
        ensures
            r == self.as_i32_spec(),
    {
        match *self {
            ProgramLinkStatus::Unlinked => gl::FALSE,
            ProgramLinkStatus::Linked => gl::TRUE,
        }
    }

    /// Decodes a raw integer, failing if and only if it is not among the
    /// declared constants of this enumeration.
    pub fn from_i32(raw: i32) -> (r: Result<ProgramLinkStatus, ReceivedInvalidProgramLinkStatus>)
        ensures
            r is Ok <==> Self::from_i32_spec(raw) is Some,
            r matches Ok(s) ==> Some(s) == Self::from_i32_spec(raw) && s.as_i32_spec() == raw,
            r matches Err(e) ==> e.0 == raw,
    {
        if raw == gl::FALSE {
            Ok(ProgramLinkStatus::Unlinked)
        } else if raw == gl::TRUE {
            Ok(ProgramLinkStatus::Linked)
        } else {
            Err(ReceivedInvalidProgramLinkStatus(raw))
        }
    }

    /// Encoding then decoding recovers the member: the two encodings of
    /// the enumeration agree.
    pub proof fn lemma_round_trip(s: ProgramLinkStatus)
        ensures
            Self::from_i32_spec(s.as_i32_spec()) == Some(s),
    {
    }
}

} // verus!
