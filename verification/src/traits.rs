//! Conversions from the static encoding of a closed enumeration to the
//! dynamic one. A zero-size marker converts to its dynamic member with a
//! single infallible, exhaustively checked mapping; a dynamic value
//! converts to itself. A dynamic value can in turn be narrowed back to a
//! specific expected static tag.

use vstd::prelude::*;
use crate::enums;
use crate::symbols;

verus! {

/// A shader kind that is known statically or dynamically: anything that
/// converts infallibly to the dynamic [`enums::ShaderKind`].
pub trait ShaderKind: Sized {
    /// The dynamic member this value denotes.
    spec fn dynamic_spec(&self) -> enums::ShaderKind;

    /// Converts to the dynamic encoding. Total and pure.
    fn to_dynamic(&self) -> (r: enums::ShaderKind)
        ensures
            r == self.dynamic_spec(),
    ;
}

impl ShaderKind for symbols::Compute {
    open spec fn dynamic_spec(&self) -> enums::ShaderKind {
        enums::ShaderKind::Compute
    }

    fn to_dynamic(&self) -> (r: enums::ShaderKind) {
        enums::ShaderKind::Compute
    }
}

impl ShaderKind for symbols::Vertex {
    open spec fn dynamic_spec(&self) -> enums::ShaderKind {
        enums::ShaderKind::Vertex
    }

    fn to_dynamic(&self) -> (r: enums::ShaderKind) {
        enums::ShaderKind::Vertex
    }
}

impl ShaderKind for symbols::TessControl {
    open spec fn dynamic_spec(&self) -> enums::ShaderKind {
        enums::ShaderKind::TessControl
    }

    fn to_dynamic(&self) -> (r: enums::ShaderKind) {
        enums::ShaderKind::TessControl
    }
}

impl ShaderKind for symbols::TessEvaluation {
    open spec fn dynamic_spec(&self) -> enums::ShaderKind {
        enums::ShaderKind::TessEvaluation
    }

    fn to_dynamic(&self) -> (r: enums::ShaderKind) {
        enums::ShaderKind::TessEvaluation
    }
}

impl ShaderKind for symbols::Geometry {
    open spec fn dynamic_spec(&self) -> enums::ShaderKind {
        enums::ShaderKind::Geometry
    }

    fn to_dynamic(&self) -> (r: enums::ShaderKind) {
        enums::ShaderKind::Geometry
    }
}

impl ShaderKind for symbols::Fragment {
    open spec fn dynamic_spec(&self) -> enums::ShaderKind {
        enums::ShaderKind::Fragment
    }

    fn to_dynamic(&self) -> (r: enums::ShaderKind) {
        enums::ShaderKind::Fragment
    }
}

impl ShaderKind for enums::ShaderKind {
    open spec fn dynamic_spec(&self) -> enums::ShaderKind {
        *self
    }

    fn to_dynamic(&self) -> (r: enums::ShaderKind) {
        *self
    }
}

/// A compile status that is known statically or dynamically: anything
/// that converts infallibly to the dynamic [`enums::ShaderCompileStatus`].
pub trait CompileStatus: Sized {
    /// The dynamic member this value denotes.
    spec fn dynamic_spec(&self) -> enums::ShaderCompileStatus;

    /// Converts to the dynamic encoding. Total and pure.
    fn to_dynamic(&self) -> (r: enums::ShaderCompileStatus)
        ensures
            r == self.dynamic_spec(),
    ;
}

impl CompileStatus for symbols::Uncompiled {
    open spec fn dynamic_spec(&self) -> enums::ShaderCompileStatus {
        enums::ShaderCompileStatus::Uncompiled
    }

    fn to_dynamic(&self) -> (r: enums::ShaderCompileStatus) {
        enums::ShaderCompileStatus::Uncompiled
    }
}

impl CompileStatus for symbols::Compiled {
    open spec fn dynamic_spec(&self) -> enums::ShaderCompileStatus {
        enums::ShaderCompileStatus::Compiled
    }

    fn to_dynamic(&self) -> (r: enums::ShaderCompileStatus) {
        enums::ShaderCompileStatus::Compiled
    }
}

impl CompileStatus for enums::ShaderCompileStatus {
    open spec fn dynamic_spec(&self) -> enums::ShaderCompileStatus {
        *self
    }

    fn to_dynamic(&self) -> (r: enums::ShaderCompileStatus) {
        *self
    }
}

/// A link status that is known statically or dynamically: anything that
/// converts infallibly to the dynamic [`enums::ProgramLinkStatus`].
pub trait LinkStatus: Sized {
    /// The dynamic member this value denotes.
    spec fn dynamic_spec(&self) -> enums::ProgramLinkStatus;

    /// Converts to the dynamic encoding. Total and pure.
    fn to_dynamic(&self) -> (r: enums::ProgramLinkStatus)
        ensures
            r == self.dynamic_spec(),
    ;
}

impl LinkStatus for symbols::Unlinked {
    open spec fn dynamic_spec(&self) -> enums::ProgramLinkStatus {
        enums::ProgramLinkStatus::Unlinked
    }

    fn to_dynamic(&self) -> (r: enums::ProgramLinkStatus) {
        enums::ProgramLinkStatus::Unlinked
    }
}

impl LinkStatus for symbols::Linked {
    open spec fn dynamic_spec(&self) -> enums::ProgramLinkStatus {
        enums::ProgramLinkStatus::Linked
    }

    fn to_dynamic(&self) -> (r: enums::ProgramLinkStatus) {
        enums::ProgramLinkStatus::Linked
    }
}

impl LinkStatus for enums::ProgramLinkStatus {
    open spec fn dynamic_spec(&self) -> enums::ProgramLinkStatus {
        *self
    }

    fn to_dynamic(&self) -> (r: enums::ProgramLinkStatus) {
        *self
    }
}

impl enums::ShaderKind {
    /// Downgrades this dynamic value to a specific expected static tag,
    /// succeeding exactly when the two denote the same member; on
    /// mismatch the original dynamic value is returned unchanged.
    pub fn narrow_to_tag<K: ShaderKind>(self, tag: K) -> (r: Result<K, enums::ShaderKind>)
        ensures
            r is Ok <==> self == tag.dynamic_spec(),
            r matches Ok(t) ==> t == tag,
            r matches Err(e) ==> e == self,
    {
        let dynamic = tag.to_dynamic();
        if self == dynamic {
            Ok(tag)
        } else {
            Err(self)
        }
    }
}

/// Duality law: converting a static tag to its dynamic form agrees with
/// decoding the member's raw constant directly. Decoding the constant of
/// the tag's dynamic member recovers exactly that member.
pub proof fn lemma_static_dynamic_duality<K: ShaderKind>(tag: K)
    ensures
        enums::ShaderKind::from_u32_spec(tag.dynamic_spec().as_u32_spec())
            == Some(tag.dynamic_spec()),
{
    enums::ShaderKind::lemma_round_trip(tag.dynamic_spec());
}

/// Duality law for compile statuses: converting a static status tag to
/// its dynamic form agrees with decoding the member's raw constant
/// directly.
pub proof fn lemma_static_dynamic_status_duality<S: CompileStatus>(tag: S)
    ensures
        enums::ShaderCompileStatus::from_i32_spec(tag.dynamic_spec().as_i32_spec())
            == Some(tag.dynamic_spec()),
{
    enums::ShaderCompileStatus::lemma_round_trip(tag.dynamic_spec());
}

/// Duality law for link statuses: converting a static status tag to its
/// dynamic form agrees with decoding the member's raw constant
/// directly.
pub proof fn lemma_static_dynamic_link_duality<L: LinkStatus>(tag: L)
    ensures
        enums::ProgramLinkStatus::from_i32_spec(tag.dynamic_spec().as_i32_spec())
            == Some(tag.dynamic_spec()),
{
    enums::ProgramLinkStatus::lemma_round_trip(tag.dynamic_spec());
}

/// A value accepted by the driver's integer sampler parameter calls.
pub trait SamplerParameteriValue: Sized {
    /// The raw integer the driver receives for this value.
    spec fn as_i32_spec(&self) -> i32;

    /// Encodes this value as the raw integer the driver understands.
    fn to_i32(&self) -> (r: i32)
        ensures
            r == self.as_i32_spec(),
    ;
}

/// A parameter name accepted by the driver's integer sampler parameter
/// calls, together with the closed type of the values it admits.
pub trait SamplerParameteriParam: Sized {
    /// The type of the values this parameter admits.
    type Value: SamplerParameteriValue;

    /// The raw parameter-name constant the driver receives.
    spec fn as_u32_spec(&self) -> u32;

    /// Encodes this parameter name as the raw constant the driver
    /// understands.
    fn to_u32(&self) -> (r: u32)
        ensures
            r == self.as_u32_spec(),
    ;
}

} // verus!
