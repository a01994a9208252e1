//! The shader resource: a (kind, name, status) triple whose kind and
//! status may each be known statically (a zero-size marker) or
//! dynamically (a tagged value), with the compile lifecycle as a
//! type-level state machine.
//!
//! A freshly created shader starts [`symbols::Uncompiled`]. Issuing the
//! driver's compile call always completes, but whether it succeeded is
//! observable only through a separate requery, so [`Shader::compile`]
//! moves the status to [`symbols::Unknown`]; the requery is expressible
//! only on that state and resolves it to one of the two terminal
//! statuses. A failed shader is not retried in place: the caller deletes
//! it and creates a fresh one.

use vstd::prelude::*;
use crate::enums;
use crate::name::ReceivedInvalidShaderName;
use crate::name::ShaderName;
use crate::symbols;
use crate::traits;

verus! {

/// A shader object for which the kind and the status may each be known
/// at compile time. The handle must denote a live driver shader of the
/// kind `K` names, and `S` must reflect the object's true state,
/// refreshed only through the operations below. Not copyable: the name
/// denotes exclusive reference to one driver object.
#[derive(Debug)]
pub struct Shader<K, S> {
    kind: K,
    name: ShaderName,
    status: S,
}

/// A shader whose kind has been determined dynamically: one variant per
/// member, each carrying the shader retagged with the matching static
/// kind marker.
#[derive(Debug)]
pub enum ShaderKind<C> {
    Compute(Shader<symbols::Compute, C>),
    Vertex(Shader<symbols::Vertex, C>),
    TessControl(Shader<symbols::TessControl, C>),
    TessEvaluation(Shader<symbols::TessEvaluation, C>),
    Geometry(Shader<symbols::Geometry, C>),
    Fragment(Shader<symbols::Fragment, C>),
}

/// A shader whose compile status has been determined: the two terminal
/// states of the compile lifecycle.
#[derive(Debug)]
pub enum CompileStatus<K> {
    Uncompiled(Shader<K, symbols::Uncompiled>),
    Compiled(Shader<K, symbols::Compiled>),
}

/// A status from which the driver's compile call may be issued: a fresh
/// [`symbols::Uncompiled`] shader, or one whose previous compile is
/// still [`symbols::Unknown`].
pub trait CompilePending {

}

impl CompilePending for symbols::Uncompiled {

}

impl CompilePending for symbols::Unknown {

}

impl<K, S> Shader<K, S> {
    /// The kind this shader was created with.
    pub closed spec fn kind_spec(self) -> K {
        self.kind
    }

    /// The driver name this shader wraps.
    pub closed spec fn name_spec(self) -> ShaderName {
        self.name
    }

    /// The status this shader currently records.
    pub closed spec fn status_spec(self) -> S {
        self.status
    }

    /// Assembles a shader from its parts. Does not verify that the name
    /// actually denotes a driver object of the given kind and status;
    /// the caller vouches for that.
    pub fn from_raw_parts(kind: K, name: ShaderName, status: S) -> (r: Self)
        ensures
            r.kind_spec() == kind,
            r.name_spec() == name,
            r.status_spec() == status,
    {
        Shader { kind, name, status }
    }

    /// Takes the shader apart into its parts.
    pub fn into_raw_parts(self) -> (r: (K, ShaderName, S))
        ensures
            r.0 == self.kind_spec(),
            r.1 == self.name_spec(),
            r.2 == self.status_spec(),
    {
        let Shader { kind, name, status } = self;
        (kind, name, status)
    }

    /// Erases the statically known kind.
    pub fn without_kind(self) -> (r: Shader<symbols::Unknown, S>)
        ensures
            r.kind_spec() == symbols::Unknown,
            r.name_spec() == self.name_spec(),
            r.status_spec() == self.status_spec(),
    {
        let Shader { name, status, .. } = self;
        Shader { kind: symbols::Unknown, name, status }
    }

    /// Erases the recorded status.
    pub fn without_status(self) -> (r: Shader<K, symbols::Unknown>)
        ensures
            r.kind_spec() == self.kind_spec(),
            r.name_spec() == self.name_spec(),
            r.status_spec() == symbols::Unknown,
    {
        let Shader { kind, name, .. } = self;
        Shader { kind, name, status: symbols::Unknown }
    }

    /// The kind this shader was created with.
    pub fn kind(&self) -> (r: &K)
        ensures
            *r == self.kind_spec(),
    {
        &self.kind
    }

    /// The driver name this shader wraps.
    pub fn name(&self) -> (r: &ShaderName)
        ensures
            *r == self.name_spec(),
    {
        &self.name
    }

    /// The status this shader currently records.
    pub fn status(&self) -> (r: &S)
        ensures
            *r == self.status_spec(),
    {
        &self.status
    }

    /// Consumes the shader for deletion, handing back the name to
    /// forward to the driver's deallocation call. Permitted from any
    /// state; after it, further use of the resource is impossible.
    pub fn delete(self) -> (r: ShaderName)
        ensures
            r == self.name_spec(),
    {
        self.name
    }
}

impl<K: traits::ShaderKind, S> Shader<K, S> {
    /// Determines the kind dynamically, retagging the shader with the
    /// matching static kind marker. The name and the status carry over
    /// unchanged.
    pub fn determine_kind(self) -> (r: ShaderKind<S>)
        ensures
            match r {
                ShaderKind::Compute(sh) => {
                    &&& self.kind_spec().dynamic_spec() == enums::ShaderKind::Compute
                    &&& sh.name_spec() == self.name_spec()
                    &&& sh.status_spec() == self.status_spec()
                },
                ShaderKind::Vertex(sh) => {
                    &&& self.kind_spec().dynamic_spec() == enums::ShaderKind::Vertex
                    &&& sh.name_spec() == self.name_spec()
                    &&& sh.status_spec() == self.status_spec()
                },
                ShaderKind::TessControl(sh) => {
                    &&& self.kind_spec().dynamic_spec() == enums::ShaderKind::TessControl
                    &&& sh.name_spec() == self.name_spec()
                    &&& sh.status_spec() == self.status_spec()
                },
                ShaderKind::TessEvaluation(sh) => {
                    &&& self.kind_spec().dynamic_spec() == enums::ShaderKind::TessEvaluation
                    &&& sh.name_spec() == self.name_spec()
                    &&& sh.status_spec() == self.status_spec()
                },
                ShaderKind::Geometry(sh) => {
                    &&& self.kind_spec().dynamic_spec() == enums::ShaderKind::Geometry
                    &&& sh.name_spec() == self.name_spec()
                    &&& sh.status_spec() == self.status_spec()
                },
                ShaderKind::Fragment(sh) => {
                    &&& self.kind_spec().dynamic_spec() == enums::ShaderKind::Fragment
                    &&& sh.name_spec() == self.name_spec()
                    &&& sh.status_spec() == self.status_spec()
                },
            },
    {
        let (kind, name, status) = self.into_raw_parts();
        match kind.to_dynamic() {
            enums::ShaderKind::Compute => {
                ShaderKind::Compute(Shader::from_raw_parts(symbols::Compute, name, status))
            },
            enums::ShaderKind::Vertex => {
                ShaderKind::Vertex(Shader::from_raw_parts(symbols::Vertex, name, status))
            },
            enums::ShaderKind::TessControl => {
                ShaderKind::TessControl(Shader::from_raw_parts(symbols::TessControl, name, status))
            },
            enums::ShaderKind::TessEvaluation => {
                ShaderKind::TessEvaluation(
                    Shader::from_raw_parts(symbols::TessEvaluation, name, status),
                )
            },
            enums::ShaderKind::Geometry => {
                ShaderKind::Geometry(Shader::from_raw_parts(symbols::Geometry, name, status))
            },
            enums::ShaderKind::Fragment => {
                ShaderKind::Fragment(Shader::from_raw_parts(symbols::Fragment, name, status))
            },
        }
    }
}

impl<K, S: traits::CompileStatus> Shader<K, S> {
    /// Determines the compile status dynamically, retagging the shader
    /// with the matching terminal status marker. The kind and the name
    /// carry over unchanged.
    pub fn determine_status(self) -> (r: CompileStatus<K>)
        ensures
            match r {
                CompileStatus::Uncompiled(sh) => {
                    &&& self.status_spec().dynamic_spec()
                        == enums::ShaderCompileStatus::Uncompiled
                    &&& sh.kind_spec() == self.kind_spec()
                    &&& sh.name_spec() == self.name_spec()
                },
                CompileStatus::Compiled(sh) => {
                    &&& self.status_spec().dynamic_spec() == enums::ShaderCompileStatus::Compiled
                    &&& sh.kind_spec() == self.kind_spec()
                    &&& sh.name_spec() == self.name_spec()
                },
            },
    {
        let (kind, name, status) = self.into_raw_parts();
        match status.to_dynamic() {
            enums::ShaderCompileStatus::Uncompiled => {
                CompileStatus::Uncompiled(Shader::from_raw_parts(kind, name, symbols::Uncompiled))
            },
            enums::ShaderCompileStatus::Compiled => {
                CompileStatus::Compiled(Shader::from_raw_parts(kind, name, symbols::Compiled))
            },
        }
    }
}

impl<K, S: CompilePending> Shader<K, S> {
    /// Records that the driver's compile call has been issued for this
    /// shader. The call itself always completes; whether it succeeded is
    /// observable only through a subsequent requery, so the status
    /// becomes [`symbols::Unknown`] pending that requery.
    pub fn compile(self) -> (r: Shader<K, symbols::Unknown>)
        ensures
            r.kind_spec() == self.kind_spec(),
            r.name_spec() == self.name_spec(),
    {
        self.without_status()
    }
}

impl<K> Shader<K, symbols::Unknown> {
    /// Resolves the pending status from the value the driver reported on
    /// requery. Only a shader in the [`symbols::Unknown`] state can be
    /// queried, which only [`Shader::compile`] produces, so a requery
    /// cannot precede the operation it confirms.
    pub fn query_compile_status(self, status: enums::ShaderCompileStatus) -> (r: CompileStatus<K>)
        ensures
            match r {
                CompileStatus::Uncompiled(sh) => {
                    &&& status == enums::ShaderCompileStatus::Uncompiled
                    &&& sh.kind_spec() == self.kind_spec()
                    &&& sh.name_spec() == self.name_spec()
                },
                CompileStatus::Compiled(sh) => {
                    &&& status == enums::ShaderCompileStatus::Compiled
                    &&& sh.kind_spec() == self.kind_spec()
                    &&& sh.name_spec() == self.name_spec()
                },
            },
    {
        let (kind, name, _) = self.into_raw_parts();
        Shader::from_raw_parts(kind, name, status).determine_status()
    }
}

/// Wraps the raw identifier a driver shader-allocation call reported,
/// per the tagged kind the allocation was made with. The driver never
/// reports 0 for a successful allocation, so receiving 0 is an
/// allocation failure, never silently coerced into a usable handle. A
/// fresh shader starts in the confirmed [`symbols::Uncompiled`] state.
pub fn create_shader<K: traits::ShaderKind>(kind: K, name: u32) -> (r: Result<
    Shader<K, symbols::Uncompiled>,
    ReceivedInvalidShaderName,
>)
    ensures
        r is Ok <==> name != 0,
        r matches Ok(sh) ==> {
            &&& sh.kind_spec() == kind
            &&& sh.name_spec().raw_spec() == name
            &&& sh.status_spec() == symbols::Uncompiled
        },
{
    match ShaderName::new(name) {
        Ok(n) => Ok(Shader::from_raw_parts(kind, n, symbols::Uncompiled)),
        Err(e) => Err(e),
    }
}

} // verus!
