//! Zero-size marker types: the static side of the dual encoding of the
//! driver's closed enumerations. One marker exists per enumeration
//! member; code that is statically known to operate on a specific member
//! carries the member in its type and pays no runtime storage for it.
//! A symbol may stand for different variants in different enumerations,
//! which is why the markers live in a module of their own.

use vstd::prelude::*;

verus! {

/// The compute shader kind, known statically.
#[derive(Clone, Copy, PartialEq, Eq, Structural, Debug)]
pub struct Compute;

/// The vertex shader kind, known statically.
#[derive(Clone, Copy, PartialEq, Eq, Structural, Debug)]
pub struct Vertex;

/// The tessellation control shader kind, known statically.
#[derive(Clone, Copy, PartialEq, Eq, Structural, Debug)]
pub struct TessControl;

/// The tessellation evaluation shader kind, known statically.
#[derive(Clone, Copy, PartialEq, Eq, Structural, Debug)]
pub struct TessEvaluation;

/// The geometry shader kind, known statically.
#[derive(Clone, Copy, PartialEq, Eq, Structural, Debug)]
pub struct Geometry;

/// The fragment shader kind, known statically.
#[derive(Clone, Copy, PartialEq, Eq, Structural, Debug)]
pub struct Fragment;

/// A confirmed negative compile status, known statically.
#[derive(Clone, Copy, PartialEq, Eq, Structural, Debug)]
pub struct Uncompiled;

/// A confirmed positive compile status, known statically.
#[derive(Clone, Copy, PartialEq, Eq, Structural, Debug)]
pub struct Compiled;

/// A confirmed negative link status, known statically.
#[derive(Clone, Copy, PartialEq, Eq, Structural, Debug)]
pub struct Unlinked;

/// A confirmed positive link status, known statically.
#[derive(Clone, Copy, PartialEq, Eq, Structural, Debug)]
pub struct Linked;

/// A property that is not known statically: a kind that has been erased,
/// or a status that a pending operation has left unconfirmed until the
/// next requery.
#[derive(Clone, Copy, PartialEq, Eq, Structural, Debug)]
pub struct Unknown;

} // verus!
