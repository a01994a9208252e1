//! Zero-size parameter-name symbols for the shader and program object
//! queries. Each symbol encodes to exactly one parameter-name constant
//! of the driver, so a query that is statically known to read one
//! parameter carries it in its type.

use vstd::prelude::*;
use crate::gl;

verus! {

/// A parameter name of an object query, encodable as the numeric
/// constant the driver uses for it.
pub trait Param: Sized {
    /// The parameter-name constant this symbol denotes.
    spec fn as_u32_spec(&self) -> u32;

    /// Encodes this parameter name as the raw constant the driver
    /// understands.
    fn as_u32(&self) -> (r: u32)
        ensures
            r == self.as_u32_spec(),
    ;
}

/// Selects the kind a shader was created with.
#[derive(Clone, Copy, PartialEq, Eq, Structural, Debug)]
pub struct ShaderType;

impl Param for ShaderType {
    open spec fn as_u32_spec(&self) -> u32 {
        gl::SHADER_TYPE
    }

    fn as_u32(&self) -> (r: u32) {
        gl::SHADER_TYPE
    }
}

/// Selects the confirmed compile status of a shader.
#[derive(Clone, Copy, PartialEq, Eq, Structural, Debug)]
pub struct CompileStatus;

impl Param for CompileStatus {
    open spec fn as_u32_spec(&self) -> u32 {
        gl::COMPILE_STATUS
    }

    fn as_u32(&self) -> (r: u32) {
        gl::COMPILE_STATUS
    }
}

/// Selects the length of the concatenated shader source.
#[derive(Clone, Copy, PartialEq, Eq, Structural, Debug)]
pub struct ShaderSourceLength;

impl Param for ShaderSourceLength {
    open spec fn as_u32_spec(&self) -> u32 {
        gl::SHADER_SOURCE_LENGTH
    }

    fn as_u32(&self) -> (r: u32) {
        gl::SHADER_SOURCE_LENGTH
    }
}

/// Selects whether an object is flagged for deletion.
#[derive(Clone, Copy, PartialEq, Eq, Structural, Debug)]
pub struct DeleteStatus;

impl Param for DeleteStatus {
    open spec fn as_u32_spec(&self) -> u32 {
        gl::DELETE_STATUS
    }

    fn as_u32(&self) -> (r: u32) {
        gl::DELETE_STATUS
    }
}

/// Selects the confirmed link status of a program.
#[derive(Clone, Copy, PartialEq, Eq, Structural, Debug)]
pub struct LinkStatus;

impl Param for LinkStatus {
    open spec fn as_u32_spec(&self) -> u32 {
        gl::LINK_STATUS
    }

    fn as_u32(&self) -> (r: u32) {
        gl::LINK_STATUS
    }
}

/// Selects the result of the last validation of a program.
#[derive(Clone, Copy, PartialEq, Eq, Structural, Debug)]
pub struct ValidateStatus;

impl Param for ValidateStatus {
    open spec fn as_u32_spec(&self) -> u32 {
        gl::VALIDATE_STATUS
    }

    fn as_u32(&self) -> (r: u32) {
        gl::VALIDATE_STATUS
    }
}

/// Selects the capacity needed for the info log, terminator included.
#[derive(Clone, Copy, PartialEq, Eq, Structural, Debug)]
pub struct InfoLogLength;

impl Param for InfoLogLength {
    open spec fn as_u32_spec(&self) -> u32 {
        gl::INFO_LOG_LENGTH
    }

    fn as_u32(&self) -> (r: u32) {
        gl::INFO_LOG_LENGTH
    }
}

/// Selects the number of shaders attached to a program.
#[derive(Clone, Copy, PartialEq, Eq, Structural, Debug)]
pub struct AttachedShaders;

impl Param for AttachedShaders {
    open spec fn as_u32_spec(&self) -> u32 {
        gl::ATTACHED_SHADERS
    }

    fn as_u32(&self) -> (r: u32) {
        gl::ATTACHED_SHADERS
    }
}

/// Selects the number of active atomic counter buffers.
#[derive(Clone, Copy, PartialEq, Eq, Structural, Debug)]
pub struct ActiveAtomicCounterBuffers;

impl Param for ActiveAtomicCounterBuffers {
    open spec fn as_u32_spec(&self) -> u32 {
        gl::ACTIVE_ATOMIC_COUNTER_BUFFERS
    }

    fn as_u32(&self) -> (r: u32) {
        gl::ACTIVE_ATOMIC_COUNTER_BUFFERS
    }
}

/// Selects the number of active attributes of a program.
#[derive(Clone, Copy, PartialEq, Eq, Structural, Debug)]
pub struct ActiveAttributes;

impl Param for ActiveAttributes {
    open spec fn as_u32_spec(&self) -> u32 {
        gl::ACTIVE_ATTRIBUTES
    }

    fn as_u32(&self) -> (r: u32) {
        gl::ACTIVE_ATTRIBUTES
    }
}

/// Selects the length of the longest active attribute name.
#[derive(Clone, Copy, PartialEq, Eq, Structural, Debug)]
pub struct ActiveAttributeMaxLength;

impl Param for ActiveAttributeMaxLength {
    open spec fn as_u32_spec(&self) -> u32 {
        gl::ACTIVE_ATTRIBUTE_MAX_LENGTH
    }

    fn as_u32(&self) -> (r: u32) {
        gl::ACTIVE_ATTRIBUTE_MAX_LENGTH
    }
}

/// Selects the number of active uniforms of a program.
#[derive(Clone, Copy, PartialEq, Eq, Structural, Debug)]
pub struct ActiveUniforms;

impl Param for ActiveUniforms {
    open spec fn as_u32_spec(&self) -> u32 {
        gl::ACTIVE_UNIFORMS
    }

    fn as_u32(&self) -> (r: u32) {
        gl::ACTIVE_UNIFORMS
    }
}

/// Selects the length of the longest active uniform name.
#[derive(Clone, Copy, PartialEq, Eq, Structural, Debug)]
pub struct ActiveUniformMaxLength;

impl Param for ActiveUniformMaxLength {
    open spec fn as_u32_spec(&self) -> u32 {
        gl::ACTIVE_UNIFORM_MAX_LENGTH
    }

    fn as_u32(&self) -> (r: u32) {
        gl::ACTIVE_UNIFORM_MAX_LENGTH
    }
}

/// Selects the size of the program binary.
#[derive(Clone, Copy, PartialEq, Eq, Structural, Debug)]
pub struct ProgramBinaryLength;

impl Param for ProgramBinaryLength {
    open spec fn as_u32_spec(&self) -> u32 {
        gl::PROGRAM_BINARY_LENGTH
    }

    fn as_u32(&self) -> (r: u32) {
        gl::PROGRAM_BINARY_LENGTH
    }
}

/// Selects the local work group size of a compute program.
#[derive(Clone, Copy, PartialEq, Eq, Structural, Debug)]
pub struct ComputeWorkGroupSize;

impl Param for ComputeWorkGroupSize {
    open spec fn as_u32_spec(&self) -> u32 {
        gl::COMPUTE_WORK_GROUP_SIZE
    }

    fn as_u32(&self) -> (r: u32) {
        gl::COMPUTE_WORK_GROUP_SIZE
    }
}

/// Selects the transform feedback buffer mode of a program.
#[derive(Clone, Copy, PartialEq, Eq, Structural, Debug)]
pub struct TransformFeedbackBufferMode;

impl Param for TransformFeedbackBufferMode {
    open spec fn as_u32_spec(&self) -> u32 {
        gl::TRANSFORM_FEEDBACK_BUFFER_MODE
    }

    fn as_u32(&self) -> (r: u32) {
        gl::TRANSFORM_FEEDBACK_BUFFER_MODE
    }
}

/// Selects the number of transform feedback varyings.
#[derive(Clone, Copy, PartialEq, Eq, Structural, Debug)]
pub struct TransformFeedbackVaryings;

impl Param for TransformFeedbackVaryings {
    open spec fn as_u32_spec(&self) -> u32 {
        gl::TRANSFORM_FEEDBACK_VARYINGS
    }

    fn as_u32(&self) -> (r: u32) {
        gl::TRANSFORM_FEEDBACK_VARYINGS
    }
}

/// Selects the length of the longest transform feedback varying name.
#[derive(Clone, Copy, PartialEq, Eq, Structural, Debug)]
pub struct TransformFeedbackVaryingMaxLength;

impl Param for TransformFeedbackVaryingMaxLength {
    open spec fn as_u32_spec(&self) -> u32 {
        gl::TRANSFORM_FEEDBACK_VARYING_MAX_LENGTH
    }

    fn as_u32(&self) -> (r: u32) {
        gl::TRANSFORM_FEEDBACK_VARYING_MAX_LENGTH
    }
}

/// Selects the maximum vertex output count of a geometry program.
#[derive(Clone, Copy, PartialEq, Eq, Structural, Debug)]
pub struct GeometryVerticesOut;

impl Param for GeometryVerticesOut {
    open spec fn as_u32_spec(&self) -> u32 {
        gl::GEOMETRY_VERTICES_OUT
    }

    fn as_u32(&self) -> (r: u32) {
        gl::GEOMETRY_VERTICES_OUT
    }
}

/// Selects the primitive input type of a geometry program.
#[derive(Clone, Copy, PartialEq, Eq, Structural, Debug)]
pub struct GeometryInputType;

impl Param for GeometryInputType {
    open spec fn as_u32_spec(&self) -> u32 {
        gl::GEOMETRY_INPUT_TYPE
    }

    fn as_u32(&self) -> (r: u32) {
        gl::GEOMETRY_INPUT_TYPE
    }
}

/// Selects the primitive output type of a geometry program.
#[derive(Clone, Copy, PartialEq, Eq, Structural, Debug)]
pub struct GeometryOutputType;

impl Param for GeometryOutputType {
    open spec fn as_u32_spec(&self) -> u32 {
        gl::GEOMETRY_OUTPUT_TYPE
    }

    fn as_u32(&self) -> (r: u32) {
        gl::GEOMETRY_OUTPUT_TYPE
    }
}

} // verus!
