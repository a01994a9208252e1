//! Vertex attribute formats: the component count, component type,
//! normalization flag and byte size that together describe one
//! attribute's layout in a vertex buffer.

#![allow(non_camel_case_types)]

use vstd::prelude::*;
use crate::gl;

verus! {

/// The number of components of an attribute: one through four.
#[derive(Clone, Copy, PartialEq, Eq, Structural, Hash, Debug)]
pub enum ComponentCount {
    P1,
    P2,
    P3,
    P4,
}

impl ComponentCount {
    /// The count as an integer.
    pub open spec fn count_spec(self) -> u32 {
        match self {
            ComponentCount::P1 => 1,
            ComponentCount::P2 => 2,
            ComponentCount::P3 => 3,
            ComponentCount::P4 => 4,
        }
    }

    /// The count as an unsigned integer.
    pub fn to_u32(&self) -> (r: u32)
        ensures
            r == self.count_spec(),
            1 <= r <= 4,
    {
        match *self {
            ComponentCount::P1 => 1,
            ComponentCount::P2 => 2,
            ComponentCount::P3 => 3,
            ComponentCount::P4 => 4,
        }
    }

    /// The count as a signed integer, as some driver calls take it.
    pub fn to_i32(&self) -> (r: i32)
        ensures
            r == self.count_spec(),
            1 <= r <= 4,
    {
        match *self {
            ComponentCount::P1 => 1,
            ComponentCount::P2 => 2,
            ComponentCount::P3 => 3,
            ComponentCount::P4 => 4,
        }
    }
}

/// An attribute format read by the shader as floating point. The `bool`
/// of the integer-component variants tells whether the components are
/// normalized to the unit interval.
#[derive(Clone, Copy, PartialEq, Eq, Structural, Hash, Debug)]
pub enum AttributeFormatF {
    F16(ComponentCount),
    F32(ComponentCount),
    Fixed16_16(ComponentCount),
    I8(ComponentCount, bool),
    U8(ComponentCount, bool),
    I16(ComponentCount, bool),
    U16(ComponentCount, bool),
    I32(ComponentCount, bool),
    U32(ComponentCount, bool),
    I_2_10_10_10_REV,
    U_2_10_10_10_REV,
    U_10F_11F_11F_REV,
}

impl AttributeFormatF {
    /// The number of bytes one attribute of this format occupies.
    pub open spec fn byte_size_spec(self) -> int {
        match self {
            AttributeFormatF::I8(c, _) | AttributeFormatF::U8(c, _) => c.count_spec() as int,
            AttributeFormatF::I16(c, _) | AttributeFormatF::U16(c, _)
            | AttributeFormatF::F16(c) => c.count_spec() * 2,
            AttributeFormatF::I32(c, _) | AttributeFormatF::U32(c, _)
            | AttributeFormatF::F32(c) | AttributeFormatF::Fixed16_16(c) => c.count_spec() * 4,
            AttributeFormatF::I_2_10_10_10_REV | AttributeFormatF::U_2_10_10_10_REV => 4,
            AttributeFormatF::U_10F_11F_11F_REV => 3,
        }
    }

    /// The number of bytes one attribute of this format occupies.
    pub fn byte_size(&self) -> (r: u32)
        ensures
            r == self.byte_size_spec(),
    {
        match *self {
            AttributeFormatF::I8(c, _) | AttributeFormatF::U8(c, _) => c.to_u32(),
            AttributeFormatF::I16(c, _) | AttributeFormatF::U16(c, _)
            | AttributeFormatF::F16(c) => c.to_u32() * 2,
            AttributeFormatF::I32(c, _) | AttributeFormatF::U32(c, _)
            | AttributeFormatF::F32(c) | AttributeFormatF::Fixed16_16(c) => c.to_u32() * 4,
            AttributeFormatF::I_2_10_10_10_REV | AttributeFormatF::U_2_10_10_10_REV => 4,
            AttributeFormatF::U_10F_11F_11F_REV => 3,
        }
    }

    /// Whether the driver is told to normalize the stored components to
    /// the unit interval: the flag of the integer-component variants,
    /// and false for the variants that already carry fractions.
    pub fn should_normalize(&self) -> (r: bool)
        ensures
            r == match *self {
                AttributeFormatF::I8(_, n) | AttributeFormatF::U8(_, n)
                | AttributeFormatF::I16(_, n) | AttributeFormatF::U16(_, n)
                | AttributeFormatF::I32(_, n) | AttributeFormatF::U32(_, n) => n,
                _ => false,
            },
    {
        match *self {
            AttributeFormatF::I8(_, n) | AttributeFormatF::U8(_, n)
            | AttributeFormatF::I16(_, n) | AttributeFormatF::U16(_, n)
            | AttributeFormatF::I32(_, n) | AttributeFormatF::U32(_, n) => n,
            AttributeFormatF::F16(_) | AttributeFormatF::F32(_)
            | AttributeFormatF::Fixed16_16(_) | AttributeFormatF::I_2_10_10_10_REV
            | AttributeFormatF::U_2_10_10_10_REV | AttributeFormatF::U_10F_11F_11F_REV => false,
        }
    }

    /// The component count: the carried count, and the fixed count of
    /// the packed variants.
    pub fn component_count(&self) -> (r: ComponentCount)
        ensures
            r == match *self {
                AttributeFormatF::F16(c) | AttributeFormatF::F32(c)
                | AttributeFormatF::Fixed16_16(c) | AttributeFormatF::I8(c, _)
                | AttributeFormatF::U8(c, _) | AttributeFormatF::I16(c, _)
                | AttributeFormatF::U16(c, _) | AttributeFormatF::I32(c, _)
                | AttributeFormatF::U32(c, _) => c,
                AttributeFormatF::I_2_10_10_10_REV | AttributeFormatF::U_2_10_10_10_REV
                    => ComponentCount::P4,
                AttributeFormatF::U_10F_11F_11F_REV => ComponentCount::P3,
            },
    {
        match *self {
            AttributeFormatF::F16(c) | AttributeFormatF::F32(c)
            | AttributeFormatF::Fixed16_16(c) | AttributeFormatF::I8(c, _)
            | AttributeFormatF::U8(c, _) | AttributeFormatF::I16(c, _)
            | AttributeFormatF::U16(c, _) | AttributeFormatF::I32(c, _)
            | AttributeFormatF::U32(c, _) => c,
            AttributeFormatF::I_2_10_10_10_REV | AttributeFormatF::U_2_10_10_10_REV => {
                ComponentCount::P4
            },
            AttributeFormatF::U_10F_11F_11F_REV => ComponentCount::P3,
        }
    }

    /// The component type constant the driver receives for this format.
    pub fn component_type(&self) -> (r: u32)
        ensures
            r == match *self {
                AttributeFormatF::F16(_) => gl::HALF_FLOAT,
                AttributeFormatF::F32(_) => gl::FLOAT,
                AttributeFormatF::Fixed16_16(_) => gl::FIXED,
                AttributeFormatF::I8(_, _) => gl::BYTE,
                AttributeFormatF::U8(_, _) => gl::UNSIGNED_BYTE,
                AttributeFormatF::I16(_, _) => gl::SHORT,
                AttributeFormatF::U16(_, _) => gl::UNSIGNED_SHORT,
                AttributeFormatF::I32(_, _) => gl::INT,
                AttributeFormatF::U32(_, _) => gl::UNSIGNED_INT,
                AttributeFormatF::I_2_10_10_10_REV => gl::INT_2_10_10_10_REV,
                AttributeFormatF::U_2_10_10_10_REV => gl::UNSIGNED_INT_2_10_10_10_REV,
                AttributeFormatF::U_10F_11F_11F_REV => gl::UNSIGNED_INT_10F_11F_11F_REV,
            },
    {
        match *self {
            AttributeFormatF::F16(_) => gl::HALF_FLOAT,
            AttributeFormatF::F32(_) => gl::FLOAT,
            AttributeFormatF::Fixed16_16(_) => gl::FIXED,
            AttributeFormatF::I8(_, _) => gl::BYTE,
            AttributeFormatF::U8(_, _) => gl::UNSIGNED_BYTE,
            AttributeFormatF::I16(_, _) => gl::SHORT,
            AttributeFormatF::U16(_, _) => gl::UNSIGNED_SHORT,
            AttributeFormatF::I32(_, _) => gl::INT,
            AttributeFormatF::U32(_, _) => gl::UNSIGNED_INT,
            AttributeFormatF::I_2_10_10_10_REV => gl::INT_2_10_10_10_REV,
            AttributeFormatF::U_2_10_10_10_REV => gl::UNSIGNED_INT_2_10_10_10_REV,
            AttributeFormatF::U_10F_11F_11F_REV => gl::UNSIGNED_INT_10F_11F_11F_REV,
        }
    }
}

/// An attribute format read by the shader as integers.
#[derive(Clone, Copy, PartialEq, Eq, Structural, Hash, Debug)]
pub enum AttributeFormatI {
    I8(ComponentCount),
    U8(ComponentCount),
    I16(ComponentCount),
    U16(ComponentCount),
    I32(ComponentCount),
    U32(ComponentCount),
}

impl AttributeFormatI {
    /// The number of bytes one attribute of this format occupies.
    pub open spec fn byte_size_spec(self) -> int {
        match self {
            AttributeFormatI::I8(c) | AttributeFormatI::U8(c) => c.count_spec() as int,
            AttributeFormatI::I16(c) | AttributeFormatI::U16(c) => c.count_spec() * 2,
            AttributeFormatI::I32(c) | AttributeFormatI::U32(c) => c.count_spec() * 4,
        }
    }

    /// The number of bytes one attribute of this format occupies.
    pub fn byte_size(&self) -> (r: u32)
        ensures
            r == self.byte_size_spec(),
    {
        match *self {
            AttributeFormatI::I8(c) | AttributeFormatI::U8(c) => c.to_u32(),
            AttributeFormatI::I16(c) | AttributeFormatI::U16(c) => c.to_u32() * 2,
            AttributeFormatI::I32(c) | AttributeFormatI::U32(c) => c.to_u32() * 4,
        }
    }

    /// The carried component count.
    pub fn component_count(&self) -> (r: ComponentCount)
        ensures
            r == match *self {
                AttributeFormatI::I8(c) | AttributeFormatI::U8(c) | AttributeFormatI::I16(c)
                | AttributeFormatI::U16(c) | AttributeFormatI::I32(c)
                | AttributeFormatI::U32(c) => c,
            },
    {
        match *self {
            AttributeFormatI::I8(c) | AttributeFormatI::U8(c) | AttributeFormatI::I16(c)
            | AttributeFormatI::U16(c) | AttributeFormatI::I32(c) | AttributeFormatI::U32(c) => c,
        }
    }

    /// The component type constant the driver receives for this format.
    pub fn component_type(&self) -> (r: u32)
        ensures
            r == match *self {
                AttributeFormatI::I8(_) => gl::BYTE,
                AttributeFormatI::U8(_) => gl::UNSIGNED_BYTE,
                AttributeFormatI::I16(_) => gl::SHORT,
                AttributeFormatI::U16(_) => gl::UNSIGNED_SHORT,
                AttributeFormatI::I32(_) => gl::INT,
                AttributeFormatI::U32(_) => gl::UNSIGNED_INT,
            },
    {
        match *self {
            AttributeFormatI::I8(_) => gl::BYTE,
            AttributeFormatI::U8(_) => gl::UNSIGNED_BYTE,
            AttributeFormatI::I16(_) => gl::SHORT,
            AttributeFormatI::U16(_) => gl::UNSIGNED_SHORT,
            AttributeFormatI::I32(_) => gl::INT,
            AttributeFormatI::U32(_) => gl::UNSIGNED_INT,
        }
    }
}

/// An attribute format read by the shader as double precision values.
#[derive(Clone, Copy, PartialEq, Eq, Structural, Hash, Debug)]
pub enum AttributeFormatL {
    F64(ComponentCount),
}

impl AttributeFormatL {
    /// The number of bytes one attribute of this format occupies.
    pub open spec fn byte_size_spec(self) -> int {
        match self {
            AttributeFormatL::F64(c) => c.count_spec() * 8,
        }
    }

    /// The number of bytes one attribute of this format occupies.
    pub fn byte_size(&self) -> (r: u32)
        ensures
            r == self.byte_size_spec(),
    {
        match *self {
            AttributeFormatL::F64(c) => c.to_u32() * 8,
        }
    }

    /// The carried component count.
    pub fn component_count(&self) -> (r: ComponentCount)
        ensures
            r == match *self {
                AttributeFormatL::F64(c) => c,
            },
    {
        match *self {
            AttributeFormatL::F64(c) => c,
        }
    }

    /// The component type constant the driver receives for this format.
    pub fn component_type(&self) -> (r: u32)
        ensures
            r == gl::DOUBLE,
    {
        gl::DOUBLE
    }
}

/// Any attribute format, dispatched to the driver call matching how the
/// shader reads it.
#[derive(Clone, Copy, PartialEq, Eq, Structural, Hash, Debug)]
pub enum AttributeFormat {
    F(AttributeFormatF),
    I(AttributeFormatI),
    L(AttributeFormatL),
}

impl AttributeFormat {
    /// The number of bytes one attribute of this format occupies.
    pub open spec fn byte_size_spec(self) -> int {
        match self {
            AttributeFormat::F(a) => a.byte_size_spec(),
            AttributeFormat::I(a) => a.byte_size_spec(),
            AttributeFormat::L(a) => a.byte_size_spec(),
        }
    }

    /// The number of bytes one attribute of this format occupies.
    pub fn byte_size(&self) -> (r: u32)
        ensures
            r == self.byte_size_spec(),
    {
        match *self {
            AttributeFormat::F(a) => a.byte_size(),
            AttributeFormat::I(a) => a.byte_size(),
            AttributeFormat::L(a) => a.byte_size(),
        }
    }
}

} // verus!
