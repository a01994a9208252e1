//! The major-axis tagging of matrix arguments. The driver takes a flag
//! beside every matrix upload saying whether the flat data is laid out
//! row by row or column by column; these wrappers carry that fact in
//! the type, so the flag can never contradict the data.

use vstd::prelude::*;

verus! {

/// The axis along which a flat matrix is laid out.
#[derive(Clone, Copy, PartialEq, Eq, Structural, Hash, Debug)]
pub enum MajorAxis {
    Col,
    Row,
}

impl MajorAxis {
    /// The boolean transpose flag the driver receives: row-major data
    /// asks the driver to transpose.
    pub open spec fn as_u8_spec(self) -> u8 {
        match self {
            MajorAxis::Col => 0,
            MajorAxis::Row => 1,
        }
    }

    /// Encodes this axis as the boolean flag the driver understands.
    pub fn as_u8(&self) -> (r: u8)
        ensures
            r == self.as_u8_spec(),
    {
        match *self {
            MajorAxis::Col => 0,
            MajorAxis::Row => 1,
        }
    }
}

/// Flat matrix data laid out row by row.
#[derive(Clone, Copy, PartialEq, Eq, Structural, Hash, Debug)]
pub struct RowMajorMatrix<T>(pub T);

impl<T> RowMajorMatrix<T> {
    /// The axis this wrapper vouches for.
    pub fn major_axis() -> (r: MajorAxis)
        ensures
            r == MajorAxis::Row,
    {
        MajorAxis::Row
    }

    /// The wrapped data.
    pub fn inner(&self) -> (r: &T)
        ensures
            *r == self.0,
    {
        &self.0
    }
}

/// Flat matrix data laid out column by column.
#[derive(Clone, Copy, PartialEq, Eq, Structural, Hash, Debug)]
pub struct ColMajorMatrix<T>(pub T);

impl<T> ColMajorMatrix<T> {
    /// The axis this wrapper vouches for.
    pub fn major_axis() -> (r: MajorAxis)
        ensures
            r == MajorAxis::Col,
    {
        MajorAxis::Col
    }

    /// The wrapped data.
    pub fn inner(&self) -> (r: &T)
        ensures
            *r == self.0,
    {
        &self.0
    }
}

} // verus!
