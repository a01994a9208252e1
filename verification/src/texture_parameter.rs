//! The key/value pairing of the driver's integer texture parameter
//! calls: each parameter key admits exactly one closed type of values,
//! so a value produced for one parameter cannot be passed for another.

use vstd::prelude::*;

verus! {

/// A value accepted by the driver's integer texture parameter calls.
pub trait TextureParameterI32Value: Sized {
    /// The raw integer the driver receives for this value.
    spec fn as_i32_spec(&self) -> i32;

    /// Encodes this value as the raw integer the driver understands.
    fn as_i32(&self) -> (r: i32)
        ensures
            r == self.as_i32_spec(),
    ;
}

/// A parameter key accepted by the driver's integer texture parameter
/// calls, together with the closed type of the values it admits.
pub trait TextureParameterI32Key: Sized {
    /// The type of the values this key admits.
    type Value: TextureParameterI32Value;

    /// The raw parameter-name constant the driver receives.
    spec fn as_u32_spec(&self) -> u32;

    /// Encodes this key as the raw constant the driver understands.
    fn as_u32(&self) -> (r: u32)
        ensures
            r == self.as_u32_spec(),
    ;
}

} // verus!
