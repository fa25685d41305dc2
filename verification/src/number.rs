use vstd::prelude::*;

verus! {

/// A binary64 floating-point value, held as its IEEE-754 bit pattern.
///
/// The library never computes with these values: it only carries them from
/// the request to the dependencies and from the dependencies to the reply,
/// so it keeps the exact bits it was given.
#[derive(Clone, Copy, Debug, PartialEq, Eq, Structural)]
pub struct FloatBits(pub u64);

/// A JSON number as this service writes it into a dependency request.
#[derive(Clone, Copy, Debug, PartialEq, Eq, Structural)]
pub enum JsonNumber {
    /// An integer literal, written without a fraction.
    Integer(u64),
    /// A binary64 value.
    Float(FloatBits),
}

} // verus!
