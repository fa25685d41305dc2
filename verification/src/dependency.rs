use vstd::prelude::*;

verus! {

/// Name of the service that divides two floats.
pub const FLOATDIVIDE: &'static str = "srvcs-floatdivide";

/// Name of the service that multiplies two floats.
pub const FLOATMULTIPLY: &'static str = "srvcs-floatmultiply";

/// The two remote primitives this service composes.
#[derive(Clone, Copy, Debug, PartialEq, Eq, Structural)]
pub enum Dependency {
    FloatDivide,
    FloatMultiply,
}

impl Dependency {
    /// The name under which the dependency is known.
    pub open spec fn spec_name(self) -> Seq<char> {
        match self {
            Dependency::FloatDivide => FLOATDIVIDE@,
            Dependency::FloatMultiply => FLOATMULTIPLY@,
        }
    }

    /// The name under which the dependency is known.
    pub fn name(&self) -> (name: &'static str)
        ensures
            name@ == self.spec_name(),
            *self == Dependency::FloatDivide ==> name@ == "srvcs-floatdivide"@,
            *self == Dependency::FloatMultiply ==> name@ == "srvcs-floatmultiply"@,
    {
        match self {
            Dependency::FloatDivide => FLOATDIVIDE,
            Dependency::FloatMultiply => FLOATMULTIPLY,
        }
    }
}

} // verus!
