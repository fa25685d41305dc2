use vstd::prelude::*;

use crate::dependency::{FLOATDIVIDE, FLOATMULTIPLY};

verus! {

/// Name under which this service identifies itself.
pub const SERVICE: &'static str = "srvcs-percentageof";

/// The single concern that this service owns.
pub const CONCERN: &'static str = "arithmetic: percent% of whole";

/// Service identity, as reported by `GET /`.
#[derive(Clone, Debug, PartialEq, Eq)]
pub struct Info {
    pub service: &'static str,
    pub concern: &'static str,
    pub depends_on: Vec<&'static str>,
}

/// The services this one calls, in the order it calls them.
pub fn depends_on() -> (names: Vec<&'static str>)
    ensures
        names@.len() == 2,
        names@[0]@ == FLOATDIVIDE@,
        names@[1]@ == FLOATMULTIPLY@,
        names@[0]@ == "srvcs-floatdivide"@,
        names@[1]@ == "srvcs-floatmultiply"@,
{
    let mut names: Vec<&'static str> = Vec::new();
    names.push(FLOATDIVIDE);
    names.push(FLOATMULTIPLY);
    names
}

/// `GET /`: the service's name, its concern and the services it calls.
pub fn index() -> (info: Info)
    ensures
        info.service@ == SERVICE@,
        info.concern@ == CONCERN@,
        info.depends_on@.len() == 2,
        info.depends_on@[0]@ == FLOATDIVIDE@,
        info.depends_on@[1]@ == FLOATMULTIPLY@,
        info.service@ == "srvcs-percentageof"@,
        info.concern@ == "arithmetic: percent% of whole"@,
        info.depends_on@[0]@ == "srvcs-floatdivide"@,
        info.depends_on@[1]@ == "srvcs-floatmultiply"@,
{
    Info { service: SERVICE, concern: CONCERN, depends_on: depends_on() }
}

} // verus!
