//! Where the service listens and where it finds its dependencies, from
//! optional settings with defaults.
use vstd::prelude::*;

use crate::evaluate::Deps;

verus! {

/// Address the service binds to when none is set.
pub const DEFAULT_BIND_ADDR: &'static str = "0.0.0.0:8080";

/// Base URL of the divide service when none is set.
pub const DEFAULT_FLOATDIVIDE_URL: &'static str = "http://127.0.0.1:8090";

/// Base URL of the multiply service when none is set.
pub const DEFAULT_FLOATMULTIPLY_URL: &'static str = "http://127.0.0.1:8091";

/// The text of a setting, where one is given.
pub open spec fn given(value: Option<String>) -> Option<Seq<char>> {
    match value {
        Some(v) => Some(v@),
        None => None,
    }
}

/// A setting's value: the one given, else `default`.
pub open spec fn setting(value: Option<Seq<char>>, default: Seq<char>) -> Seq<char> {
    match value {
        Some(v) => v,
        None => default,
    }
}

/// The given setting, else `default`.
pub fn setting_or(value: Option<String>, default: &str) -> (chosen: String)
    ensures
        chosen@ == setting(given(value), default@),
        match value {
            Some(v) => chosen@ == v@,
            None => chosen@ == default@,
        },
{
    match value {
        Some(v) => v,
        None => default.to_owned(),
    }
}

/// The address to bind to: the one given, else `0.0.0.0:8080`.
pub fn bind_addr(value: Option<String>) -> (addr: String)
    ensures
        addr@ == setting(given(value), DEFAULT_BIND_ADDR@),
        match value {
            Some(v) => addr@ == v@,
            None => addr@ == "0.0.0.0:8080"@,
        },
{
    setting_or(value, DEFAULT_BIND_ADDR)
}

impl Deps {
    /// The dependencies' base URLs: those given, else the local defaults.
    pub fn from_settings(floatdivide_url: Option<String>, floatmultiply_url: Option<String>) -> (deps: Deps)
        ensures
            deps.floatdivide_url@ == setting(given(floatdivide_url), DEFAULT_FLOATDIVIDE_URL@),
            deps.floatmultiply_url@ == setting(given(floatmultiply_url), DEFAULT_FLOATMULTIPLY_URL@),
            match floatdivide_url {
                Some(v) => deps.floatdivide_url@ == v@,
                None => deps.floatdivide_url@ == "http://127.0.0.1:8090"@,
            },
            match floatmultiply_url {
                Some(v) => deps.floatmultiply_url@ == v@,
                None => deps.floatmultiply_url@ == "http://127.0.0.1:8091"@,
            },
    {
        Deps {
            floatdivide_url: setting_or(floatdivide_url, DEFAULT_FLOATDIVIDE_URL),
            floatmultiply_url: setting_or(floatmultiply_url, DEFAULT_FLOATMULTIPLY_URL),
        }
    }
}

} // verus!
