use vstd::prelude::*;

use crate::dependency::Dependency;
use crate::number::FloatBits;

verus! {

/// Error text of a reply given when a dependency cannot be used.
pub const UNAVAILABLE: &'static str = "dependency unavailable";

/// Error text of a reply given when a dependency answered `200` without a
/// numeric `result`.
pub const MALFORMED: &'static str = "dependency returned a malformed result";

/// Status of a successful evaluation.
pub const OK: u16 = 200;
/// Status under which a dependency rejects its input; forwarded as it is.
pub const UNPROCESSABLE: u16 = 422;
/// Status given when a dependency broke its contract.
pub const INTERNAL_ERROR: u16 = 500;
/// Status given when a forwarded status is not a valid HTTP status.
pub const BAD_GATEWAY: u16 = 502;
/// Status given when a dependency is unavailable.
pub const UNAVAILABLE_STATUS: u16 = 503;

/// The body of a successful evaluation: `percent% of whole` is `result`.
#[derive(Clone, Copy, Debug, PartialEq, Eq, Structural)]
pub struct PercentageOfResponse {
    pub percent: FloatBits,
    pub whole: FloatBits,
    /// `percent% of whole`, as the multiply service computed it.
    pub result: FloatBits,
}

/// What a reply carries.
#[derive(Clone, Debug, PartialEq, Eq)]
pub enum ReplyBody {
    /// `{"percent": p, "whole": w, "result": n}`.
    Evaluated(PercentageOfResponse),
    /// `{"error": error, "dependency": <name of dependency>}`.
    DependencyError { error: &'static str, dependency: Dependency },
    /// A dependency's own body, passed on byte for byte.
    Forwarded(Vec<u8>),
}

/// An HTTP reply of this service: a status and a body.
#[derive(Clone, Debug, PartialEq, Eq)]
pub struct Reply {
    pub status: u16,
    pub body: ReplyBody,
}

/// Mathematical model of a [`ReplyBody`].
#[verifier::ext_equal]
pub enum BodyView {
    Evaluated(PercentageOfResponse),
    DependencyError { error: Seq<char>, dependency: Dependency },
    Forwarded(Seq<u8>),
}

/// Mathematical model of a [`Reply`].
#[verifier::ext_equal]
pub struct ReplyView {
    pub status: u16,
    pub body: BodyView,
}

impl View for ReplyBody {
    type V = BodyView;

    open spec fn view(&self) -> BodyView {
        match self {
            ReplyBody::Evaluated(r) => BodyView::Evaluated(*r),
            ReplyBody::DependencyError { error, dependency } => BodyView::DependencyError {
                error: error@,
                dependency: *dependency,
            },
            ReplyBody::Forwarded(body) => BodyView::Forwarded(body@),
        }
    }
}

impl View for Reply {
    type V = ReplyView;

    open spec fn view(&self) -> ReplyView {
        ReplyView { status: self.status, body: self.body@ }
    }
}

/// Whether `status` is a valid HTTP status code (three digits, 100 to 999).
pub open spec fn is_valid_status(status: u16) -> bool {
    100 <= status <= 999
}

/// The status a forwarded status becomes: itself when it is valid, else `502`.
pub open spec fn spec_forwarded_status(status: u16) -> u16 {
    if is_valid_status(status) { status } else { BAD_GATEWAY }
}

/// Reply of a successful evaluation.
pub open spec fn evaluated_reply(percent: FloatBits, whole: FloatBits, result: FloatBits) -> ReplyView {
    ReplyView {
        status: OK,
        body: BodyView::Evaluated(PercentageOfResponse { percent, whole, result }),
    }
}

/// Reply when `dependency` is unreachable or answered an unexpected status.
pub open spec fn unavailable_reply(dependency: Dependency) -> ReplyView {
    ReplyView {
        status: UNAVAILABLE_STATUS,
        body: BodyView::DependencyError { error: UNAVAILABLE@, dependency },
    }
}

/// Reply when `dependency` answered `200` without a numeric `result`.
pub open spec fn malformed_reply(dependency: Dependency) -> ReplyView {
    ReplyView {
        status: INTERNAL_ERROR,
        body: BodyView::DependencyError { error: MALFORMED@, dependency },
    }
}

/// Reply that passes on a dependency's status and body.
pub open spec fn forwarded_reply(status: u16, body: Seq<u8>) -> ReplyView {
    ReplyView { status: spec_forwarded_status(status), body: BodyView::Forwarded(body) }
}

/// The status a forwarded status becomes: itself when it is a valid HTTP
/// status, `502 Bad Gateway` when it is not.
pub fn forwarded_status(status: u16) -> (code: u16)
    ensures
        code == spec_forwarded_status(status),
        code == (if 100 <= status <= 999 { status } else { 502 }),
{
    if 100 <= status && status <= 999 {
        status
    } else {
        BAD_GATEWAY
    }
}

/// `200` with the evaluated `percent% of whole`.
pub fn ok(percent: FloatBits, whole: FloatBits, result: FloatBits) -> (reply: Reply)
    ensures
        reply@ == evaluated_reply(percent, whole, result),
        reply@ == (ReplyView {
            status: 200,
            body: BodyView::Evaluated(PercentageOfResponse { percent, whole, result }),
        }),
{
    Reply {
        status: OK,
        body: ReplyBody::Evaluated(PercentageOfResponse { percent, whole, result }),
    }
}

/// `503`: `dependency` is unavailable.
pub fn degraded(dependency: Dependency) -> (reply: Reply)
    ensures
        reply@ == unavailable_reply(dependency),
        reply@ == (ReplyView {
            status: 503,
            body: BodyView::DependencyError { error: "dependency unavailable"@, dependency },
        }),
{
    Reply {
        status: UNAVAILABLE_STATUS,
        body: ReplyBody::DependencyError { error: UNAVAILABLE, dependency },
    }
}

/// A dependency's status and body, passed on; an invalid status becomes `502`.
pub fn forward(status: u16, body: Vec<u8>) -> (reply: Reply)
    ensures
        reply@ == forwarded_reply(status, body@),
        reply.status == (if 100 <= status <= 999 { status } else { 502 }),
        reply@.body == BodyView::Forwarded(body@),
{
    Reply { status: forwarded_status(status), body: ReplyBody::Forwarded(body) }
}

/// `500`: `dependency` answered `200` but its body lacked a numeric `result`.
/// That is a contract violation that cannot be recovered from, so it is
/// surfaced rather than guessed around.
pub fn malformed(dependency: Dependency) -> (reply: Reply)
    ensures
        reply@ == malformed_reply(dependency),
        reply@ == (ReplyView {
            status: 500,
            body: BodyView::DependencyError {
                error: "dependency returned a malformed result"@,
                dependency,
            },
        }),
{
    Reply {
        status: INTERNAL_ERROR,
        body: ReplyBody::DependencyError { error: MALFORMED, dependency },
    }
}

} // verus!
