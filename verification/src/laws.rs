//! What holds of the evaluation, the replies, the settings and the OpenAPI
//! document, stated with literal values over the models that the
//! functions' own contracts use.
use vstd::prelude::*;

use crate::config::{given, setting};
use crate::dependency::Dependency;
use crate::evaluate::{
    after_reply, after_result, divide_call, start_state, CallView, DependencyReplyView,
    EvalRequest, EvaluationView, StepView,
};
use crate::json::json_number_member;
use crate::number::{FloatBits, JsonNumber};
use crate::openapi::{
    eval_request_fields, info_fields, percentage_of_response_fields, FieldKind,
};
use crate::reply::{spec_forwarded_status, BodyView, PercentageOfResponse, ReplyView};

verus! {

/// `percentageof(percent, whole)` is `floatmultiply(floatdivide(percent, 100), whole)`:
/// an evaluation starts waiting for the divide service and asks it for
/// `percent / 100`; when it answers `200` with the number `quotient`, it asks
/// the multiply service for `quotient * whole`; when that answers `200` with
/// the number `product`, the reply is `200` with the request's `percent` and
/// `whole` and with `product`, unchanged, as the result.
pub proof fn law_percentage_of_composes_divide_then_multiply(
    request: EvalRequest,
    floatdivide_url: Seq<char>,
    floatmultiply_url: Seq<char>,
    quotient_body: Seq<u8>,
    quotient: FloatBits,
    product_body: Seq<u8>,
    product: FloatBits,
)
    requires
        json_number_member(quotient_body, "result"@) == Some(quotient),
        json_number_member(product_body, "result"@) == Some(product),
    ensures
        start_state(request, floatmultiply_url) == (EvaluationView::AwaitingQuotient {
            request,
            floatmultiply_url,
        }),
        divide_call(request, floatdivide_url) == (CallView {
            dependency: Dependency::FloatDivide,
            url: floatdivide_url,
            a: JsonNumber::Float(request.percent),
            b: JsonNumber::Integer(100),
        }),
        after_reply(
            EvaluationView::AwaitingQuotient { request, floatmultiply_url },
            DependencyReplyView::Answered { status: 200, body: quotient_body },
        ) == StepView::Call(
            EvaluationView::AwaitingProduct { request },
            CallView {
                dependency: Dependency::FloatMultiply,
                url: floatmultiply_url,
                a: JsonNumber::Float(quotient),
                b: JsonNumber::Float(request.whole),
            },
        ),
        after_reply(
            EvaluationView::AwaitingProduct { request },
            DependencyReplyView::Answered { status: 200, body: product_body },
        ) == StepView::Respond(
            ReplyView {
                status: 200,
                body: BodyView::Evaluated(
                    PercentageOfResponse {
                        percent: request.percent,
                        whole: request.whole,
                        result: product,
                    },
                ),
            },
        ),
{
}

/// Whatever number the multiply service's `result` holds, the reply is `200`
/// and carries exactly that number as the result, and exactly the request's
/// `percent` and `whole`: nothing is capped, rounded or swapped.
pub proof fn law_product_is_the_result(request: EvalRequest, product: FloatBits)
    ensures
        after_result(EvaluationView::AwaitingProduct { request }, Some(product))
            == StepView::Respond(
            ReplyView {
                status: 200,
                body: BodyView::Evaluated(
                    PercentageOfResponse {
                        percent: request.percent,
                        whole: request.whole,
                        result: product,
                    },
                ),
            },
        ),
        after_result(EvaluationView::AwaitingProduct { request }, Some(product)) matches StepView::Respond(r)
            && r.body matches BodyView::Evaluated(e) && e.percent == request.percent && e.whole
            == request.whole && e.result == product,
{
}

/// Whatever number the divide service's `result` holds, it goes on unchanged
/// as the multiply service's first operand, with the request's `whole` as the
/// second, to the multiply service's URL.
pub proof fn law_quotient_is_multiplied_by_whole(
    request: EvalRequest,
    floatmultiply_url: Seq<char>,
    quotient: FloatBits,
)
    ensures
        after_result(EvaluationView::AwaitingQuotient { request, floatmultiply_url }, Some(quotient))
            == StepView::Call(
            EvaluationView::AwaitingProduct { request },
            CallView {
                dependency: Dependency::FloatMultiply,
                url: floatmultiply_url,
                a: JsonNumber::Float(quotient),
                b: JsonNumber::Float(request.whole),
            },
        ),
{
}

/// A `422` from a dependency is forwarded verbatim: status and body.
pub proof fn law_rejection_is_forwarded(state: EvaluationView, body: Seq<u8>)
    ensures
        after_reply(state, DependencyReplyView::Answered { status: 422, body })
            == StepView::Respond(ReplyView { status: 422, body: BodyView::Forwarded(body) }),
{
}

/// A dependency that cannot be reached, or that answers any status but `200`
/// and `422`, makes the service report itself degraded: `503` with the error
/// "dependency unavailable", naming the dependency it waited for; the
/// evaluation ends there.
pub proof fn law_unavailable_dependency_degrades(
    request: EvalRequest,
    floatmultiply_url: Seq<char>,
    reply: DependencyReplyView,
)
    requires
        match reply {
            DependencyReplyView::Unreachable => true,
            DependencyReplyView::Answered { status, .. } => status != 200 && status != 422,
        },
    ensures
        after_reply(EvaluationView::AwaitingQuotient { request, floatmultiply_url }, reply)
            == StepView::Respond(
            ReplyView {
                status: 503,
                body: BodyView::DependencyError {
                    error: "dependency unavailable"@,
                    dependency: Dependency::FloatDivide,
                },
            },
        ),
        after_reply(EvaluationView::AwaitingProduct { request }, reply) == StepView::Respond(
            ReplyView {
                status: 503,
                body: BodyView::DependencyError {
                    error: "dependency unavailable"@,
                    dependency: Dependency::FloatMultiply,
                },
            },
        ),
{
}

/// A dependency that answers `200` without a numeric `result` breaks its
/// contract: the reply is `500` with the error "dependency returned a
/// malformed result", naming that dependency.
pub proof fn law_malformed_result_is_internal_error(
    request: EvalRequest,
    floatmultiply_url: Seq<char>,
    body: Seq<u8>,
)
    requires
        json_number_member(body, "result"@) is None,
    ensures
        after_reply(
            EvaluationView::AwaitingQuotient { request, floatmultiply_url },
            DependencyReplyView::Answered { status: 200, body },
        ) == StepView::Respond(
            ReplyView {
                status: 500,
                body: BodyView::DependencyError {
                    error: "dependency returned a malformed result"@,
                    dependency: Dependency::FloatDivide,
                },
            },
        ),
        after_reply(
            EvaluationView::AwaitingProduct { request },
            DependencyReplyView::Answered { status: 200, body },
        ) == StepView::Respond(
            ReplyView {
                status: 500,
                body: BodyView::DependencyError {
                    error: "dependency returned a malformed result"@,
                    dependency: Dependency::FloatMultiply,
                },
            },
        ),
{
}

/// Every reply of an evaluation has one of the four documented statuses:
/// `200`, `422`, `500` or `503`.
pub proof fn law_reply_statuses(state: EvaluationView, reply: DependencyReplyView)
    ensures
        after_reply(state, reply) matches StepView::Respond(r) ==> (r.status == 200 || r.status
            == 422 || r.status == 500 || r.status == 503),
{
}

/// An evaluation makes at most two calls: after the divide service it may go
/// on to the multiply service, and after the multiply service it always
/// replies. Whatever it does next, the request stays the one it started with.
pub proof fn law_at_most_two_calls(state: EvaluationView, reply: DependencyReplyView)
    ensures
        state is AwaitingProduct ==> after_reply(state, reply) is Respond,
        after_reply(state, reply) matches StepView::Call(next, call) ==> {
            &&& state is AwaitingQuotient
            &&& next is AwaitingProduct
            &&& next.request() == state.request()
            &&& call.dependency == Dependency::FloatMultiply
        },
{
}

/// A forwarded status is kept when it is a valid HTTP status (100 to 999)
/// and becomes `502` otherwise.
pub proof fn law_forwarded_status(status: u16)
    ensures
        100 <= status <= 999 ==> spec_forwarded_status(status) == status,
        !(100 <= status <= 999) ==> spec_forwarded_status(status) == 502,
{
}

/// A given setting is used exactly as given, whatever its text; the default
/// is taken only where no setting is given.
pub proof fn law_given_setting_is_used(value: String, text: Seq<char>, default: Seq<char>)
    ensures
        given(Some(value)) == Some(value@),
        given(None) == None::<Seq<char>>,
        setting(Some(text), default) == text,
        setting(None, default) == default,
{
}

/// `EvalRequest` is documented with exactly the fields `percent` and `whole`,
/// each a required `double` number without description.
pub proof fn law_eval_request_fields_are_required_doubles()
    ensures
        eval_request_fields().dom() == set!["percent"@, "whole"@],
        eval_request_fields()["percent"@] == (FieldKind::Number, true, None::<Seq<char>>),
        eval_request_fields()["whole"@] == (FieldKind::Number, true, None::<Seq<char>>),
        forall|field: Seq<char>| #[trigger] eval_request_fields().dom().contains(field)
            ==> eval_request_fields()[field].0 == FieldKind::Number && eval_request_fields()[field].1,
{
    reveal_strlit("percent");
    reveal_strlit("whole");
    assert("percent"@.len() != "whole"@.len());
    assert(eval_request_fields().dom() =~= set!["percent"@, "whole"@]);
}

/// `PercentageOfResponse` is documented with exactly the fields `percent`,
/// `whole` and `result`, each a required `double` number; only `result` is
/// described.
pub proof fn law_percentage_of_response_fields_are_required_doubles()
    ensures
        percentage_of_response_fields().dom() == set!["percent"@, "whole"@, "result"@],
        percentage_of_response_fields()["percent"@] == (FieldKind::Number, true, None::<Seq<char>>),
        percentage_of_response_fields()["whole"@] == (FieldKind::Number, true, None::<Seq<char>>),
        percentage_of_response_fields()["result"@] == (
            FieldKind::Number,
            true,
            Some("`percent% of whole`, as a floating-point number that may be fractional."@),
        ),
        forall|field: Seq<char>| #[trigger] percentage_of_response_fields().dom().contains(field)
            ==> percentage_of_response_fields()[field].0 == FieldKind::Number
            && percentage_of_response_fields()[field].1,
{
    reveal_strlit("percent");
    reveal_strlit("whole");
    reveal_strlit("result");
    assert("percent"@.len() != "result"@.len());
    assert("whole"@.len() != "result"@.len());
    assert("percent"@.len() != "whole"@.len());
    assert(percentage_of_response_fields().dom() =~= set!["percent"@, "whole"@, "result"@]);
}

/// `Info` is documented with exactly the fields `service` and `concern`,
/// required strings, and `depends_on`, a required list of strings.
pub proof fn law_info_fields()
    ensures
        info_fields().dom() == set!["service"@, "concern"@, "depends_on"@],
        info_fields()["service"@] == (FieldKind::Text, true, None::<Seq<char>>),
        info_fields()["concern"@] == (FieldKind::Text, true, None::<Seq<char>>),
        info_fields()["depends_on"@] == (FieldKind::TextList, true, None::<Seq<char>>),
{
    reveal_strlit("service");
    reveal_strlit("concern");
    reveal_strlit("depends_on");
    assert("service"@[0] != "concern"@[0]);
    assert("service"@.len() != "depends_on"@.len());
    assert("concern"@.len() != "depends_on"@.len());
    assert(info_fields().dom() =~= set!["service"@, "concern"@, "depends_on"@]);
}

} // verus!
