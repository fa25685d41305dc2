use vstd::prelude::*;

use crate::dependency::Dependency;
use crate::json::{json_number_member, number_member};
use crate::number::{FloatBits, JsonNumber};
use crate::reply::{
    degraded, evaluated_reply, forward, forwarded_reply, malformed, malformed_reply, ok,
    unavailable_reply, Reply, ReplyView, OK, UNPROCESSABLE,
};

verus! {

/// Member of a dependency's answer that holds the number it computed.
pub const RESULT_MEMBER: &'static str = "result";

/// The divisor that turns a percentage into a fraction.
pub const HUNDRED: u64 = 100;

/// Where the two dependencies are reached.
#[derive(Clone, Debug, PartialEq, Eq)]
pub struct Deps {
    pub floatdivide_url: String,
    pub floatmultiply_url: String,
}

/// A request to compute `percent% of whole`.
#[derive(Clone, Copy, Debug, PartialEq, Eq, Structural)]
pub struct EvalRequest {
    pub percent: FloatBits,
    pub whole: FloatBits,
}

/// What came back from one call of a dependency.
#[derive(Clone, Debug, PartialEq, Eq)]
pub enum DependencyReply {
    /// The dependency could not be reached.
    Unreachable,
    /// The dependency answered with this status and body.
    Answered { status: u16, body: Vec<u8> },
}

/// Mathematical model of a [`DependencyReply`].
#[verifier::ext_equal]
pub enum DependencyReplyView {
    Unreachable,
    Answered { status: u16, body: Seq<u8> },
}

impl View for DependencyReply {
    type V = DependencyReplyView;

    open spec fn view(&self) -> DependencyReplyView {
        match self {
            DependencyReply::Unreachable => DependencyReplyView::Unreachable,
            DependencyReply::Answered { status, body } => DependencyReplyView::Answered {
                status: *status,
                body: body@,
            },
        }
    }
}

/// A call to make: post `{"a": a, "b": b}` to `url`, where `dependency` listens.
#[derive(Clone, Debug, PartialEq, Eq)]
pub struct DependencyCall {
    pub dependency: Dependency,
    pub url: String,
    pub a: JsonNumber,
    pub b: JsonNumber,
}

/// Mathematical model of a [`DependencyCall`].
#[verifier::ext_equal]
pub struct CallView {
    pub dependency: Dependency,
    pub url: Seq<char>,
    pub a: JsonNumber,
    pub b: JsonNumber,
}

impl View for DependencyCall {
    type V = CallView;

    open spec fn view(&self) -> CallView {
        CallView { dependency: self.dependency, url: self.url@, a: self.a, b: self.b }
    }
}

/// An evaluation in progress: which answer it waits for, and what it still
/// needs to finish.
#[derive(Clone, Debug, PartialEq, Eq)]
pub enum Evaluation {
    /// Waiting for `percent / 100` from the divide service.
    AwaitingQuotient { request: EvalRequest, floatmultiply_url: String },
    /// Waiting for `quotient * whole` from the multiply service.
    AwaitingProduct { request: EvalRequest },
}

/// Mathematical model of an [`Evaluation`].
#[verifier::ext_equal]
pub enum EvaluationView {
    AwaitingQuotient { request: EvalRequest, floatmultiply_url: Seq<char> },
    AwaitingProduct { request: EvalRequest },
}

impl View for Evaluation {
    type V = EvaluationView;

    open spec fn view(&self) -> EvaluationView {
        match self {
            Evaluation::AwaitingQuotient { request, floatmultiply_url } => {
                EvaluationView::AwaitingQuotient {
                    request: *request,
                    floatmultiply_url: floatmultiply_url@,
                }
            },
            Evaluation::AwaitingProduct { request } => EvaluationView::AwaitingProduct {
                request: *request,
            },
        }
    }
}

impl EvaluationView {
    /// The dependency whose answer the evaluation waits for.
    pub open spec fn awaiting(self) -> Dependency {
        match self {
            EvaluationView::AwaitingQuotient { .. } => Dependency::FloatDivide,
            EvaluationView::AwaitingProduct { .. } => Dependency::FloatMultiply,
        }
    }

    /// The request being evaluated.
    pub open spec fn request(self) -> EvalRequest {
        match self {
            EvaluationView::AwaitingQuotient { request, .. } => request,
            EvaluationView::AwaitingProduct { request } => request,
        }
    }
}

/// What to do next: call a dependency and go on in a new state, or reply.
#[derive(Clone, Debug, PartialEq, Eq)]
pub enum Step {
    Call(Evaluation, DependencyCall),
    Respond(Reply),
}

/// Mathematical model of a [`Step`].
#[verifier::ext_equal]
pub enum StepView {
    Call(EvaluationView, CallView),
    Respond(ReplyView),
}

impl View for Step {
    type V = StepView;

    open spec fn view(&self) -> StepView {
        match self {
            Step::Call(state, call) => StepView::Call(state@, call@),
            Step::Respond(reply) => StepView::Respond(reply@),
        }
    }
}

/// The state an evaluation of `request` starts in.
pub open spec fn start_state(request: EvalRequest, floatmultiply_url: Seq<char>) -> EvaluationView {
    EvaluationView::AwaitingQuotient { request, floatmultiply_url }
}

/// The first call: `floatdivide(percent, 100)`.
pub open spec fn divide_call(request: EvalRequest, floatdivide_url: Seq<char>) -> CallView {
    CallView {
        dependency: Dependency::FloatDivide,
        url: floatdivide_url,
        a: JsonNumber::Float(request.percent),
        b: JsonNumber::Integer(HUNDRED),
    }
}

/// The second call: `floatmultiply(quotient, whole)`.
pub open spec fn multiply_call(
    quotient: FloatBits,
    request: EvalRequest,
    floatmultiply_url: Seq<char>,
) -> CallView {
    CallView {
        dependency: Dependency::FloatMultiply,
        url: floatmultiply_url,
        a: JsonNumber::Float(quotient),
        b: JsonNumber::Float(request.whole),
    }
}

/// How the answer of `dependency` is taken: the body of a `200` to read on,
/// or the reply to give at once.
pub open spec fn spec_ask(reply: DependencyReplyView, dependency: Dependency) -> Result<Seq<u8>, ReplyView> {
    match reply {
        DependencyReplyView::Unreachable => Err(unavailable_reply(dependency)),
        DependencyReplyView::Answered { status, body } => {
            if status == OK {
                Ok(body)
            } else if status == UNPROCESSABLE {
                Err(forwarded_reply(UNPROCESSABLE, body))
            } else {
                Err(unavailable_reply(dependency))
            }
        },
    }
}

/// The step that follows once the awaited answer's `result` has been read.
pub open spec fn after_result(state: EvaluationView, number: Option<FloatBits>) -> StepView {
    match number {
        None => StepView::Respond(malformed_reply(state.awaiting())),
        Some(n) => match state {
            EvaluationView::AwaitingQuotient { request, floatmultiply_url } => StepView::Call(
                EvaluationView::AwaitingProduct { request },
                multiply_call(n, request, floatmultiply_url),
            ),
            EvaluationView::AwaitingProduct { request } => StepView::Respond(
                evaluated_reply(request.percent, request.whole, n),
            ),
        },
    }
}

/// The step that follows the awaited dependency's reply.
pub open spec fn after_reply(state: EvaluationView, reply: DependencyReplyView) -> StepView {
    match spec_ask(reply, state.awaiting()) {
        Err(r) => StepView::Respond(r),
        Ok(body) => after_result(state, json_number_member(body, RESULT_MEMBER@)),
    }
}

/// Takes the answer of one dependency call:
///
/// - unreachable, or any status but `200` and `422`: `503`, `dependency` degraded;
/// - `422`: the dependency rejected the input; its reply is forwarded;
/// - `200`: the body, to be read on.
pub fn ask(reply: DependencyReply, dependency: Dependency) -> (taken: Result<Vec<u8>, Reply>)
    ensures
        match taken {
            Ok(body) => spec_ask(reply@, dependency) == Ok::<Seq<u8>, ReplyView>(body@),
            Err(r) => spec_ask(reply@, dependency) == Err::<Seq<u8>, ReplyView>(r@),
        },
{
    match reply {
        DependencyReply::Unreachable => Err(degraded(dependency)),
        DependencyReply::Answered { status, body } => {
            if status == OK {
                Ok(body)
            } else if status == UNPROCESSABLE {
                Err(forward(UNPROCESSABLE, body))
            } else {
                Err(degraded(dependency))
            }
        },
    }
}

impl Evaluation {
    /// Starts evaluating `percent% of whole`. The service validates nothing
    /// itself: every request leads to the call `floatdivide(percent, 100)`.
    pub fn begin(request: EvalRequest, deps: &Deps) -> (started: (Evaluation, DependencyCall))
        ensures
            started.0@ == start_state(request, deps.floatmultiply_url@),
            started.1@ == divide_call(request, deps.floatdivide_url@),
    {
        let state = Evaluation::AwaitingQuotient {
            request,
            floatmultiply_url: deps.floatmultiply_url.clone(),
        };
        let call = DependencyCall {
            dependency: Dependency::FloatDivide,
            url: deps.floatdivide_url.clone(),
            a: JsonNumber::Float(request.percent),
            b: JsonNumber::Integer(HUNDRED),
        };
        (state, call)
    }

    /// The dependency whose answer this evaluation waits for.
    pub fn awaiting(&self) -> (dependency: Dependency)
        ensures
            dependency == self@.awaiting(),
            self@ is AwaitingQuotient ==> dependency == Dependency::FloatDivide,
            self@ is AwaitingProduct ==> dependency == Dependency::FloatMultiply,
    {
        match self {
            Evaluation::AwaitingQuotient { .. } => Dependency::FloatDivide,
            Evaluation::AwaitingProduct { .. } => Dependency::FloatMultiply,
        }
    }

    /// Goes on from the number read out of the awaited answer (`None` where
    /// the answer had no numeric `result`).
    pub fn advance_with_result(self, number: Option<FloatBits>) -> (step: Step)
        ensures
            step@ == after_result(self@, number),
    {
        match number {
            None => {
                let dependency = self.awaiting();
                Step::Respond(malformed(dependency))
            },
            Some(n) => match self {
                Evaluation::AwaitingQuotient { request, floatmultiply_url } => {
                    let call = DependencyCall {
                        dependency: Dependency::FloatMultiply,
                        url: floatmultiply_url,
                        a: JsonNumber::Float(n),
                        b: JsonNumber::Float(request.whole),
                    };
                    Step::Call(Evaluation::AwaitingProduct { request }, call)
                },
                Evaluation::AwaitingProduct { request } => {
                    Step::Respond(ok(request.percent, request.whole, n))
                },
            },
        }
    }

    /// Goes on from the reply of the awaited dependency.
    pub fn advance(self, reply: DependencyReply) -> (step: Step)
        ensures
            step@ == after_reply(self@, reply@),
    {
        let dependency = self.awaiting();
        match ask(reply, dependency) {
            Err(r) => Step::Respond(r),
            Ok(body) => {
                let number = number_member(body.as_slice(), RESULT_MEMBER);
                self.advance_with_result(number)
            },
        }
    }
}

} // verus!
