use srvcs_percentageof::{
    ask, Dependency, DependencyCall, DependencyReply, Deps, EvalRequest,
    Evaluation, FloatBits, JsonNumber, Reply, ReplyBody, Step,
};

const DIVIDE_URL: &str = "http://divide.test";
const MULTIPLY_URL: &str = "http://multiply.test";

fn deps() -> Deps {
    Deps {
        floatdivide_url: DIVIDE_URL.to_string(),
        floatmultiply_url: MULTIPLY_URL.to_string(),
    }
}

fn bits(x: f64) -> FloatBits {
    FloatBits(x.to_bits())
}

fn value(n: JsonNumber) -> f64 {
    match n {
        JsonNumber::Integer(i) => i as f64,
        JsonNumber::Float(b) => f64::from_bits(b.0),
    }
}

fn answered(status: u16, body: &str) -> DependencyReply {
    DependencyReply::Answered { status, body: body.as_bytes().to_vec() }
}

/// A computing dependency: answers `{"result": a / b}`.
fn floatdivide(call: &DependencyCall) -> DependencyReply {
    assert_eq!(call.dependency, Dependency::FloatDivide);
    assert_eq!(call.url, DIVIDE_URL);
    answered(200, &format!("{{\"result\": {:?}}}", value(call.a) / value(call.b)))
}

/// A computing dependency: answers `{"result": a * b}`.
fn floatmultiply(call: &DependencyCall) -> DependencyReply {
    assert_eq!(call.dependency, Dependency::FloatMultiply);
    assert_eq!(call.url, MULTIPLY_URL);
    answered(200, &format!("{{\"result\": {:?}}}", value(call.a) * value(call.b)))
}

fn dead(_call: &DependencyCall) -> DependencyReply {
    DependencyReply::Unreachable
}

fn rejecting(_call: &DependencyCall) -> DependencyReply {
    answered(422, "{\"error\": \"value is not a number\"}")
}

fn not_a_number(_call: &DependencyCall) -> DependencyReply {
    answered(200, "{\"result\": \"not-a-number\"}")
}

/// Runs an evaluation to its reply, answering each call with the given
/// dependency; returns the reply and how many calls were made.
fn percentageof(
    divide: fn(&DependencyCall) -> DependencyReply,
    multiply: fn(&DependencyCall) -> DependencyReply,
    percent: f64,
    whole: f64,
) -> (Reply, usize) {
    let request = EvalRequest { percent: bits(percent), whole: bits(whole) };
    let (mut state, mut call) = Evaluation::begin(request, &deps());
    let mut calls = 0;
    loop {
        calls += 1;
        assert!(calls <= 2, "an evaluation makes at most two calls");
        let reply = match call.dependency {
            Dependency::FloatDivide => divide(&call),
            Dependency::FloatMultiply => multiply(&call),
        };
        match state.advance(reply) {
            Step::Call(next, next_call) => {
                state = next;
                call = next_call;
            }
            Step::Respond(reply) => return (reply, calls),
        }
    }
}

fn approx(got: f64, expected: f64) {
    assert!((got - expected).abs() < 1e-9, "expected {expected}, got {got}");
}

fn evaluated(reply: &Reply) -> (f64, f64, f64) {
    match &reply.body {
        ReplyBody::Evaluated(r) => (
            f64::from_bits(r.percent.0),
            f64::from_bits(r.whole.0),
            f64::from_bits(r.result.0),
        ),
        other => panic!("not evaluated: {other:?}"),
    }
}

fn failing_dependency(reply: &Reply) -> &'static str {
    match &reply.body {
        ReplyBody::DependencyError { dependency, .. } => dependency.name(),
        other => panic!("not a dependency error: {other:?}"),
    }
}

// --- Correctness cases, against the computing dependencies. ---

#[test]
fn percentageof_20_of_50_is_10() {
    let (reply, _) = percentageof(floatdivide, floatmultiply, 20.0, 50.0);
    assert_eq!(reply.status, 200);
    let (percent, whole, result) = evaluated(&reply);
    approx(percent, 20.0);
    approx(whole, 50.0);
    // floatdivide(20,100)=0.2; floatmultiply(0.2,50)=10.0
    approx(result, 10.0);
}

#[test]
fn percentageof_50_of_200_is_100() {
    let (reply, _) = percentageof(floatdivide, floatmultiply, 50.0, 200.0);
    assert_eq!(reply.status, 200);
    // 0.5 * 200 = 100
    approx(evaluated(&reply).2, 100.0);
}

#[test]
fn percentageof_fractional_result() {
    let (reply, _) = percentageof(floatdivide, floatmultiply, 12.5, 80.0);
    assert_eq!(reply.status, 200);
    // 0.125 * 80 = 10.0
    approx(evaluated(&reply).2, 10.0);
}

#[test]
fn percentageof_fractional_percent_and_whole() {
    let (reply, _) = percentageof(floatdivide, floatmultiply, 33.0, 12.0);
    assert_eq!(reply.status, 200);
    // 0.33 * 12 = 3.96
    approx(evaluated(&reply).2, 3.96);
}

#[test]
fn percentageof_zero_percent_is_zero() {
    let (reply, _) = percentageof(floatdivide, floatmultiply, 0.0, 999.0);
    assert_eq!(reply.status, 200);
    approx(evaluated(&reply).2, 0.0);
}

#[test]
fn percentageof_negative_percent() {
    let (reply, _) = percentageof(floatdivide, floatmultiply, -10.0, 50.0);
    assert_eq!(reply.status, 200);
    // -0.1 * 50 = -5.0
    approx(evaluated(&reply).2, -5.0);
}

// --- Error / degraded paths. ---

#[test]
fn degrades_when_floatdivide_unreachable() {
    let (reply, _) = percentageof(dead, floatmultiply, 20.0, 50.0);
    assert_eq!(reply.status, 503);
    assert_eq!(failing_dependency(&reply), "srvcs-floatdivide");
}

#[test]
fn degrades_when_floatmultiply_unreachable() {
    // floatdivide reachable, so the pipeline reaches the multiply call.
    let (reply, _) = percentageof(floatdivide, dead, 20.0, 50.0);
    assert_eq!(reply.status, 503);
    assert_eq!(failing_dependency(&reply), "srvcs-floatmultiply");
}

#[test]
fn forwards_422_from_floatdivide() {
    let (reply, _) = percentageof(rejecting, floatmultiply, 20.0, 50.0);
    assert_eq!(reply.status, 422);
}

#[test]
fn forwards_422_from_floatmultiply() {
    let (reply, _) = percentageof(floatdivide, rejecting, 20.0, 50.0);
    assert_eq!(reply.status, 422);
}

#[test]
fn malformed_floatdivide_result_is_500() {
    // floatdivide answers 200 but with no numeric result -> contract violation.
    let (reply, _) = percentageof(not_a_number, floatmultiply, 20.0, 50.0);
    assert_eq!(reply.status, 500);
    assert_eq!(failing_dependency(&reply), "srvcs-floatdivide");
}

#[test]
fn malformed_floatmultiply_result_is_500() {
    let (reply, _) = percentageof(floatdivide, not_a_number, 20.0, 50.0);
    assert_eq!(reply.status, 500);
    assert_eq!(failing_dependency(&reply), "srvcs-floatmultiply");
}
