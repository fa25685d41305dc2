use srvcs_percentageof::reply::{MALFORMED, UNAVAILABLE};
use srvcs_percentageof::{
    ask, degraded, forward, forwarded_status, malformed, ok, Dependency, DependencyCall,
    DependencyReply, Deps, EvalRequest, Evaluation, FloatBits, JsonNumber, PercentageOfResponse,
    Reply, ReplyBody, Step,
};

fn deps() -> Deps {
    Deps {
        floatdivide_url: "http://d".to_string(),
        floatmultiply_url: "http://m".to_string(),
    }
}

fn request() -> EvalRequest {
    EvalRequest { percent: FloatBits(20.0f64.to_bits()), whole: FloatBits(50.0f64.to_bits()) }
}

fn answered(status: u16, body: &str) -> DependencyReply {
    DependencyReply::Answered { status, body: body.as_bytes().to_vec() }
}

fn after_divide(reply: DependencyReply) -> Step {
    let (state, _) = Evaluation::begin(request(), &deps());
    state.advance(reply)
}

fn awaiting_product() -> Evaluation {
    Evaluation::AwaitingProduct { request: request() }
}

#[test]
fn begin_calls_floatdivide_with_percent_and_hundred() {
    let (state, call) = Evaluation::begin(request(), &deps());
    assert_eq!(
        call,
        DependencyCall {
            dependency: Dependency::FloatDivide,
            url: "http://d".to_string(),
            a: JsonNumber::Float(request().percent),
            b: JsonNumber::Integer(100),
        }
    );
    assert_eq!(
        state,
        Evaluation::AwaitingQuotient { request: request(), floatmultiply_url: "http://m".to_string() }
    );
}

#[test]
fn quotient_goes_to_floatmultiply_with_whole() {
    let step = after_divide(answered(200, "{\"result\": 0.2}"));
    let expected_call = DependencyCall {
        dependency: Dependency::FloatMultiply,
        url: "http://m".to_string(),
        a: JsonNumber::Float(FloatBits(0.2f64.to_bits())),
        b: JsonNumber::Float(request().whole),
    };
    assert_eq!(step, Step::Call(awaiting_product(), expected_call));
}

#[test]
fn integer_result_is_read_as_a_float() {
    let step = awaiting_product().advance(answered(200, "{\"result\": 10, \"extra\": true}"));
    let expected = ok(request().percent, request().whole, FloatBits(10.0f64.to_bits()));
    assert_eq!(step, Step::Respond(expected));
}

#[test]
fn product_is_the_evaluated_result() {
    let step = awaiting_product().advance(answered(200, "{\"result\": -5.5}"));
    assert_eq!(
        step,
        Step::Respond(Reply {
            status: 200,
            body: ReplyBody::Evaluated(PercentageOfResponse {
                percent: request().percent,
                whole: request().whole,
                result: FloatBits((-5.5f64).to_bits()),
            }),
        })
    );
}

#[test]
fn rejection_is_forwarded_verbatim() {
    let body = "{\"error\": \"value is not a number\"}";
    for step in [
        after_divide(answered(422, body)),
        awaiting_product().advance(answered(422, body)),
    ] {
        assert_eq!(
            step,
            Step::Respond(Reply { status: 422, body: ReplyBody::Forwarded(body.as_bytes().to_vec()) })
        );
    }
}

#[test]
fn other_statuses_degrade() {
    for status in [0u16, 201, 204, 301, 400, 404, 418, 421, 423, 500, 502, 503, 999, 1000, u16::MAX] {
        let step = after_divide(answered(status, "{\"result\": 1.0}"));
        assert_eq!(step, Step::Respond(degraded(Dependency::FloatDivide)));
        let step = awaiting_product().advance(answered(status, "{\"result\": 1.0}"));
        assert_eq!(step, Step::Respond(degraded(Dependency::FloatMultiply)));
    }
}

#[test]
fn unreachable_degrades_naming_the_dependency() {
    let reply = degraded(Dependency::FloatMultiply);
    assert_eq!(reply.status, 503);
    assert_eq!(
        reply.body,
        ReplyBody::DependencyError { error: UNAVAILABLE, dependency: Dependency::FloatMultiply }
    );
    assert_eq!(UNAVAILABLE, "dependency unavailable");
    assert_eq!(
        awaiting_product().advance(DependencyReply::Unreachable),
        Step::Respond(reply)
    );
}

#[test]
fn missing_or_non_numeric_result_is_malformed() {
    for body in ["{\"result\": \"not-a-number\"}", "{}", "[1, 2]", "not json", "", "{\"result\": null}", "{\"Result\": 1}"] {
        assert_eq!(after_divide(answered(200, body)), Step::Respond(malformed(Dependency::FloatDivide)));
    }
    let reply = malformed(Dependency::FloatDivide);
    assert_eq!(reply.status, 500);
    assert_eq!(MALFORMED, "dependency returned a malformed result");
}

#[test]
fn every_reply_has_a_documented_status() {
    let replies = [
        answered(200, "{\"result\": 1}"),
        answered(200, "{}"),
        answered(422, "{}"),
        answered(404, "{}"),
        DependencyReply::Unreachable,
    ];
    for reply in replies {
        if let Step::Respond(r) = awaiting_product().advance(reply) {
            assert!([200, 422, 500, 503].contains(&r.status));
        } else {
            panic!("after the multiply service the evaluation replies");
        }
    }
}

#[test]
fn ask_takes_the_body_of_a_200() {
    let taken = ask(answered(200, "anything"), Dependency::FloatDivide);
    assert_eq!(taken, Ok(b"anything".to_vec()));
    let taken = ask(answered(422, "no"), Dependency::FloatDivide);
    assert_eq!(taken, Err(forward(422, b"no".to_vec())));
}

#[test]
fn forwarded_status_keeps_valid_codes() {
    assert_eq!(forwarded_status(100), 100);
    assert_eq!(forwarded_status(422), 422);
    assert_eq!(forwarded_status(999), 999);
    assert_eq!(forwarded_status(99), 502);
    assert_eq!(forwarded_status(0), 502);
    assert_eq!(forwarded_status(1000), 502);
    assert_eq!(forward(7, vec![1]).status, 502);
}

#[test]
fn dependency_names() {
    assert_eq!(Dependency::FloatDivide.name(), "srvcs-floatdivide");
    assert_eq!(Dependency::FloatMultiply.name(), "srvcs-floatmultiply");
}
