use ai_api::api::error::Error;
use ai_api::api::observe::RequestContext;
use ai_api::api::routes::healthz::check;
use ai_api::api::routes::v1::{hello_world, GREETING};
use ai_api::api::observe::metrics::{Outcome, RequestMetrics};
use ai_api::api::routes::{
    fault, not_found, sensitive_headers, stages, timed_out, Stage, FAULT_MESSAGE,
    NOT_FOUND_MESSAGE, REQUEST_TIMEOUT_SECS, TIMEOUT_MESSAGE,
};

fn context(uri: &str) -> RequestContext {
    RequestContext::new(uri.to_string(), "rid".to_string(), None).expect("a context")
}

#[test]
fn stages_outermost_first() {
    assert_eq!(
        stages(),
        vec![
            Stage::ScrubRequestHeaders,
            Stage::RequestId,
            Stage::Trace,
            Stage::ScrubResponseHeaders,
            Stage::Timeout,
            Stage::Metrics,
            Stage::Compression,
            Stage::Cors,
            Stage::Dispatch,
        ]
    );
}

#[test]
fn depth_is_the_place_in_the_pipeline() {
    for (i, stage) in stages().iter().enumerate() {
        assert_eq!(stage.depth() as usize, i);
    }
}

#[test]
fn wraps_follows_the_order() {
    let all = stages();
    for (i, outer) in all.iter().enumerate() {
        for (j, inner) in all.iter().enumerate() {
            assert_eq!(outer.wraps(inner), i < j);
        }
    }
    assert!(Stage::ScrubRequestHeaders.wraps(&Stage::Trace));
    assert!(Stage::Trace.wraps(&Stage::ScrubResponseHeaders));
    assert!(Stage::RequestId.wraps(&Stage::Trace));
    assert!(Stage::Timeout.wraps(&Stage::Metrics));
    assert!(!Stage::Dispatch.wraps(&Stage::Cors));
    assert!(!Stage::Trace.wraps(&Stage::Trace));
}

#[test]
fn sensitive_header_names() {
    assert_eq!(sensitive_headers(), vec!["authorization", "cookie"]);
}

#[test]
fn time_limit() {
    assert_eq!(REQUEST_TIMEOUT_SECS, 10);
}

#[test]
fn healthz_answers_200_with_code_zero() {
    let reply = check(context("/healthz"), Some("0af7651916cd43dd8448eb211c80319c".to_string()))
        .into_reply();
    assert_eq!(reply.status, 200);
    let e = reply.envelope;
    assert_eq!(e.code(), 0);
    assert_eq!(e.data(), Some(&()));
    assert_eq!(e.error_message(), None);
    assert_eq!(e.context().uri(), "/healthz");
    assert_eq!(e.context().request_id(), "rid");
    assert_eq!(e.context().trace_id(), Some("0af7651916cd43dd8448eb211c80319c"));
}

#[test]
fn healthz_keeps_a_trace_id_that_is_there() {
    let c = RequestContext::new("/healthz".to_string(), "rid".to_string(), Some("t0".to_string()))
        .expect("a context");
    let r = check(c, Some("t1".to_string()));
    assert_eq!(r.context().trace_id(), Some("t0"));
    let c = RequestContext::new("/healthz".to_string(), "rid".to_string(), Some("t0".to_string()))
        .expect("a context");
    assert_eq!(check(c, None).context().trace_id(), Some("t0"));
}

#[test]
fn healthz_outside_a_trace_shows_no_trace_id() {
    let reply = check(context("/healthz"), None).into_reply();
    assert_eq!(reply.status, 200);
    assert_eq!(reply.envelope.code(), 0);
    assert_eq!(reply.envelope.data(), Some(&()));
    assert_eq!(reply.envelope.context().trace_id(), None);
    assert_eq!(reply.envelope.context().request_id(), "rid");
}

#[test]
fn hello_world_greets() {
    let reply = hello_world(context("/api/v1/hello")).into_reply();
    assert_eq!(reply.status, 200);
    let e = reply.envelope;
    assert_eq!(e.code(), 0);
    assert_eq!(e.data(), Some(&"Hello, World!"));
    assert_eq!(e.data(), Some(&GREETING));
    assert_eq!(e.context().uri(), "/api/v1/hello");
}

#[test]
fn unrouted_request_is_answered_404() {
    let failure = not_found(context("/no/such/route")).expect_err("no route, no answer");
    assert!(matches!(failure.kind(), Error::NotFound(m) if m == "not found"));
    assert_eq!(NOT_FOUND_MESSAGE, "not found");
    let reply = failure.into_reply();
    assert_eq!(reply.status, 404);
    let e = reply.envelope;
    assert_eq!(e.code(), 404);
    assert_eq!(e.error_message(), Some("not found"));
    assert_eq!(e.data(), None);
    assert_eq!(e.context().uri(), "/no/such/route");
    assert_eq!(e.context().request_id(), "rid");
}

#[test]
fn broken_handler_is_answered_500() {
    let failure = fault(context("/api/v1/hello"));
    assert!(matches!(failure.kind(), Error::Internal(m) if m == "internal server error"));
    assert_eq!(FAULT_MESSAGE, "internal server error");
    let reply = failure.into_reply();
    assert_eq!(reply.status, 500);
    assert_eq!(reply.envelope.code(), 500);
    assert_eq!(reply.envelope.error_message(), Some("internal server error"));
    assert_eq!(reply.envelope.data(), None);
    assert_eq!(reply.envelope.context().request_id(), "rid");
}

#[test]
fn request_over_the_time_limit_is_answered_408() {
    let reply = timed_out(context("/slow"));
    assert_eq!(reply.status, 408);
    assert_eq!(reply.envelope.code(), 408);
    assert_eq!(reply.envelope.error_message(), Some("request timed out"));
    assert_eq!(TIMEOUT_MESSAGE, "request timed out");
    assert_eq!(reply.envelope.data(), None);
    assert_eq!(reply.envelope.context().uri(), "/slow");
    assert_eq!(reply.envelope.context().request_id(), "rid");
}

#[test]
fn request_over_the_time_limit_is_answered_and_observed_once() {
    let mut record = RequestMetrics::begin("GET", Some("/slow"), "/slow");
    let reply = timed_out(context("/slow"));
    let first = record.complete(Outcome::TimedOut).expect("the observation");
    assert_eq!(first.status, reply.status.to_string());
    assert!(Outcome::TimedOut.is_failure());
    // The handler answering late changes nothing.
    assert!(record.complete(Outcome::Responded(200)).is_none());
    assert!(record.is_recorded());
}
