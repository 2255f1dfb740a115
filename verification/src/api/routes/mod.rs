//! The order of the stages around a handler, and the handlers' decisions.

use vstd::prelude::*;
use vstd::string::StringExecFns;

use super::error::{ApiError, Error};
use super::observe::RequestContext;
use super::resp::{error_envelope, ApiResponse, Reply, STATUS_TIMED_OUT};
use crate::text::str_texts;

pub mod healthz;
pub mod v1;

verus! {

/// What the handlers share. There is nothing yet.
#[derive(Clone, Copy, Debug)]
pub struct AppState {}

/// How long a request may take, in seconds, before it is cut off.
pub const REQUEST_TIMEOUT_SECS: u64 = 10;

/// The message of the reply to a request that no route matched.
pub const NOT_FOUND_MESSAGE: &'static str = "not found";

/// The message of the reply to a request whose handler broke down.
pub const FAULT_MESSAGE: &'static str = "internal server error";

/// The message of the reply to a request that ran into the time limit.
pub const TIMEOUT_MESSAGE: &'static str = "request timed out";

/// The stages that a request passes on its way in and its response on its
/// way out.
#[derive(Clone, Copy, Debug, PartialEq, Eq, Structural)]
pub enum Stage {
    /// Marks the sensitive headers of the request.
    ScrubRequestHeaders,
    /// Gives the request its id and echoes it on the response.
    RequestId,
    /// Opens the request's span and logs request and response.
    Trace,
    /// Marks the sensitive headers of the response.
    ScrubResponseHeaders,
    /// Cuts the request off at the time limit.
    Timeout,
    /// Counts and times the request.
    Metrics,
    /// Compresses the response body.
    Compression,
    /// Adds the cross-origin headers.
    Cors,
    /// Hands the request to the route that matches, or to the fallback.
    Dispatch,
}

impl Stage {
    /// How many stages stand around this one.
    pub open spec fn spec_depth(self) -> int {
        match self {
            Stage::ScrubRequestHeaders => 0,
            Stage::RequestId => 1,
            Stage::Trace => 2,
            Stage::ScrubResponseHeaders => 3,
            Stage::Timeout => 4,
            Stage::Metrics => 5,
            Stage::Compression => 6,
            Stage::Cors => 7,
            Stage::Dispatch => 8,
        }
    }

    /// How many stages stand around this one.
    pub fn depth(&self) -> (r: u8)
        ensures
            r == self.spec_depth(),
    {
        match self {
            Stage::ScrubRequestHeaders => 0,
            Stage::RequestId => 1,
            Stage::Trace => 2,
            Stage::ScrubResponseHeaders => 3,
            Stage::Timeout => 4,
            Stage::Metrics => 5,
            Stage::Compression => 6,
            Stage::Cors => 7,
            Stage::Dispatch => 8,
        }
    }

    /// Whether this stage stands around `inner`: it sees the request before
    /// `inner` does and the response after.
    pub fn wraps(&self, inner: &Stage) -> (r: bool)
        ensures
            r == (self.spec_depth() < inner.spec_depth()),
    {
        self.depth() < inner.depth()
    }
}

/// The stages from the outermost to the innermost.
pub open spec fn pipeline() -> Seq<Stage> {
    seq![
        Stage::ScrubRequestHeaders,
        Stage::RequestId,
        Stage::Trace,
        Stage::ScrubResponseHeaders,
        Stage::Timeout,
        Stage::Metrics,
        Stage::Compression,
        Stage::Cors,
        Stage::Dispatch,
    ]
}

/// The stages in the order in which they wrap each other, the outermost
/// first.
pub fn stages() -> (r: Vec<Stage>)
    ensures
        r@ == pipeline(),
{
    let r: Vec<Stage> = vec![
        Stage::ScrubRequestHeaders,
        Stage::RequestId,
        Stage::Trace,
        Stage::ScrubResponseHeaders,
        Stage::Timeout,
        Stage::Metrics,
        Stage::Compression,
        Stage::Cors,
        Stage::Dispatch,
    ];
    assert(r@ =~= pipeline());
    r
}

/// Every stage stands in the pipeline once, at its depth.
pub proof fn lemma_pipeline_holds_each_stage_once(stage: Stage)
    ensures
        0 <= stage.spec_depth() < pipeline().len(),
        pipeline()[stage.spec_depth()] == stage,
        forall|i: int| 0 <= i < pipeline().len() && pipeline()[i] == stage ==> i == stage.spec_depth(),
{
}

/// The span and the logs of a request are written between the two stages
/// that mark sensitive headers: the trace stage gets the request after its
/// headers were marked, and the response after its headers were.
pub proof fn lemma_trace_sees_marked_headers()
    ensures
        Stage::ScrubRequestHeaders.spec_depth() < Stage::Trace.spec_depth(),
        Stage::Trace.spec_depth() < Stage::ScrubResponseHeaders.spec_depth(),
{
}

/// The request has its id before its span is opened, and it is counted
/// inside the time limit, which stands inside the span.
pub proof fn lemma_identity_before_span_before_limit()
    ensures
        Stage::RequestId.spec_depth() < Stage::Trace.spec_depth(),
        Stage::Trace.spec_depth() < Stage::Timeout.spec_depth(),
        Stage::Timeout.spec_depth() < Stage::Metrics.spec_depth(),
        Stage::Metrics.spec_depth() < Stage::Dispatch.spec_depth(),
{
}

/// The names of the headers whose values are kept out of spans and logs.
pub open spec fn sensitive_header_names() -> Seq<Seq<char>> {
    seq!["authorization"@, "cookie"@]
}

/// The headers whose values are kept out of spans and logs, by their
/// lower-case names.
pub fn sensitive_headers() -> (r: Vec<&'static str>)
    ensures
        str_texts(r@) == sensitive_header_names(),
{
    let mut r: Vec<&'static str> = Vec::new();
    r.push("authorization");
    r.push("cookie");
    assert(str_texts(r@) =~= sensitive_header_names());
    r
}

/// Answers a request that no route matched: a `NotFound` failure, bound to
/// the request.
pub fn not_found(context: RequestContext) -> (r: Result<(), ApiError>)
    ensures
        r matches Err(e) && e.spec_context() == context && (e.spec_kind() matches Error::NotFound(
            m,
        ) && m@ == NOT_FOUND_MESSAGE@),
{
    Err(ApiError::new(Error::NotFound(String::from_str(NOT_FOUND_MESSAGE)), context))
}

/// Answers a request whose handler broke down instead of answering: an
/// `Internal` failure, bound to the request.
pub fn fault(context: RequestContext) -> (r: ApiError)
    ensures
        r.spec_context() == context,
        r.spec_kind() matches Error::Internal(m) && m@ == FAULT_MESSAGE@,
{
    ApiError::new(Error::Internal(String::from_str(FAULT_MESSAGE)), context)
}

/// Answers a request that ran into the time limit. Running out of time is
/// no failure of one of the kinds: it has a status of its own, which the
/// envelope mirrors as its code, under the request's correlation identity.
pub fn timed_out(context: RequestContext) -> (r: Reply<()>)
    ensures
        r.status == STATUS_TIMED_OUT,
        r.envelope@ == error_envelope::<()>(context@, STATUS_TIMED_OUT as int, TIMEOUT_MESSAGE@),
{
    Reply {
        status: STATUS_TIMED_OUT,
        envelope: ApiResponse::error(
            context,
            STATUS_TIMED_OUT as i32,
            String::from_str(TIMEOUT_MESSAGE),
        ),
    }
}

} // verus!
