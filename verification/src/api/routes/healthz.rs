//! The health check.

use vstd::prelude::*;

use crate::api::observe::RequestContext;
use crate::api::resp::{success_envelope, ApiResponse};
use crate::text::opt_text;

verus! {

/// Answers the health check: an empty success. Where the request runs in a
/// span that belongs to a trace, `span_trace_id` is that trace's id, and the
/// correlation identity gets it unless the context came with one. Where it
/// does not, the identity stays as it came: there is no trace id to show.
pub fn check(context: RequestContext, span_trace_id: Option<String>) -> (r: ApiResponse<()>)
    ensures
        r@ == success_envelope(context@.with_span(opt_text(span_trace_id)), ()),
        span_trace_id is Some ==> r@.context.trace_id is Some,
{
    let mut context = context;
    match span_trace_id {
        Some(trace_id) => {
            context.backfill_trace_id(trace_id);
        },
        None => {},
    }
    ApiResponse::success(context, ())
}

} // verus!
