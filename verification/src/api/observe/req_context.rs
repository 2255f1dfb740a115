//! The correlation identity that travels with one request.

use vstd::prelude::*;

use crate::text::opt_text;

verus! {

/// What a [`RequestContext`] holds, as plain text.
pub ghost struct ContextView {
    pub uri: Seq<char>,
    pub request_id: Seq<char>,
    pub trace_id: Option<Seq<char>>,
}

impl ContextView {
    /// The identity after the trace id `trace_id` was offered to it: it
    /// takes the trace id if it has none, and keeps its own if it has one.
    pub open spec fn with_trace(self, trace_id: Seq<char>) -> ContextView {
        ContextView {
            trace_id: match self.trace_id {
                Some(own) => Some(own),
                None => Some(trace_id),
            },
            ..self
        }
    }
}

impl ContextView {
    /// The identity after the trace id of the request's span was offered
    /// to it, where the request runs in a span that has one.
    pub open spec fn with_span(self, span_trace_id: Option<Seq<char>>) -> ContextView {
        match span_trace_id {
            Some(trace_id) => self.with_trace(trace_id),
            None => self,
        }
    }
}

/// Filling in the trace id is idempotent, and more: once a trace id is
/// there, offering any other changes nothing.
pub proof fn lemma_backfill_is_idempotent(context: ContextView, first: Seq<char>, second: Seq<char>)
    ensures
        context.with_trace(first).with_trace(first) == context.with_trace(first),
        context.with_trace(first).with_trace(second) == context.with_trace(first),
        context.with_trace(first).trace_id is Some,
        context.with_trace(first).request_id == context.request_id,
        context.with_trace(first).uri == context.uri,
{
}

/// Correlation identity of one request: where it went, under which request
/// id, and, once the request's span has been entered, under which trace.
///
/// The request id is never empty.
#[derive(Debug)]
pub struct RequestContext {
    uri: String,
    request_id: String,
    trace_id: Option<String>,
}

impl View for RequestContext {
    type V = ContextView;

    closed spec fn view(&self) -> ContextView {
        ContextView {
            uri: self.uri@,
            request_id: self.request_id@,
            trace_id: opt_text(self.trace_id),
        }
    }
}

impl RequestContext {
    #[verifier::type_invariant]
    spec fn identified(self) -> bool {
        self.request_id@.len() > 0
    }

    /// Assembles the context of a request from its path and query, its
    /// resolved request id and, where the span is already open, its trace
    /// id. There is no context without a request id: an empty one gives
    /// `None`.
    pub fn new(uri: String, request_id: String, trace_id: Option<String>) -> (r: Option<Self>)
        ensures
            r is Some <==> request_id@.len() > 0,
            r matches Some(c) ==> c@ == (ContextView {
                uri: uri@,
                request_id: request_id@,
                trace_id: opt_text(trace_id),
            }),
    {
        if request_id.as_str().is_empty() {
            None
        } else {
            Some(RequestContext { uri, request_id, trace_id })
        }
    }

    /// Path and query of the request, as received.
    pub fn uri(&self) -> (r: &str)
        ensures
            r@ == self@.uri,
    {
        self.uri.as_str()
    }

    /// The request id, which is never empty.
    pub fn request_id(&self) -> (r: &str)
        ensures
            r@ == self@.request_id,
            r@.len() > 0,
    {
        proof {
            use_type_invariant(self);
        }
        self.request_id.as_str()
    }

    /// The trace id, once it is known.
    pub fn trace_id(&self) -> (r: Option<&str>)
        ensures
            r is Some <==> self@.trace_id is Some,
            r matches Some(t) ==> Some(t@) == self@.trace_id,
    {
        match &self.trace_id {
            Some(t) => Some(t.as_str()),
            None => None,
        }
    }

    /// Takes the context apart: path and query, request id, trace id.
    pub fn into_parts(self) -> (r: (String, String, Option<String>))
        ensures
            r.0@ == self@.uri,
            r.1@ == self@.request_id,
            r.1@.len() > 0,
            opt_text(r.2) == self@.trace_id,
    {
        proof {
            use_type_invariant(&self);
        }
        let RequestContext { uri, request_id, trace_id } = self;
        (uri, request_id, trace_id)
    }

    /// Fills in the trace id of the span that the request now runs in. The
    /// first trace id stays: on a context that has one, nothing changes.
    pub fn backfill_trace_id(&mut self, trace_id: String)
        ensures
            final(self)@ == old(self)@.with_trace(trace_id@),
    {
        proof {
            use_type_invariant(&*self);
        }
        if self.trace_id.is_none() {
            self.trace_id = Some(trace_id);
        }
    }
}

} // verus!
