//! What the span and log pipeline is set up with.

use std::time::Duration;

use vstd::prelude::*;
use vstd::string::StringExecFns;

use super::req_id::{is_request_id, is_uuid_v4_text, MakeRequestUuid};
use crate::settings::{Otlp, Settings};
use crate::text::{pair_texts, str_texts};

verus! {

/// The name under which the service's tracer is registered.
pub const TRACER_NAME: &'static str = "tracing-otel-subscriber";

/// How much the service logs.
#[derive(Clone, Copy, Debug, PartialEq, Eq, Structural)]
pub enum LogLevel {
    Debug,
    Info,
}

/// The level that the service logs at unless a target is filtered
/// otherwise: everything down to debug records in debug mode, down to
/// informational ones else.
pub fn log_level(settings: &Settings) -> (r: LogLevel)
    ensures
        r == if settings.debug == Some(true) {
            LogLevel::Debug
        } else {
            LogLevel::Info
        },
{
    if settings.is_debug() {
        LogLevel::Debug
    } else {
        LogLevel::Info
    }
}

/// The filter directives of the libraries that are only heard when they
/// report an error.
pub open spec fn quiet_targets() -> Seq<Seq<char>> {
    seq![
        "hyper=error"@,
        "tower=error"@,
        "h2=error"@,
        "opentelemetry_sdk=error"@,
        "sqlx=error"@,
    ]
}

/// The filter directives that are added to the default level, in order.
pub fn quiet_directives() -> (r: Vec<&'static str>)
    ensures
        str_texts(r@) == quiet_targets(),
{
    let mut r: Vec<&'static str> = Vec::new();
    r.push("hyper=error");
    r.push("tower=error");
    r.push("h2=error");
    r.push("opentelemetry_sdk=error");
    r.push("sqlx=error");
    assert(str_texts(r@) =~= quiet_targets());
    r
}

/// What the span of a request is opened with. The trace id is recorded on
/// the span once it is entered.
#[derive(Debug)]
pub struct SpanFields {
    pub method: String,
    pub uri: String,
    pub rid: String,
}

/// Decides what the span of a request is opened with: its method, its path
/// and query, and its request id, which is the one that its request id
/// header holds where that can serve as one. Of the request's headers only
/// that one is looked at, so no other header's value reaches the span.
pub fn span_fields(method: &str, uri: &str, request_id: Option<&str>) -> (r: SpanFields)
    ensures
        r.method@ == method@,
        r.uri@ == uri@,
        is_request_id(r.rid@),
        match request_id {
            Some(v) => if is_request_id(v@) {
                r.rid@ == v@
            } else {
                is_uuid_v4_text(r.rid@)
            },
            None => is_uuid_v4_text(r.rid@),
        },
{
    let mut maker = MakeRequestUuid;
    let rid = maker.make_request_id(request_id).unwrap();
    SpanFields { method: String::from_str(method), uri: String::from_str(uri), rid }
}

/// What the span exporter is built with.
#[derive(Debug)]
pub struct ExportPlan {
    /// Where to export to; the exporter's own default where there is none.
    pub endpoint: Option<String>,
    /// How long one export may take; the exporter's own default where there
    /// is none.
    pub timeout: Option<Duration>,
    /// The metadata that goes out with every export.
    pub metadata: Vec<(String, String)>,
}

impl ExportPlan {
    /// Whether the plan is the one that the export settings `otlp` call
    /// for: without settings, the exporter is left to its defaults; with
    /// them, it gets their endpoint, their interval as its time limit, and
    /// their metadata.
    pub open spec fn follows(self, otlp: Option<Otlp>) -> bool {
        match otlp {
            None => self.endpoint is None && self.timeout is None && self.metadata@.len() == 0,
            Some(o) => {
                &&& self.endpoint matches Some(e) && e@ == o.endpoint@
                &&& self.timeout == o.interval
                &&& pair_texts(self.metadata@) == o.spec_metadata()
            },
        }
    }
}

/// Decides what the span exporter is built with.
pub fn export_plan(otlp: Option<&Otlp>) -> (r: ExportPlan)
    ensures
        r.follows(
            match otlp {
                Some(o) => Some(*o),
                None => None,
            },
        ),
{
    match otlp {
        Some(o) => ExportPlan {
            endpoint: Some(o.endpoint.clone()),
            timeout: o.interval,
            metadata: o.metadata(),
        },
        None => ExportPlan { endpoint: None, timeout: None, metadata: Vec::new() },
    }
}

} // verus!
