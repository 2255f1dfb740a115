//! What is counted and timed for every request, and under which labels.

use vstd::prelude::*;
use vstd::string::StringExecFns;

use crate::api::resp::STATUS_TIMED_OUT;
use crate::text::{decimal, decimal_string, opt_str};

verus! {

/// The counter of completed requests.
pub const REQUESTS_TOTAL: &'static str = "http_requests_total";

/// The histogram of request durations.
pub const REQUESTS_DURATION_SECONDS: &'static str = "http_requests_duration_seconds";

/// The first status that counts as a failure.
pub const FAILURE_STATUS_FIRST: u16 = 400;

/// The last status that counts as a failure.
pub const FAILURE_STATUS_LAST: u16 = 599;

/// The upper bounds of the duration histogram's buckets, in milliseconds.
pub open spec fn duration_bounds_ms() -> Seq<u64> {
    seq![5, 10, 25, 50, 100, 250, 500, 1000, 2500, 5000, 10000]
}

/// The upper bounds of the duration histogram's buckets, in milliseconds and
/// in rising order.
pub fn duration_buckets_ms() -> (r: Vec<u64>)
    ensures
        r@ == duration_bounds_ms(),
        forall|i: int, j: int| 0 <= i < j < r@.len() ==> r@[i] < r@[j],
{
    let r: Vec<u64> = vec![5, 10, 25, 50, 100, 250, 500, 1000, 2500, 5000, 10000];
    assert(r@ =~= duration_bounds_ms());
    r
}

/// The path label of a request: the template of the route that matched,
/// which keeps the number of label values bounded, or the raw path where no
/// route did.
pub open spec fn label_path(matched: Option<Seq<char>>, raw: Seq<char>) -> Seq<char> {
    match matched {
        Some(template) => template,
        None => raw,
    }
}

/// Picks the path label of a request.
pub fn metric_path(matched: Option<&str>, raw_path: &str) -> (r: String)
    ensures
        r@ == label_path(opt_str(matched), raw_path@),
{
    match matched {
        Some(template) => String::from_str(template),
        None => String::from_str(raw_path),
    }
}

/// How a request ended: with a response of some status, or cut off by the
/// time limit.
#[derive(Clone, Copy, Debug, PartialEq, Eq, Structural)]
pub enum Outcome {
    Responded(u16),
    TimedOut,
}

impl Outcome {
    /// The final status of the request.
    pub open spec fn spec_status(self) -> int {
        match self {
            Outcome::Responded(status) => status as int,
            Outcome::TimedOut => STATUS_TIMED_OUT as int,
        }
    }

    /// The final status of the request. Running into the time limit has a
    /// status of its own.
    pub fn status(&self) -> (r: u16)
        ensures
            r == self.spec_status(),
    {
        match self {
            Outcome::Responded(status) => *status,
            Outcome::TimedOut => STATUS_TIMED_OUT,
        }
    }

    /// Whether the status counts as a failure: the client and server error
    /// ranges.
    pub open spec fn spec_is_failure(self) -> bool {
        FAILURE_STATUS_FIRST <= self.spec_status() <= FAILURE_STATUS_LAST
    }

    /// Whether the request counts as failed.
    pub fn is_failure(&self) -> (r: bool)
        ensures
            r == self.spec_is_failure(),
    {
        let status: u16 = self.status();
        FAILURE_STATUS_FIRST <= status && status <= FAILURE_STATUS_LAST
    }
}

/// The labels of one observation. Counter and histogram carry the same.
#[derive(Debug)]
pub struct Labels {
    pub method: String,
    pub path: String,
    pub status: String,
}

/// What an observation is labelled with, as plain values.
pub ghost struct Observation {
    pub method: Seq<char>,
    pub path: Seq<char>,
    pub status: int,
}

impl Labels {
    /// Whether the labels are those of `observation`, the status written in
    /// decimal.
    pub open spec fn describes(self, observation: Observation) -> bool {
        &&& self.method@ == observation.method
        &&& self.path@ == observation.path
        &&& 0 <= observation.status
        &&& self.status@ == decimal(observation.status as nat)
    }
}

/// The labels of a request of `method` on `path` that ended with `status`.
pub fn labels(method: &str, path: &str, status: u16) -> (r: Labels)
    ensures
        r.describes(Observation { method: method@, path: path@, status: status as int }),
{
    Labels {
        method: String::from_str(method),
        path: String::from_str(path),
        status: decimal_string(status),
    }
}

/// What the recorder knows of a request in flight.
pub ghost struct Progress {
    pub method: Seq<char>,
    pub path: Seq<char>,
    pub recorded: bool,
}

impl Progress {
    /// The state after the request was reported as ended with `outcome`,
    /// and the observation to record on that report: one on the first
    /// report, none on any later one.
    pub open spec fn report(self, outcome: Outcome) -> (Progress, Option<Observation>) {
        (
            Progress { recorded: true, ..self },
            if self.recorded {
                None
            } else {
                Some(
                    Observation {
                        method: self.method,
                        path: self.path,
                        status: outcome.spec_status(),
                    },
                )
            },
        )
    }

    /// The observations recorded over a run of reports, in order.
    pub open spec fn observations(self, reports: Seq<Outcome>) -> Seq<Observation>
        decreases reports.len(),
    {
        if reports.len() == 0 {
            Seq::empty()
        } else {
            let (next, observation) = self.report(reports[0]);
            let rest = next.observations(reports.drop_first());
            match observation {
                Some(o) => seq![o] + rest,
                None => rest,
            }
        }
    }
}

/// The recorder's hold on one request: opened when the request enters,
/// reported to when it ends. It hands out the labels of the request's one
/// observation on the first report and nothing after that, so that a
/// request that is reported twice, as one that is cut off while its handler
/// still answers, is counted once.
#[derive(Debug)]
pub struct RequestMetrics {
    method: String,
    path: String,
    recorded: bool,
}

impl View for RequestMetrics {
    type V = Progress;

    closed spec fn view(&self) -> Progress {
        Progress { method: self.method@, path: self.path@, recorded: self.recorded }
    }
}

impl RequestMetrics {
    /// Opens the record of a request of `method`, labelled by the template
    /// of the matched route, or by the raw path where none matched.
    pub fn begin(method: &str, matched: Option<&str>, raw_path: &str) -> (r: Self)
        ensures
            r@ == (Progress {
                method: method@,
                path: label_path(opt_str(matched), raw_path@),
                recorded: false,
            }),
    {
        RequestMetrics {
            method: String::from_str(method),
            path: metric_path(matched, raw_path),
            recorded: false,
        }
    }

    /// Whether the request's observation has been handed out.
    pub fn is_recorded(&self) -> (r: bool)
        ensures
            r == self@.recorded,
    {
        self.recorded
    }

    /// Reports that the request ended with `outcome`. The first report
    /// yields the labels to record under; a later one yields nothing.
    pub fn complete(&mut self, outcome: Outcome) -> (r: Option<Labels>)
        ensures
            final(self)@ == old(self)@.report(outcome).0,
            r is Some <==> old(self)@.report(outcome).1 is Some,
            r matches Some(l) ==> l.describes(old(self)@.report(outcome).1->0),
    {
        if self.recorded {
            None
        } else {
            self.recorded = true;
            Some(labels(self.method.as_str(), self.path.as_str(), outcome.status()))
        }
    }
}

/// Every request that is reported at all is observed exactly once, under
/// the outcome of its first report, however it ended and however often it
/// is reported afterwards.
pub proof fn lemma_one_observation_per_request(
    method: Seq<char>,
    path: Seq<char>,
    reports: Seq<Outcome>,
)
    requires
        reports.len() > 0,
    ensures
        (Progress { method, path, recorded: false }).observations(reports) == seq![
            Observation { method, path, status: reports[0].spec_status() },
        ],
{
    let start = Progress { method, path, recorded: false };
    let next = start.report(reports[0]).0;
    lemma_nothing_after_first_report(next, reports.drop_first());
    assert(start.observations(reports) =~= seq![
        Observation { method, path, status: reports[0].spec_status() },
    ]);
}

/// A request that runs into the time limit counts as failed and is observed
/// exactly once, under the status of the time limit, whatever is reported
/// of it afterwards, as when its handler answers late.
pub proof fn lemma_timed_out_request_is_observed_once(
    method: Seq<char>,
    path: Seq<char>,
    later: Seq<Outcome>,
)
    ensures
        Outcome::TimedOut.spec_is_failure(),
        (Progress { method, path, recorded: false }).observations(seq![Outcome::TimedOut] + later)
            == seq![Observation { method, path, status: STATUS_TIMED_OUT as int }],
{
    lemma_one_observation_per_request(method, path, seq![Outcome::TimedOut] + later);
}

/// A request whose observation is out yields no other.
proof fn lemma_nothing_after_first_report(progress: Progress, reports: Seq<Outcome>)
    requires
        progress.recorded,
    ensures
        progress.observations(reports) == Seq::<Observation>::empty(),
    decreases reports.len(),
{
    if reports.len() > 0 {
        lemma_nothing_after_first_report(progress.report(reports[0]).0, reports.drop_first());
    }
}

} // verus!
