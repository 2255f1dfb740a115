use ai_api::api::observe::metrics::{
    duration_buckets_ms, labels, metric_path, Outcome, RequestMetrics, FAILURE_STATUS_FIRST,
    FAILURE_STATUS_LAST, REQUESTS_DURATION_SECONDS, REQUESTS_TOTAL,
};
use ai_api::api::resp::STATUS_TIMED_OUT;
use ai_api::api::observe::trace::{
    export_plan, log_level, quiet_directives, span_fields, LogLevel, TRACER_NAME,
};
use ai_api::settings::{Otlp, Serve, Settings, AUTHORIZATION_SCHEME, DEFAULT_RUN_MODE};
use ai_api::text::decimal_string;
use std::time::Duration;

#[test]
fn metric_names() {
    assert_eq!(REQUESTS_TOTAL, "http_requests_total");
    assert_eq!(REQUESTS_DURATION_SECONDS, "http_requests_duration_seconds");
}

#[test]
fn duration_buckets() {
    assert_eq!(duration_buckets_ms(), vec![5, 10, 25, 50, 100, 250, 500, 1000, 2500, 5000, 10000]);
    assert!(duration_buckets_ms().windows(2).all(|w| w[0] < w[1]));
}

#[test]
fn path_label_prefers_route_template() {
    assert_eq!(metric_path(Some("/users/{id}"), "/users/42"), "/users/{id}");
    assert_eq!(metric_path(None, "/users/42"), "/users/42");
    assert_eq!(metric_path(Some(""), "/x"), "");
}

#[test]
fn labels_render_status_in_decimal() {
    let l = labels("GET", "/healthz", 200);
    assert_eq!(l.method, "GET");
    assert_eq!(l.path, "/healthz");
    assert_eq!(l.status, "200");
    assert_eq!(labels("POST", "/", 404).status, "404");
    assert_eq!(labels("POST", "/", 0).status, "0");
    assert_eq!(labels("POST", "/", 65535).status, "65535");
}

#[test]
fn decimal_rendering() {
    assert_eq!(decimal_string(0), "0");
    assert_eq!(decimal_string(7), "7");
    assert_eq!(decimal_string(10), "10");
    assert_eq!(decimal_string(99), "99");
    assert_eq!(decimal_string(100), "100");
    assert_eq!(decimal_string(8080), "8080");
    assert_eq!(decimal_string(10000), "10000");
    assert_eq!(decimal_string(u16::MAX), "65535");
    for n in 0u16..=2000 {
        assert_eq!(decimal_string(n), n.to_string());
    }
}

#[test]
fn outcome_status() {
    assert_eq!(Outcome::Responded(200).status(), 200);
    assert_eq!(Outcome::Responded(503).status(), 503);
    assert_eq!(Outcome::TimedOut.status(), 408);
    assert_eq!(STATUS_TIMED_OUT, 408);
}

#[test]
fn outcome_failure_range() {
    assert!(!Outcome::Responded(200).is_failure());
    assert!(!Outcome::Responded(399).is_failure());
    assert!(Outcome::Responded(400).is_failure());
    assert!(Outcome::Responded(404).is_failure());
    assert!(Outcome::Responded(599).is_failure());
    assert!(!Outcome::Responded(600).is_failure());
    assert!(Outcome::TimedOut.is_failure());
    assert_eq!((FAILURE_STATUS_FIRST, FAILURE_STATUS_LAST), (400, 599));
    for status in 0u16..1000 {
        assert_eq!(Outcome::Responded(status).is_failure(), (400..=599).contains(&status));
    }
}

#[test]
fn request_is_observed_on_first_report() {
    let mut m = RequestMetrics::begin("GET", Some("/api/v1/hello"), "/api/v1/hello");
    assert!(!m.is_recorded());
    let l = m.complete(Outcome::Responded(200)).expect("the observation");
    assert!(m.is_recorded());
    assert_eq!(l.method, "GET");
    assert_eq!(l.path, "/api/v1/hello");
    assert_eq!(l.status, "200");
}

#[test]
fn request_is_observed_once() {
    let mut m = RequestMetrics::begin("GET", None, "/slow");
    assert!(m.complete(Outcome::TimedOut).is_some());
    assert!(m.complete(Outcome::Responded(200)).is_none());
    assert!(m.complete(Outcome::TimedOut).is_none());
    assert!(m.is_recorded());
}

#[test]
fn timed_out_request_is_observed_with_timeout_status() {
    let mut m = RequestMetrics::begin("POST", Some("/jobs/{id}"), "/jobs/9");
    let l = m.complete(Outcome::TimedOut).expect("the observation");
    assert_eq!(l.method, "POST");
    assert_eq!(l.path, "/jobs/{id}");
    assert_eq!(l.status, "408");
    assert!(m.complete(Outcome::TimedOut).is_none());
}

#[test]
fn failed_request_is_observed() {
    let mut m = RequestMetrics::begin("GET", None, "/nowhere");
    let l = m.complete(Outcome::Responded(404)).expect("the observation");
    assert_eq!(l.path, "/nowhere");
    assert_eq!(l.status, "404");
}

#[test]
fn exactly_one_observation_over_any_reports() {
    let outcomes = [Outcome::Responded(200), Outcome::Responded(500), Outcome::TimedOut];
    for first in outcomes {
        for second in outcomes {
            for third in outcomes {
                let mut m = RequestMetrics::begin("GET", None, "/");
                let seen: Vec<_> = [first, second, third]
                    .into_iter()
                    .filter_map(|o| m.complete(o))
                    .collect();
                assert_eq!(seen.len(), 1);
                assert_eq!(seen[0].status, first.status().to_string());
            }
        }
    }
}

fn settings(debug: Option<bool>) -> Settings {
    Settings { debug, serve: Serve::new("127.0.0.1".to_string(), 8080), otlp: None }
}

fn otlp(token: Option<&str>, organization: Option<&str>, stream: Option<&str>) -> Otlp {
    Otlp {
        endpoint: "http://collector:4317".to_string(),
        interval: Some(Duration::from_secs(5)),
        token: token.map(str::to_string),
        organization: organization.map(str::to_string),
        stream: stream.map(str::to_string),
    }
}

#[test]
fn serve_addr() {
    assert_eq!(Serve::new("127.0.0.1".to_string(), 8080).addr(), "127.0.0.1:8080");
    assert_eq!(Serve::new("localhost".to_string(), 0).addr(), "localhost:0");
    assert_eq!(Serve::new("::1".to_string(), 65535).addr(), "::1:65535");
    assert_eq!(Serve::new(String::new(), 80).addr(), ":80");
    let s = Serve::new("0.0.0.0".to_string(), 3000);
    assert_eq!(s.host(), "0.0.0.0");
    assert_eq!(s.port(), 3000);
}

#[test]
fn config_files_by_run_mode() {
    assert_eq!(
        Settings::config_files(None),
        vec!["config/default", "config/dev", "config/local"]
    );
    assert_eq!(
        Settings::config_files(Some("prod")),
        vec!["config/default", "config/prod", "config/local"]
    );
    assert_eq!(Settings::config_files(Some("")), vec!["config/default", "config/", "config/local"]);
}

#[test]
fn debug_defaults_to_off() {
    assert!(!settings(None).is_debug());
    assert!(!settings(Some(false)).is_debug());
    assert!(settings(Some(true)).is_debug());
}

#[test]
fn log_level_follows_debug() {
    assert_eq!(log_level(&settings(None)), LogLevel::Info);
    assert_eq!(log_level(&settings(Some(false))), LogLevel::Info);
    assert_eq!(log_level(&settings(Some(true))), LogLevel::Debug);
}

#[test]
fn quiet_directives_in_order() {
    assert_eq!(
        quiet_directives(),
        vec!["hyper=error", "tower=error", "h2=error", "opentelemetry_sdk=error", "sqlx=error"]
    );
    assert_eq!(TRACER_NAME, "tracing-otel-subscriber");
}

#[test]
fn metadata_needs_all_three_credentials() {
    let full = otlp(Some("dG9rZW4="), Some("acme"), Some("default"));
    assert_eq!(
        full.metadata(),
        vec![
            ("authorization".to_string(), "Bearer dG9rZW4=".to_string()),
            ("organization".to_string(), "acme".to_string()),
            ("stream-name".to_string(), "default".to_string()),
        ]
    );
    assert!(otlp(None, Some("acme"), Some("default")).metadata().is_empty());
    assert!(otlp(Some("t"), None, Some("default")).metadata().is_empty());
    assert!(otlp(Some("t"), Some("acme"), None).metadata().is_empty());
    assert!(otlp(None, None, None).metadata().is_empty());
}

#[test]
fn export_plan_without_settings_keeps_defaults() {
    let plan = export_plan(None);
    assert_eq!(plan.endpoint, None);
    assert_eq!(plan.timeout, None);
    assert!(plan.metadata.is_empty());
}

#[test]
fn export_plan_follows_settings() {
    let o = otlp(Some("k"), Some("org"), Some("s"));
    let plan = export_plan(Some(&o));
    assert_eq!(plan.endpoint.as_deref(), Some("http://collector:4317"));
    assert_eq!(plan.timeout, Some(Duration::from_secs(5)));
    assert_eq!(plan.metadata.len(), 3);
    assert_eq!(plan.metadata[0], ("authorization".to_string(), "Bearer k".to_string()));
    assert_eq!(plan.metadata[1], ("organization".to_string(), "org".to_string()));
    assert_eq!(plan.metadata[2], ("stream-name".to_string(), "s".to_string()));

    let mut bare = otlp(None, None, None);
    bare.interval = None;
    let plan = export_plan(Some(&bare));
    assert_eq!(plan.endpoint.as_deref(), Some("http://collector:4317"));
    assert_eq!(plan.timeout, None);
    assert!(plan.metadata.is_empty());
}

#[test]
fn span_is_opened_with_method_uri_and_request_id() {
    let f = span_fields("GET", "/api/v1/hello?x=1", Some("client-1"));
    assert_eq!(f.method, "GET");
    assert_eq!(f.uri, "/api/v1/hello?x=1");
    assert_eq!(f.rid, "client-1");
}

#[test]
fn span_of_a_request_without_usable_id_gets_a_new_one() {
    for inbound in [None, Some(""), Some("a\nb")] {
        let f = span_fields("POST", "/", inbound);
        assert_eq!(f.method, "POST");
        assert_eq!(f.uri, "/");
        assert_eq!(f.rid.len(), 36);
        assert_eq!(f.rid.as_bytes()[14], b'4');
        assert_eq!(f.rid.matches('-').count(), 4);
    }
}

#[test]
fn exporter_token_is_a_bearer_token() {
    assert_eq!(AUTHORIZATION_SCHEME, "Bearer ");
    let m = otlp(Some("abc.def"), Some("o"), Some("s")).metadata();
    assert_eq!(m[0].0, "authorization");
    assert_eq!(m[0].1, "Bearer abc.def");
    let m = otlp(Some(""), Some("o"), Some("s")).metadata();
    assert_eq!(m[0].1, "Bearer ");
}

#[test]
fn default_run_mode() {
    assert_eq!(DEFAULT_RUN_MODE, "dev");
    assert_eq!(Settings::config_files(None), Settings::config_files(Some("dev")));
}
