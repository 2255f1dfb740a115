//! Request correlation, response envelopes and request telemetry for an HTTP
//! service: which identity a request gets, how every reply is wrapped, and
//! what is recorded about each request.

pub mod api;
pub mod settings;
pub mod text;
