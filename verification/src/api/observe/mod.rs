//! Correlation identity and telemetry of a request.

pub mod metrics;
pub mod req_context;
pub mod req_id;
pub mod trace;

pub use req_context::RequestContext;
pub use req_id::MakeRequestUuid;
