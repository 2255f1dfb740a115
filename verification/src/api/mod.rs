//! The request-facing half of the service.

pub mod correlation;
pub mod error;
pub mod observe;
pub mod resp;
pub mod routes;

pub use resp::ApiResponse;
