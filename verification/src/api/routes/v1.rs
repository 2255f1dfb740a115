//! Version 1 of the service's own routes.

use vstd::prelude::*;

use crate::api::observe::RequestContext;
use crate::api::resp::{success_envelope, ApiResponse};

verus! {

/// The payload of the greeting.
pub const GREETING: &'static str = "Hello, World!";

/// Answers the greeting route.
pub fn hello_world(context: RequestContext) -> (r: ApiResponse<&'static str>)
    ensures
        r@ == success_envelope(context@, GREETING),
{
    ApiResponse::success(context, GREETING)
}

} // verus!
