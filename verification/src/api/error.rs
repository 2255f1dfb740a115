//! The closed set of failures and the reply that each one becomes.

use vstd::prelude::*;

use super::observe::RequestContext;
use super::resp::{error_envelope, ApiResponse, Reply};

verus! {

/// The kinds of failure, each with the message that the caller is shown.
#[derive(Debug)]
pub enum Error {
    NotFound(String),
    BadRequest(String),
    Internal(String),
    Unauthorized(String),
}

impl Error {
    /// The transport status of the kind.
    pub open spec fn spec_status(self) -> int {
        match self {
            Error::NotFound(_) => 404,
            Error::BadRequest(_) => 400,
            Error::Internal(_) => 500,
            Error::Unauthorized(_) => 401,
        }
    }

    /// The logical code of the kind, which mirrors its transport status.
    pub open spec fn spec_code(self) -> int {
        self.spec_status()
    }

    /// The message that the failure carries.
    pub open spec fn spec_message(self) -> Seq<char> {
        match self {
            Error::NotFound(m) => m@,
            Error::BadRequest(m) => m@,
            Error::Internal(m) => m@,
            Error::Unauthorized(m) => m@,
        }
    }

    /// The transport status that a failure of this kind is answered with.
    pub fn status(&self) -> (r: u16)
        ensures
            r == self.spec_status(),
    {
        match self {
            Error::NotFound(_) => 404,
            Error::BadRequest(_) => 400,
            Error::Internal(_) => 500,
            Error::Unauthorized(_) => 401,
        }
    }

    /// The logical code that the envelope of such a failure carries.
    pub fn code(&self) -> (r: i32)
        ensures
            r == self.spec_code(),
            r != 0,
    {
        match self {
            Error::NotFound(_) => 404,
            Error::BadRequest(_) => 400,
            Error::Internal(_) => 500,
            Error::Unauthorized(_) => 401,
        }
    }

    /// The message that the failure carries.
    pub fn message(&self) -> (r: &str)
        ensures
            r@ == self.spec_message(),
    {
        match self {
            Error::NotFound(m) => m.as_str(),
            Error::BadRequest(m) => m.as_str(),
            Error::Internal(m) => m.as_str(),
            Error::Unauthorized(m) => m.as_str(),
        }
    }

    /// Takes the message out of the failure.
    pub fn into_message(self) -> (r: String)
        ensures
            r@ == self.spec_message(),
    {
        match self {
            Error::NotFound(m) => m,
            Error::BadRequest(m) => m,
            Error::Internal(m) => m,
            Error::Unauthorized(m) => m,
        }
    }
}

/// A failure bound to the request that it happened in, so that its reply
/// carries that request's correlation identity.
#[derive(Debug)]
pub struct ApiError {
    err: Error,
    context: RequestContext,
}

impl ApiError {
    /// The kind of the failure.
    pub closed spec fn spec_kind(self) -> Error {
        self.err
    }

    /// The request that the failure happened in.
    pub closed spec fn spec_context(self) -> RequestContext {
        self.context
    }

    /// Binds a failure to the request that it happened in.
    pub fn new(err: Error, context: RequestContext) -> (r: Self)
        ensures
            r.spec_kind() == err,
            r.spec_context() == context,
    {
        Self { err, context }
    }

    /// The kind of the failure.
    pub fn kind(&self) -> (r: &Error)
        ensures
            *r == self.spec_kind(),
    {
        &self.err
    }

    /// The request that the failure happened in.
    pub fn context(&self) -> (r: &RequestContext)
        ensures
            *r == self.spec_context(),
    {
        &self.context
    }

    /// Renders the failure: the transport status of its kind, over an
    /// envelope that carries the request's correlation identity, the kind's
    /// logical code and the message.
    pub fn into_reply(self) -> (r: Reply<()>)
        ensures
            r.status == self.spec_kind().spec_status(),
            r.envelope@ == error_envelope::<()>(
                self.spec_context()@,
                self.spec_kind().spec_code(),
                self.spec_kind().spec_message(),
            ),
    {
        let ApiError { err, context } = self;
        let status: u16 = err.status();
        let code: i32 = err.code();
        let message = err.into_message();
        Reply { status, envelope: ApiResponse::error(context, code, message) }
    }
}

} // verus!
