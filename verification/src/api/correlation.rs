//! What ties a reply to the request that it answers.

use vstd::prelude::*;

use super::error::ApiError;
use super::observe::req_context::ContextView;
use super::observe::req_id::{is_request_id, resolved_id};
use super::resp::{error_envelope, success_envelope};

verus! {

/// A request id that the client sent, and that can serve as one, is the id
/// that the request is resolved to, whatever the fallback would have been,
/// and with it the id in the envelope of every reply to that request, of a
/// payload as of an error.
pub proof fn lemma_client_request_id_is_echoed<T>(
    inbound: Seq<char>,
    fresh: Seq<char>,
    uri: Seq<char>,
    trace_id: Option<Seq<char>>,
    data: T,
    code: int,
    err: Seq<char>,
)
    requires
        is_request_id(inbound),
    ensures
        resolved_id(Some(inbound), fresh) == inbound,
        success_envelope(
            ContextView { uri, request_id: resolved_id(Some(inbound), fresh), trace_id },
            data,
        ).context.request_id == inbound,
        error_envelope::<T>(
            ContextView { uri, request_id: resolved_id(Some(inbound), fresh), trace_id },
            code,
            err,
        ).context.request_id == inbound,
{
}

/// Whatever the client sent or did not send, the resolved request id can
/// serve as one, and so is not empty, as long as the fallback can.
pub proof fn lemma_resolved_id_is_request_id(inbound: Option<Seq<char>>, fresh: Seq<char>)
    requires
        is_request_id(fresh),
    ensures
        is_request_id(resolved_id(inbound, fresh)),
        resolved_id(inbound, fresh).len() > 0,
{
}

/// An envelope carries a payload or an error, never both and never neither,
/// and it is the payload just when its code is 0: so it is for the envelope
/// of any payload, and for the envelope of any error under a code other
/// than 0.
pub proof fn lemma_envelope_is_one_sided<T>(
    context: ContextView,
    data: T,
    code: int,
    err: Seq<char>,
)
    requires
        code != 0,
    ensures
        success_envelope(context, data).well_formed(),
        error_envelope::<T>(context, code, err).well_formed(),
        (success_envelope(context, data).error is Some) != (success_envelope(context, data).data
            is Some),
        (error_envelope::<T>(context, code, err).error is Some) != (error_envelope::<T>(
            context,
            code,
            err,
        ).data is Some),
        success_envelope(context, data).code == 0 <==> success_envelope(context, data).data
            is Some,
        error_envelope::<T>(context, code, err).code == 0 <==> error_envelope::<T>(
            context,
            code,
            err,
        ).data is Some,
{
}

/// The reply to a failure has the failure's own status and code, which is
/// never 0, carries the failure's message and no payload, and answers under
/// the correlation identity that the failure was bound to.
pub proof fn lemma_failure_reply(failure: ApiError)
    ensures
        ({
            let kind = failure.spec_kind();
            let envelope = error_envelope::<()>(
                failure.spec_context()@,
                kind.spec_code(),
                kind.spec_message(),
            );
            &&& kind.spec_status() == 404 || kind.spec_status() == 400 || kind.spec_status() == 500
                || kind.spec_status() == 401
            &&& envelope.code == kind.spec_status()
            &&& envelope.code != 0
            &&& envelope.error == Some(kind.spec_message())
            &&& envelope.data is None
            &&& envelope.context == failure.spec_context()@
            &&& envelope.well_formed()
        }),
{
}

/// A request that no route matched is answered with status 404, under the
/// logical code 404 and with an error message.
pub proof fn lemma_unrouted_request_is_not_found(failure: ApiError)
    requires
        failure.spec_kind() is NotFound,
    ensures
        failure.spec_kind().spec_status() == 404,
        error_envelope::<()>(
            failure.spec_context()@,
            failure.spec_kind().spec_code(),
            failure.spec_kind().spec_message(),
        ).code == 404,
        error_envelope::<()>(
            failure.spec_context()@,
            failure.spec_kind().spec_code(),
            failure.spec_kind().spec_message(),
        ).error is Some,
{
}

} // verus!
