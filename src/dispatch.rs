//! The notification dispatcher: from a decoded document to the outbound call,
//! and from the call's outcome to the hook's result.
use vstd::prelude::*;
use crate::error::{error_text, DispatchError};
use crate::json::{encode_payload, payload_json};
use crate::message::{build_payload, message_text, NotificationRequest};
use crate::outcall::{build_request, is_delivery_call, DispatcherConfig, OutboundRequest};

verus! {

/// The JSON body sent for request `req`.
pub open spec fn request_body(req: NotificationRequest) -> Seq<char> {
    payload_json(
        req.from@,
        req.to@,
        req.subject@,
        message_text(req.recipient_name@, req.user_name@),
    )
}

/// Decides, for the document `doc_key` whose data decoded to `decoded`, the
/// one call to make. A document that did not decode gives a `Decode` error
/// with the decoder's message and no call; a decoded one always gives the
/// POST of its payload.
pub fn plan_dispatch(
    config: &DispatcherConfig,
    doc_key: &str,
    decoded: Result<NotificationRequest, String>,
) -> (r: Result<OutboundRequest, DispatchError>)
    ensures
        decoded matches Err(cause) ==> (r matches Err(DispatchError::Decode { cause: c }) && c@
            == cause@),
        decoded matches Ok(req) ==> (r matches Ok(o) ==> is_delivery_call(
            o,
            config.endpoint@,
            config.auth_token@,
            doc_key@,
            request_body(req),
        )),
        decoded is Ok ==> r is Ok,
{
    let req = match decoded {
        Ok(req) => req,
        Err(cause) => { return Err(DispatchError::Decode { cause }); },
    };
    let payload = build_payload(req);
    let body = encode_payload(&payload)?;
    Ok(build_request(config, doc_key, body.as_str()))
}

/// The hook's result for the host: nothing on success, the error's text on failure.
pub fn report(r: Result<(), DispatchError>) -> (out: Result<(), String>)
    ensures
        r is Ok ==> out is Ok,
        r matches Err(e) ==> (out matches Err(t) && t@ == error_text(e)),
{
    match r {
        Ok(()) => Ok(()),
        Err(e) => Err(e.message()),
    }
}

} // verus!
