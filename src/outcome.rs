//! What came back from the outbound call, and how it is classified.
use vstd::prelude::*;
use vstd::utf8::{decode_utf8, valid_utf8};
use crate::error::{DispatchError, RejectionKind};

verus! {

/// The result of the one outbound call.
pub enum CallOutcome {
    /// The delivery service replied with `status` and the (capped) `body`.
    Replied { status: u64, body: Vec<u8> },
    /// The call layer reported a failure before any reply.
    Rejected { code: RejectionKind, message: String },
}

/// The text that `String::from_utf8_lossy` makes of the bytes `b`.
pub uninterp spec fn lossy_text_of(b: Seq<u8>) -> Seq<char>;

/// Relies on `String::from_utf8_lossy`: the bytes decoded as UTF-8, each
/// invalid sequence replaced by U+FFFD; valid UTF-8 decodes unchanged.
#[verifier::external_body]
fn body_text(b: &[u8]) -> (r: String)
    ensures
        r@ == lossy_text_of(b@),
        valid_utf8(b@) ==> r@ == decode_utf8(b@),
{
    String::from_utf8_lossy(b).into_owned()
}

/// Whether `status` is a success status, i.e. lies in `[200, 300)`.
pub open spec fn is_success(status: u64) -> bool {
    200 <= status < 300
}

/// Whether `status` is a success status.
pub fn is_success_status(status: u64) -> (r: bool)
    ensures
        r == is_success(status),
{
    200 <= status && status < 300
}

/// Classifies a reply whose body has already been decoded as `body`.
pub fn classify_reply(status: u64, body: String) -> (r: Result<(), DispatchError>)
    ensures
        is_success(status) ==> r is Ok,
        !is_success(status) ==> (r matches Err(DispatchError::Remote { status: s, body: t }) && s
            == status && t@ == body@),
{
    if is_success_status(status) {
        Ok(())
    } else {
        Err(DispatchError::Remote { status, body })
    }
}

/// Classifies the outcome of the call: a success status is success, any other
/// status a `Remote` error with the body as text, a failure of the call layer
/// a `Transport` error.
pub fn classify_outcome(outcome: CallOutcome) -> (r: Result<(), DispatchError>)
    ensures
        match outcome {
            CallOutcome::Rejected { code, message } => r matches Err(
                DispatchError::Transport { code: c, message: m },
            ) && c == code && m@ == message@,
            CallOutcome::Replied { status, body } => if is_success(status) {
                r is Ok
            } else {
                r matches Err(DispatchError::Remote { status: s, body: t }) && s == status && t@
                    == lossy_text_of(body@) && (valid_utf8(body@) ==> t@ == decode_utf8(body@))
            },
        },
{
    match outcome {
        CallOutcome::Rejected { code, message } => Err(DispatchError::Transport { code, message }),
        CallOutcome::Replied { status, body } => {
            if is_success_status(status) {
                Ok(())
            } else {
                classify_reply(status, body_text(body.as_slice()))
            }
        },
    }
}

} // verus!
