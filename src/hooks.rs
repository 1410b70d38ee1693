//! Which handler runs for each lifecycle event of the document store.
use vstd::prelude::*;

verus! {

/// A lifecycle event that the host delivers to the hooks.
#[derive(Clone, Copy, Debug, PartialEq, Eq, Structural)]
pub enum HookEvent {
    SetDoc,
    SetManyDocs,
    DeleteDoc,
    DeleteManyDocs,
    UploadAsset,
    DeleteAsset,
    DeleteManyAssets,
}

/// What runs for an event.
#[derive(Clone, Copy, Debug, PartialEq, Eq, Structural)]
pub enum Handler {
    /// Succeeds at once and does nothing.
    NoOp,
    /// Sends the written document as a notification.
    NotificationDispatch,
}

/// Routes events to handlers: a document written to the dispatch collection
/// is sent as a notification, every other event is a no-op.
pub struct HookRegistry {
    pub dispatch_collection: String,
}

/// The handler for `event` on collection `collection`, when notifications are
/// dispatched for `dispatch_collection`.
pub open spec fn handler_spec(
    dispatch_collection: Seq<char>,
    event: HookEvent,
    collection: Seq<char>,
) -> Handler {
    if event == HookEvent::SetDoc && collection == dispatch_collection {
        Handler::NotificationDispatch
    } else {
        Handler::NoOp
    }
}

impl HookRegistry {
    /// A registry that dispatches notifications for `dispatch_collection`.
    pub fn new(dispatch_collection: String) -> (r: HookRegistry)
        ensures
            r.dispatch_collection@ == dispatch_collection@,
    {
        HookRegistry { dispatch_collection }
    }

    /// The handler that runs for `event` on `collection`.
    pub fn handler_for(&self, event: HookEvent, collection: &str) -> (r: Handler)
        ensures
            r == handler_spec(self.dispatch_collection@, event, collection@),
    {
        let collection = String::from_str(collection);
        if event == HookEvent::SetDoc && collection == self.dispatch_collection {
            Handler::NotificationDispatch
        } else {
            Handler::NoOp
        }
    }
}

/// The result of a no-op handler: immediate success.
pub fn run_noop() -> (r: Result<(), String>)
    ensures
        r is Ok,
{
    Ok(())
}

} // verus!
