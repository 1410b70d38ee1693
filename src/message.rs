//! The notification request, the wire payload, and the fixed message template.
use vstd::prelude::*;

verus! {

/// A decoded notification request, as stored in the document.
pub struct NotificationRequest {
    pub from: String,
    pub to: String,
    pub subject: String,
    /// Raw text supplied by the writer; the outgoing message does not use it.
    pub text: String,
    pub user_name: String,
    pub recipient_name: String,
}

/// The payload sent to the delivery service.
pub struct NotificationPayload {
    pub from: String,
    pub to: String,
    pub subject: String,
    pub text: String,
}

/// Text of the message up to the recipient's name.
pub open spec fn greeting() -> Seq<char> {
    "Hello "@
}

/// Text between the recipient's name and the sender's name.
pub open spec fn after_recipient() -> Seq<char> {
    ",\n\n"@
}

/// Text after the sender's name.
pub open spec fn closing() -> Seq<char> {
    " has shared some files with you through Futura.\n\nYou can access your shared files at: https://futura.app\n\nBest regards,\nThe Futura Team"@
}

/// The message body sent to `recipient` on behalf of `user`.
pub open spec fn message_text(recipient: Seq<char>, user: Seq<char>) -> Seq<char> {
    greeting() + recipient + after_recipient() + user + closing()
}

/// Fills the message template with the recipient's and the sender's names.
pub fn compose_message(recipient_name: &str, user_name: &str) -> (r: String)
    ensures
        r@ == message_text(recipient_name@, user_name@),
{
    let mut s = String::from_str("Hello ");
    s.append(recipient_name);
    s.append(",\n\n");
    s.append(user_name);
    s.append(
        " has shared some files with you through Futura.\n\nYou can access your shared files at: https://futura.app\n\nBest regards,\nThe Futura Team",
    );
    s
}

/// Builds the wire payload: addresses and subject copied, text synthesized
/// from the template.
pub fn build_payload(req: NotificationRequest) -> (p: NotificationPayload)
    ensures
        p.from@ == req.from@,
        p.to@ == req.to@,
        p.subject@ == req.subject@,
        p.text@ == message_text(req.recipient_name@, req.user_name@),
{
    let text = compose_message(req.recipient_name.as_str(), req.user_name.as_str());
    NotificationPayload { from: req.from, to: req.to, subject: req.subject, text }
}

/// Every synthesized message is the template with the recipient's name and
/// the sender's name put in place of their placeholders: the recipient's name
/// starts right after `"Hello "`, the sender's name right after the following
/// `",\n\n"`, and every other character is the template's own.
pub proof fn lemma_message_layout(recipient: Seq<char>, user: Seq<char>)
    ensures
        greeting() == seq!['H', 'e', 'l', 'l', 'o', ' '],
        after_recipient() == seq![',', '\n', '\n'],
        ({
            let m = message_text(recipient, user);
            let r = recipient.len() as int;
            let u = user.len() as int;
            &&& m.len() == 9 + r + u + closing().len()
            &&& m.subrange(0, 6) == greeting()
            &&& m.subrange(6, 6 + r) == recipient
            &&& m.subrange(6 + r, 9 + r) == after_recipient()
            &&& m.subrange(9 + r, 9 + r + u) == user
            &&& m.subrange(9 + r + u, m.len() as int) == closing()
        }),
{
    reveal_strlit("Hello ");
    reveal_strlit(",\n\n");
    let m = message_text(recipient, user);
    let r = recipient.len() as int;
    let u = user.len() as int;
    assert(greeting() =~= seq!['H', 'e', 'l', 'l', 'o', ' ']);
    assert(after_recipient() =~= seq![',', '\n', '\n']);
    assert(m.subrange(0, 6) =~= greeting());
    assert(m.subrange(6, 6 + r) =~= recipient);
    assert(m.subrange(6 + r, 9 + r) =~= after_recipient());
    assert(m.subrange(9 + r, 9 + r + u) =~= user);
    assert(m.subrange(9 + r + u, m.len() as int) =~= closing());
}

} // verus!
