//! The JSON body of the outbound call: each string is encoded by serde_json,
//! and the object around them is framed here.
use vstd::prelude::*;
use crate::error::DispatchError;
use crate::message::NotificationPayload;

verus! {

/// Lower-case hexadecimal digit for `d < 16`.
pub open spec fn hex_digit(d: nat) -> char {
    if d < 10 {
        ((d + 48) as u8) as char
    } else {
        ((d + 87) as u8) as char
    }
}

/// How one character is written inside a JSON string literal: `"` and `\`
/// are escaped, the controls with a short escape use it, the other characters
/// below U+0020 become `\u00xx`, and every other character stands as it is.
pub open spec fn escape_char(c: char) -> Seq<char> {
    if c == '"' {
        seq!['\\', '"']
    } else if c == '\\' {
        seq!['\\', '\\']
    } else if c == '\u{8}' {
        seq!['\\', 'b']
    } else if c == '\t' {
        seq!['\\', 't']
    } else if c == '\n' {
        seq!['\\', 'n']
    } else if c == '\u{c}' {
        seq!['\\', 'f']
    } else if c == '\r' {
        seq!['\\', 'r']
    } else if (c as u32) < 0x20 {
        seq!['\\', 'u', '0', '0', hex_digit((c as u32 / 16) as nat), hex_digit((c as u32 % 16) as nat)]
    } else {
        seq![c]
    }
}

/// The characters of `s`, each escaped as inside a JSON string literal.
pub open spec fn escaped(s: Seq<char>) -> Seq<char>
    decreases s.len(),
{
    if s.len() == 0 {
        Seq::empty()
    } else {
        escape_char(s[0]) + escaped(s.drop_first())
    }
}

/// The JSON string literal for `s`: quotes around its escaped characters.
pub open spec fn json_string_of(s: Seq<char>) -> Seq<char> {
    seq!['"'] + escaped(s) + seq!['"']
}

/// Relies on `serde_json::to_string` applied to a `str`: the JSON string
/// literal for `s`. It writes into a `Vec`, so it does not fail.
#[verifier::external_body]
fn json_string(s: &str) -> (r: Result<String, String>)
    ensures
        r is Ok,
        r matches Ok(t) ==> t@ == json_string_of(s@),
{
    match serde_json::to_string(s) {
        Ok(t) => Ok(t),
        Err(e) => Err(e.to_string()),
    }
}

/// The compact JSON object `{"from":..,"to":..,"subject":..,"text":..}` around
/// four already encoded string literals, in that key order.
pub open spec fn object_text(
    from_json: Seq<char>,
    to_json: Seq<char>,
    subject_json: Seq<char>,
    text_json: Seq<char>,
) -> Seq<char> {
    "{\"from\":"@ + from_json + ",\"to\":"@ + to_json + ",\"subject\":"@ + subject_json
        + ",\"text\":"@ + text_json + "}"@
}

/// The JSON body for a payload with these fields.
pub open spec fn payload_json(
    from: Seq<char>,
    to: Seq<char>,
    subject: Seq<char>,
    text: Seq<char>,
) -> Seq<char> {
    object_text(json_string_of(from), json_string_of(to), json_string_of(subject), json_string_of(text))
}

/// Frames four encoded string literals as the payload object.
pub fn frame_body(from_json: &str, to_json: &str, subject_json: &str, text_json: &str) -> (r:
    String)
    ensures
        r@ == object_text(from_json@, to_json@, subject_json@, text_json@),
{
    let mut s = String::from_str("{\"from\":");
    s.append(from_json);
    s.append(",\"to\":");
    s.append(to_json);
    s.append(",\"subject\":");
    s.append(subject_json);
    s.append(",\"text\":");
    s.append(text_json);
    s.append("}");
    s
}

/// Encodes the payload as its JSON body. The encoder does not fail on
/// strings; were it to, the result would be a `Serialization` error carrying
/// its message.
pub fn encode_payload(p: &NotificationPayload) -> (r: Result<String, DispatchError>)
    ensures
        r is Ok,
        r matches Ok(b) ==> b@ == payload_json(p.from@, p.to@, p.subject@, p.text@),
{
    let from_json = match json_string(p.from.as_str()) {
        Ok(t) => t,
        Err(cause) => { return Err(DispatchError::Serialization { cause }); },
    };
    let to_json = match json_string(p.to.as_str()) {
        Ok(t) => t,
        Err(cause) => { return Err(DispatchError::Serialization { cause }); },
    };
    let subject_json = match json_string(p.subject.as_str()) {
        Ok(t) => t,
        Err(cause) => { return Err(DispatchError::Serialization { cause }); },
    };
    let text_json = match json_string(p.text.as_str()) {
        Ok(t) => t,
        Err(cause) => { return Err(DispatchError::Serialization { cause }); },
    };
    Ok(
        frame_body(
            from_json.as_str(),
            to_json.as_str(),
            subject_json.as_str(),
            text_json.as_str(),
        ),
    )
}

} // verus!
