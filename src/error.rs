//! The ways one dispatch can fail, and their human-readable text.
use vstd::prelude::*;

verus! {

/// Category of a transport-level failure, as the host's call layer reports it.
#[derive(Clone, Copy, Debug, PartialEq, Eq, Structural)]
pub enum RejectionKind {
    NoError,
    SysFatal,
    SysTransient,
    DestinationInvalid,
    CanisterReject,
    CanisterError,
    Unknown,
}

/// The variant's name.
pub open spec fn rejection_name(k: RejectionKind) -> Seq<char> {
    match k {
        RejectionKind::NoError => "NoError"@,
        RejectionKind::SysFatal => "SysFatal"@,
        RejectionKind::SysTransient => "SysTransient"@,
        RejectionKind::DestinationInvalid => "DestinationInvalid"@,
        RejectionKind::CanisterReject => "CanisterReject"@,
        RejectionKind::CanisterError => "CanisterError"@,
        RejectionKind::Unknown => "Unknown"@,
    }
}

impl RejectionKind {
    /// The variant's name, as text.
    pub fn name(&self) -> (r: String)
        ensures
            r@ == rejection_name(*self),
    {
        match self {
            RejectionKind::NoError => String::from_str("NoError"),
            RejectionKind::SysFatal => String::from_str("SysFatal"),
            RejectionKind::SysTransient => String::from_str("SysTransient"),
            RejectionKind::DestinationInvalid => String::from_str("DestinationInvalid"),
            RejectionKind::CanisterReject => String::from_str("CanisterReject"),
            RejectionKind::CanisterError => String::from_str("CanisterError"),
            RejectionKind::Unknown => String::from_str("Unknown"),
        }
    }
}

/// Why a dispatch failed. Every variant ends the invocation; none is retried.
pub enum DispatchError {
    /// The document did not decode into a notification request.
    Decode { cause: String },
    /// The payload could not be encoded.
    Serialization { cause: String },
    /// The call did not reach the delivery service or got no reply.
    Transport { code: RejectionKind, message: String },
    /// The delivery service replied with a status outside `[200, 300)`.
    Remote { status: u64, body: String },
}

/// The decimal digit for `d < 10`.
pub open spec fn digit_char(d: nat) -> char {
    ((d + 48) as u8) as char
}

/// Decimal notation of `n`, without sign or leading zeros.
pub open spec fn decimal(n: nat) -> Seq<char>
    decreases n,
{
    if n < 10 {
        seq![digit_char(n)]
    } else {
        decimal(n / 10).push(digit_char(n % 10))
    }
}

/// The one-character text of a decimal digit.
fn digit_text(d: u64) -> (r: String)
    requires
        d < 10,
    ensures
        r@ == seq![digit_char(d as nat)],
{
    let s = if d == 0 {
        "0"
    } else if d == 1 {
        "1"
    } else if d == 2 {
        "2"
    } else if d == 3 {
        "3"
    } else if d == 4 {
        "4"
    } else if d == 5 {
        "5"
    } else if d == 6 {
        "6"
    } else if d == 7 {
        "7"
    } else if d == 8 {
        "8"
    } else {
        "9"
    };
    proof {
        reveal_strlit("0");
        reveal_strlit("1");
        reveal_strlit("2");
        reveal_strlit("3");
        reveal_strlit("4");
        reveal_strlit("5");
        reveal_strlit("6");
        reveal_strlit("7");
        reveal_strlit("8");
        reveal_strlit("9");
    }
    let r = String::from_str(s);
    assert(r@ =~= seq![digit_char(d as nat)]);
    r
}

/// Decimal notation of `n`.
pub fn decimal_text(n: u64) -> (r: String)
    ensures
        r@ == decimal(n as nat),
    decreases n,
{
    if n < 10 {
        digit_text(n)
    } else {
        let mut s = decimal_text(n / 10);
        let d = digit_text(n % 10);
        s.append(d.as_str());
        assert(s@ =~= decimal(n as nat));
        s
    }
}

/// The diagnostic text reported to the host for `e`.
pub open spec fn error_text(e: DispatchError) -> Seq<char> {
    match e {
        DispatchError::Decode { cause } => cause@,
        DispatchError::Serialization { cause } => "Failed to serialize email payload: "@ + cause@,
        DispatchError::Transport { code, message } => "HTTP request failed. RejectionCode: "@
            + rejection_name(code) + ", Error: "@ + message@,
        DispatchError::Remote { status, body } => "Email API returned status "@ + decimal(
            status as nat,
        ) + ": "@ + body@,
    }
}

impl DispatchError {
    /// The diagnostic text reported to the host.
    pub fn message(&self) -> (r: String)
        ensures
            r@ == error_text(*self),
    {
        match self {
            DispatchError::Decode { cause } => String::from_str(cause.as_str()),
            DispatchError::Serialization { cause } => {
                let mut s = String::from_str("Failed to serialize email payload: ");
                s.append(cause.as_str());
                s
            },
            DispatchError::Transport { code, message } => {
                let mut s = String::from_str("HTTP request failed. RejectionCode: ");
                let name = code.name();
                s.append(name.as_str());
                s.append(", Error: ");
                s.append(message.as_str());
                s
            },
            DispatchError::Remote { status, body } => {
                let mut s = String::from_str("Email API returned status ");
                let digits = decimal_text(*status);
                s.append(digits.as_str());
                s.append(": ");
                s.append(body.as_str());
                s
            },
        }
    }
}

} // verus!
