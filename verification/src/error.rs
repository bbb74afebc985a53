//! The failures that the session manager and the dispatcher report.

use crate::text::{decimal, push_decimal};
use vstd::prelude::*;
use vstd::string::*;

verus! {

/// What one attempt to reach the server ended with, where it did not succeed.
#[derive(Debug, PartialEq, Eq)]
pub enum Fault {
    /// No response arrived.
    Network { detail: String },
    /// A response arrived with a status outside 200 to 299.
    Status { code: u16, body: String },
}

/// The part of an authentication response that could not be read.
#[derive(Clone, Copy, Debug, PartialEq, Eq, Structural)]
pub enum Malformed {
    /// The body is no JSON object with a token and an expiry.
    Body,
    /// The token is the empty string.
    Token,
    /// The expiry is no date and time of the form `YYYY-MM-DD HH:MM:SS`.
    ExpiresAt,
}

/// Every failure a caller can see.
#[derive(Debug, PartialEq, Eq)]
pub enum SessionError {
    /// The transport failed before a response was complete.
    Network { detail: String },
    /// The server answered with a status outside 200 to 299.
    Status { code: u16, body: String },
    /// The authentication response could not be read; `detail` holds the parser's
    /// words or the text that was refused.
    Parse { part: Malformed, detail: String },
    /// The time zone name is none of the IANA database.
    InvalidTimezone { name: String },
    /// The expiry falls into a gap or an overlap of the zone's local time.
    AmbiguousLocalTime { local: String, zone: String },
    /// No session has been stored yet.
    NoSession,
    /// The stored session has run out and may not be renewed.
    TokenExpired,
    /// A renewal was tried and left no valid session; `detail` says what it ended with.
    RenewalFailed { detail: String },
    /// Every attempt failed in a way that allows another one.
    RetriesExhausted { attempts: u64, last: Fault },
}

/// `Fault` over sequences of characters.
pub enum FaultView {
    Network { detail: Seq<char> },
    Status { code: u16, body: Seq<char> },
}

/// `SessionError` over sequences of characters.
pub enum SessionErrorView {
    Network { detail: Seq<char> },
    Status { code: u16, body: Seq<char> },
    Parse { part: Malformed, detail: Seq<char> },
    InvalidTimezone { name: Seq<char> },
    AmbiguousLocalTime { local: Seq<char>, zone: Seq<char> },
    NoSession,
    TokenExpired,
    RenewalFailed { detail: Seq<char> },
    RetriesExhausted { attempts: u64, last: FaultView },
}

impl View for Fault {
    type V = FaultView;

    open spec fn view(&self) -> FaultView {
        match self {
            Fault::Network { detail } => FaultView::Network { detail: detail@ },
            Fault::Status { code, body } => FaultView::Status { code: *code, body: body@ },
        }
    }
}

impl View for SessionError {
    type V = SessionErrorView;

    open spec fn view(&self) -> SessionErrorView {
        match self {
            SessionError::Network { detail } => SessionErrorView::Network { detail: detail@ },
            SessionError::Status { code, body } => SessionErrorView::Status {
                code: *code,
                body: body@,
            },
            SessionError::Parse { part, detail } => SessionErrorView::Parse {
                part: *part,
                detail: detail@,
            },
            SessionError::InvalidTimezone { name } => SessionErrorView::InvalidTimezone {
                name: name@,
            },
            SessionError::AmbiguousLocalTime { local, zone } => {
                SessionErrorView::AmbiguousLocalTime { local: local@, zone: zone@ }
            },
            SessionError::NoSession => SessionErrorView::NoSession,
            SessionError::TokenExpired => SessionErrorView::TokenExpired,
            SessionError::RenewalFailed { detail } => SessionErrorView::RenewalFailed {
                detail: detail@,
            },
            SessionError::RetriesExhausted { attempts, last } => {
                SessionErrorView::RetriesExhausted { attempts: *attempts, last: last@ }
            },
        }
    }
}

impl FaultView {
    /// The failure as a caller's error, outside any count of attempts.
    pub open spec fn as_error(self) -> SessionErrorView {
        match self {
            FaultView::Network { detail } => SessionErrorView::Network { detail },
            FaultView::Status { code, body } => SessionErrorView::Status { code, body },
        }
    }

    /// The text of the failure.
    pub open spec fn message(self) -> Seq<char> {
        match self {
            FaultView::Network { detail } => "Request failed: "@ + detail,
            FaultView::Status { code, body } => "Request failed with status "@ + decimal(
                code as nat,
            ) + ": "@ + body,
        }
    }
}

impl SessionErrorView {
    /// The text of the error: what went wrong, with the status and body, the count of
    /// attempts, or the name and time that were refused.
    pub open spec fn message(self) -> Seq<char> {
        match self {
            SessionErrorView::Network { detail } => (FaultView::Network { detail }).message(),
            SessionErrorView::Status { code, body } => (FaultView::Status {
                code,
                body,
            }).message(),
            SessionErrorView::Parse { part, detail } => match part {
                Malformed::Body => "Invalid JSON: "@ + detail,
                Malformed::Token => "Invalid token: "@ + detail,
                Malformed::ExpiresAt => "Invalid expires_at format: "@ + detail,
            },
            SessionErrorView::InvalidTimezone { name } => "Invalid timezone provided: "@ + name,
            SessionErrorView::AmbiguousLocalTime { local, zone } => {
                "Ambiguous or invalid datetime in timezone: "@ + local + " in "@ + zone
            },
            SessionErrorView::NoSession => "Not authenticated. Call auth() first."@,
            SessionErrorView::TokenExpired => {
                "Token expired. Call .token(renew=True) first to enable automatic renewal."@
            },
            SessionErrorView::RenewalFailed { detail } => "Token renewal failed: "@ + detail,
            SessionErrorView::RetriesExhausted { attempts, last } => {
                "Request failed after "@ + decimal(attempts as nat) + " attempt(s): "@
                    + last.message()
            },
        }
    }
}

/// What is reported where no session is stored after a renewal.
pub open spec fn session_missing() -> Seq<char> {
    "Session missing after token renewal"@
}

/// What is reported where the session stored after a renewal is not valid.
pub open spec fn still_invalid() -> Seq<char> {
    "Token still invalid after renewal"@
}

impl Clone for Fault {
    fn clone(&self) -> (copy: Self)
        ensures
            copy == *self,
    {
        match self {
            Fault::Network { detail } => Fault::Network { detail: detail.clone() },
            Fault::Status { code, body } => Fault::Status { code: *code, body: body.clone() },
        }
    }
}

impl Fault {
    /// Appends the text of the failure to `out`.
    fn push_message(&self, out: &mut String)
        ensures
            final(out)@ == old(out)@ + self@.message(),
    {
        match self {
            Fault::Network { detail } => {
                out.append("Request failed: ");
                out.append(detail.as_str());
            },
            Fault::Status { code, body } => {
                out.append("Request failed with status ");
                push_decimal(out, *code as u64);
                out.append(": ");
                out.append(body.as_str());
            },
        }
    }

    /// The text of the failure.
    pub fn message(&self) -> (text: String)
        ensures
            text@ == self@.message(),
    {
        let mut text = String::new();
        self.push_message(&mut text);
        text
    }
}

impl SessionError {
    /// The text of the error.
    pub fn message(&self) -> (text: String)
        ensures
            text@ == self@.message(),
    {
        let mut text = String::new();
        match self {
            SessionError::Network { detail } => {
                text.append("Request failed: ");
                text.append(detail.as_str());
            },
            SessionError::Status { code, body } => {
                text.append("Request failed with status ");
                push_decimal(&mut text, *code as u64);
                text.append(": ");
                text.append(body.as_str());
            },
            SessionError::Parse { part, detail } => {
                match part {
                    Malformed::Body => text.append("Invalid JSON: "),
                    Malformed::Token => text.append("Invalid token: "),
                    Malformed::ExpiresAt => text.append("Invalid expires_at format: "),
                }
                text.append(detail.as_str());
            },
            SessionError::InvalidTimezone { name } => {
                text.append("Invalid timezone provided: ");
                text.append(name.as_str());
            },
            SessionError::AmbiguousLocalTime { local, zone } => {
                text.append("Ambiguous or invalid datetime in timezone: ");
                text.append(local.as_str());
                text.append(" in ");
                text.append(zone.as_str());
            },
            SessionError::NoSession => {
                text.append("Not authenticated. Call auth() first.");
            },
            SessionError::TokenExpired => {
                text.append(
                    "Token expired. Call .token(renew=True) first to enable automatic renewal.",
                );
            },
            SessionError::RenewalFailed { detail } => {
                text.append("Token renewal failed: ");
                text.append(detail.as_str());
            },
            SessionError::RetriesExhausted { attempts, last } => {
                text.append("Request failed after ");
                push_decimal(&mut text, *attempts);
                text.append(" attempt(s): ");
                last.push_message(&mut text);
            },
        }
        text
    }
}

impl Clone for SessionError {
    fn clone(&self) -> (copy: Self)
        ensures
            copy == *self,
    {
        match self {
            SessionError::Network { detail } => SessionError::Network { detail: detail.clone() },
            SessionError::Status { code, body } => SessionError::Status {
                code: *code,
                body: body.clone(),
            },
            SessionError::Parse { part, detail } => SessionError::Parse {
                part: *part,
                detail: detail.clone(),
            },
            SessionError::InvalidTimezone { name } => SessionError::InvalidTimezone {
                name: name.clone(),
            },
            SessionError::AmbiguousLocalTime { local, zone } => SessionError::AmbiguousLocalTime {
                local: local.clone(),
                zone: zone.clone(),
            },
            SessionError::NoSession => SessionError::NoSession,
            SessionError::TokenExpired => SessionError::TokenExpired,
            SessionError::RenewalFailed { detail } => SessionError::RenewalFailed {
                detail: detail.clone(),
            },
            SessionError::RetriesExhausted { attempts, last } => SessionError::RetriesExhausted {
                attempts: *attempts,
                last: last.clone(),
            },
        }
    }
}

} // verus!
