//! The authentication handshake: what is sent to `/auth`, and what becomes of the
//! server's answer.

use crate::error::{Malformed, SessionError, SessionErrorView};
use crate::retry::{is_success, spec_is_success};
use crate::session::{
    logged_at, AuthRequest, AuthResponse, AuthResponseView, Session, SessionView,
};
use crate::state::SessionManager;
use crate::text::{
    decimal, optional_str, optional_text, push_decimal, same_text, strip_trailing, trim, trimmed,
    without_trailing,
};
use crate::timestamp::Timestamp;
use crate::zone::{default_zone, expiry_of, expiry_view, resolve_expiry};
use vstd::prelude::*;
use vstd::string::*;

verus! {

/// The JSON object that is posted: the credentials, and the one-time code where there
/// is one.
#[derive(Debug, PartialEq, Eq)]
pub struct AuthBody {
    pub username: String,
    pub password: String,
    pub totp_code: Option<String>,
}

/// The handshake's request.
#[derive(Debug, PartialEq, Eq)]
pub struct AuthCall {
    pub url: String,
    pub body: AuthBody,
    /// Always `true`: the handshake trusts whatever certificate the server shows. This
    /// is unsafe on an open network, and it is how the service is meant to be reached.
    pub accept_invalid_certs: bool,
}

/// What came back from the handshake's request.
#[derive(Debug, PartialEq, Eq)]
pub enum HandshakeReply {
    /// The request could not be sent, or no response came.
    Failed { detail: String },
    /// A response came, and its body could not be read.
    Unreadable { status: u16, detail: String },
    /// A response came whole: its status, its body as text, and the body read as
    /// JSON, or the reason why it could not be.
    Response { status: u16, body: String, parsed: Result<AuthResponse, String> },
}

/// `AuthBody` over sequences of characters.
pub struct AuthBodyView {
    pub username: Seq<char>,
    pub password: Seq<char>,
    pub totp_code: Option<Seq<char>>,
}

/// `AuthCall` over sequences of characters.
pub struct AuthCallView {
    pub url: Seq<char>,
    pub body: AuthBodyView,
    pub accept_invalid_certs: bool,
}

/// `HandshakeReply` over sequences of characters.
pub enum HandshakeReplyView {
    Failed { detail: Seq<char> },
    Unreadable { status: u16, detail: Seq<char> },
    Response { status: u16, body: Seq<char>, parsed: Result<AuthResponseView, Seq<char>> },
}

impl View for AuthBody {
    type V = AuthBodyView;

    open spec fn view(&self) -> AuthBodyView {
        AuthBodyView {
            username: self.username@,
            password: self.password@,
            totp_code: match self.totp_code {
                Some(code) => Some(code@),
                None => None,
            },
        }
    }
}

impl View for AuthCall {
    type V = AuthCallView;

    open spec fn view(&self) -> AuthCallView {
        AuthCallView {
            url: self.url@,
            body: self.body@,
            accept_invalid_certs: self.accept_invalid_certs,
        }
    }
}

impl View for HandshakeReply {
    type V = HandshakeReplyView;

    open spec fn view(&self) -> HandshakeReplyView {
        match self {
            HandshakeReply::Failed { detail } => HandshakeReplyView::Failed { detail: detail@ },
            HandshakeReply::Unreadable { status, detail } => HandshakeReplyView::Unreadable {
                status: *status,
                detail: detail@,
            },
            HandshakeReply::Response { status, body, parsed } => HandshakeReplyView::Response {
                status: *status,
                body: body@,
                parsed: match parsed {
                    Ok(response) => Ok(response@),
                    Err(detail) => Err(detail@),
                },
            },
        }
    }
}

/// `https://{host}:{port}/auth`, the host without the slashes at its end.
pub open spec fn auth_url(host: Seq<char>, port: u16) -> Seq<char> {
    "https://"@ + without_trailing(host, '/') + ":"@ + decimal(port as nat) + "/auth"@
}

/// Whether a code, already without the white space around it, is sent: not if it is
/// empty or the word `null`.
pub open spec fn code_is_sent(code: Seq<char>) -> bool {
    code.len() > 0 && code != "null"@
}

/// The one-time code that is sent: the caller's code without the white space around
/// it, unless that is empty or the word `null`.
pub open spec fn totp_code(totp: Option<Seq<char>>) -> Option<Seq<char>> {
    match totp {
        Some(given) if code_is_sent(trimmed(given)) => Some(trimmed(given)),
        _ => None,
    }
}

/// The handshake's request for the given host and credentials.
pub open spec fn auth_call(
    host: Seq<char>,
    port: u16,
    username: Seq<char>,
    password: Seq<char>,
    totp: Option<Seq<char>>,
) -> AuthCallView {
    AuthCallView {
        url: auth_url(host, port),
        body: AuthBodyView { username, password, totp_code: totp_code(totp) },
        accept_invalid_certs: true,
    }
}

/// What the empty token is refused with.
pub open spec fn empty_token() -> Seq<char> {
    "the token is empty"@
}

/// The zone in which the expiry is read: the caller's, or UTC.
pub open spec fn zone_or_default(timezone: Option<Seq<char>>) -> Seq<char> {
    match timezone {
        Some(zone) => zone,
        None => default_zone(),
    }
}

/// The server's answer in a reply, or the error that the reply amounts to.
///
/// In this order: a reply that never came is a network error; a status outside 200 to
/// 299 is a status error, whatever the body; a body that cannot be read is a network
/// error, and one that is no authentication response a parse error.
pub open spec fn answer_in(reply: HandshakeReplyView) -> Result<
    AuthResponseView,
    SessionErrorView,
> {
    match reply {
        HandshakeReplyView::Failed { detail } => Err(SessionErrorView::Network { detail }),
        HandshakeReplyView::Unreadable { status, detail } => {
            if !spec_is_success(status) {
                Err(SessionErrorView::Status { code: status, body: Seq::empty() })
            } else {
                Err(SessionErrorView::Network { detail })
            }
        },
        HandshakeReplyView::Response { status, body, parsed } => {
            if !spec_is_success(status) {
                Err(SessionErrorView::Status { code: status, body })
            } else {
                match parsed {
                    Err(detail) => Err(SessionErrorView::Parse { part: Malformed::Body, detail }),
                    Ok(response) => Ok(response),
                }
            }
        },
    }
}

/// The session made of a token and a resolved expiry, or the error that keeps it from
/// being made: an empty token is a parse error, and an expiry that could not be
/// resolved is the error of its resolution. The session keeps host, port, credentials
/// and the zone's name as they were given.
pub open spec fn session_of(
    host: Seq<char>,
    port: u16,
    username: Seq<char>,
    password: Seq<char>,
    zone: Seq<char>,
    token: Seq<char>,
    expiry: Result<Timestamp, SessionErrorView>,
) -> Result<SessionView, SessionErrorView> {
    if token.len() == 0 {
        Err(SessionErrorView::Parse { part: Malformed::Token, detail: empty_token() })
    } else {
        match expiry {
            Err(error) => Err(error),
            Ok(expires_at) => Ok(
                SessionView { token, expires_at, host, port, username, password, timezone: zone },
            ),
        }
    }
}

/// The session that a handshake yields, or the error it ends with: the reply is looked
/// at first, then the token, then the expiry is read in the caller's zone.
pub open spec fn handshake_session(
    host: Seq<char>,
    port: u16,
    username: Seq<char>,
    password: Seq<char>,
    timezone: Option<Seq<char>>,
    reply: HandshakeReplyView,
) -> Result<SessionView, SessionErrorView> {
    match answer_in(reply) {
        Err(error) => Err(error),
        Ok(response) => session_of(
            host,
            port,
            username,
            password,
            zone_or_default(timezone),
            response.token,
            expiry_of(response.expires_at, zone_or_default(timezone)),
        ),
    }
}

/// What a handshake leaves in the store: the new session, or on failure what was
/// there before.
pub open spec fn store_after(
    before: Option<SessionView>,
    outcome: Result<SessionView, SessionErrorView>,
) -> Option<SessionView> {
    match outcome {
        Ok(session) => Some(session),
        Err(_) => before,
    }
}

/// What a handshake reports: nothing, or the error it ended with.
pub open spec fn report_of(outcome: Result<SessionView, SessionErrorView>) -> Result<
    (),
    SessionErrorView,
> {
    match outcome {
        Ok(_) => Ok(()),
        Err(error) => Err(error),
    }
}

/// A handshake's report over sequences of characters.
pub open spec fn handshake_view(handshake: Result<(), SessionError>) -> Result<
    (),
    SessionErrorView,
> {
    match handshake {
        Ok(_) => Ok(()),
        Err(error) => Err(error@),
    }
}

/// The server's answer over sequences of characters.
pub open spec fn answer_view(answer: Result<AuthResponse, SessionError>) -> Result<
    AuthResponseView,
    SessionErrorView,
> {
    match answer {
        Ok(response) => Ok(response@),
        Err(error) => Err(error@),
    }
}

/// The code to send, given the caller's code without the white space around it.
pub fn code_to_send(code: &str) -> (sent: Option<String>)
    ensures
        optional_text(sent) == if code_is_sent(code@) {
            Some(code@)
        } else {
            None
        },
{
    if code.unicode_len() == 0 || same_text(code, "null") {
        None
    } else {
        Some(String::from_str(code))
    }
}

/// The one-time code that is sent, if any.
pub fn usable_totp(totp: Option<&str>) -> (code: Option<String>)
    ensures
        optional_text(code) == totp_code(optional_str(totp)),
{
    match totp {
        None => None,
        Some(given) => code_to_send(trim(given)),
    }
}

/// The handshake's request: a POST of the credentials to `/auth` on the host.
pub fn auth_request(
    host: &str,
    port: u16,
    username: &str,
    password: &str,
    totp: Option<&str>,
) -> (call: AuthCall)
    ensures
        call@ == auth_call(host@, port, username@, password@, optional_str(totp)),
{
    let mut url = String::from_str("https://");
    url.append(strip_trailing(host, '/'));
    url.append(":");
    push_decimal(&mut url, port as u64);
    url.append("/auth");
    AuthCall {
        url,
        body: AuthBody {
            username: String::from_str(username),
            password: String::from_str(password),
            totp_code: usable_totp(totp),
        },
        accept_invalid_certs: true,
    }
}

/// Takes the server's answer out of a reply: see `answer_in`.
pub fn check_reply(reply: HandshakeReply) -> (answer: Result<AuthResponse, SessionError>)
    ensures
        answer_view(answer) == answer_in(reply@),
{
    match reply {
        HandshakeReply::Failed { detail } => Err(SessionError::Network { detail }),
        HandshakeReply::Unreadable { status, detail } => {
            if !is_success(status) {
                Err(SessionError::Status { code: status, body: String::new() })
            } else {
                Err(SessionError::Network { detail })
            }
        },
        HandshakeReply::Response { status, body, parsed } => {
            if !is_success(status) {
                Err(SessionError::Status { code: status, body })
            } else {
                match parsed {
                    Err(detail) => Err(SessionError::Parse { part: Malformed::Body, detail }),
                    Ok(response) => Ok(response),
                }
            }
        },
    }
}

/// Stores the session made of `token` and the resolved `expiry`, in place of whatever
/// was stored; or reports why there is no such session and leaves the store as it was:
/// see `session_of`.
pub fn store_session(
    manager: &mut SessionManager,
    host: String,
    port: u16,
    username: String,
    password: String,
    zone: String,
    token: String,
    expiry: Result<Timestamp, SessionError>,
) -> (result: Result<(), SessionError>)
    requires
        expiry matches Ok(utc) ==> utc.wf(),
    ensures
        handshake_view(result) == report_of(
            session_of(host@, port, username@, password@, zone@, token@, expiry_view(expiry)),
        ),
        final(manager).store@ == store_after(
            old(manager).store@,
            session_of(host@, port, username@, password@, zone@, token@, expiry_view(expiry)),
        ),
        result is Ok ==> (final(manager).store@ matches Some(session) && session.wf()),
        final(manager).policy@ == old(manager).policy@,
        old(manager).wf() ==> final(manager).wf(),
{
    if token.as_str().unicode_len() == 0 {
        return Err(
            SessionError::Parse {
                part: Malformed::Token,
                detail: String::from_str("the token is empty"),
            },
        );
    }
    match expiry {
        Err(error) => Err(error),
        Ok(expires_at) => {
            let session = Session {
                token,
                expires_at,
                host,
                port,
                auth: AuthRequest { username, password },
                timezone: zone,
            };
            manager.store.set(session);
            Ok(())
        },
    }
}

/// Completes a handshake: on success the new session takes the place of whatever was
/// stored, even a session on another host; on failure the store is left as it was.
/// The renewal policy is not touched.
pub fn auth(
    manager: &mut SessionManager,
    host: String,
    port: u16,
    username: String,
    password: String,
    timezone: Option<String>,
    reply: HandshakeReply,
) -> (result: Result<(), SessionError>)
    ensures
        handshake_view(result) == report_of(
            handshake_session(host@, port, username@, password@, optional_text(timezone), reply@),
        ),
        final(manager).store@ == store_after(
            old(manager).store@,
            handshake_session(host@, port, username@, password@, optional_text(timezone), reply@),
        ),
        result is Ok ==> (final(manager).store@ matches Some(session) && session.wf()),
        final(manager).policy@ == old(manager).policy@,
        old(manager).wf() ==> final(manager).wf(),
{
    match check_reply(reply) {
        Err(error) => Err(error),
        Ok(response) => {
            let zone = match timezone {
                Some(zone) => zone,
                None => String::from_str("UTC"),
            };
            let expiry = resolve_expiry(response.expires_at.as_str(), zone.as_str());
            store_session(manager, host, port, username, password, zone, response.token, expiry)
        },
    }
}

/// After a handshake that succeeded, the stored session is the one the server
/// described: it carries the server's token, which is not empty; it runs out at the
/// instant that the server's expiry names in the caller's zone; and it counts as
/// logged in at every moment before that instant, and at no other.
pub proof fn lemma_handshake_stores_the_session(
    before: Option<SessionView>,
    host: Seq<char>,
    port: u16,
    username: Seq<char>,
    password: Seq<char>,
    timezone: Option<Seq<char>>,
    reply: HandshakeReplyView,
    now: Timestamp,
)
    requires
        handshake_session(host, port, username, password, timezone, reply) is Ok,
    ensures
        store_after(before, handshake_session(host, port, username, password, timezone, reply))
            matches Some(session) && (reply matches HandshakeReplyView::Response {
            status,
            parsed: Ok(response),
            ..
        } && {
            &&& spec_is_success(status)
            &&& session.token == response.token
            &&& session.token.len() > 0
            &&& session.timezone == zone_or_default(timezone)
            &&& expiry_of(response.expires_at, zone_or_default(timezone)) == Ok::<
                Timestamp,
                SessionErrorView,
            >(session.expires_at)
            &&& logged_at(Some(session), now) <==> session.expires_at.spec_is_after(now)
        }),
{
}

} // verus!
