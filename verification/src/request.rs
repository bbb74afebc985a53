//! The authenticated request dispatcher: which request goes out for a call, under
//! which session, and what happens where the session has run out.

use crate::error::{session_missing, still_invalid, SessionError, SessionErrorView};
use crate::session::{Renewal, RenewalView, Session, SessionView};
use crate::state::SessionManager;
use crate::text::{
    ascii_lowered, decimal, eq_ignore_ascii_case, push_decimal, strip_leading, without_leading,
};
use crate::timestamp::{utc_now, Timestamp, NANOS_PER_SECOND};
use vstd::prelude::*;
use vstd::string::*;

verus! {

/// `serde_json::Value`: a JSON value, which the dispatcher carries from the caller to
/// the outgoing request without looking into it.
#[verifier::external_type_specification]
#[verifier::external_body]
pub struct ExJsonValue(serde_json::Value);

/// Seconds a request may take where the caller names no limit.
pub const DEFAULT_TIMEOUT_SECS: u64 = 10;

/// The two methods the dispatcher speaks.
#[derive(Clone, Copy, Debug, PartialEq, Eq, Structural)]
pub enum Method {
    Get,
    Post,
}

/// One call as the caller made it.
#[derive(Debug, PartialEq, Eq)]
pub struct Call {
    pub method: Method,
    /// Path below the session's host; slashes at its start do not count.
    pub path: String,
    /// Extra headers, in the caller's order.
    pub headers: Option<Vec<(String, String)>>,
    /// Query parameters.
    pub params: Option<Vec<(String, String)>>,
    /// The body.
    pub json: Option<serde_json::Value>,
    /// Seconds the request may take.
    pub timeout: Option<u64>,
    /// Whether the server's certificate is to be checked.
    pub verify: Option<bool>,
    /// Attempts allowed beyond the first.
    pub retry: Option<u32>,
}

/// The request that goes out, the same on every attempt.
#[derive(Debug, PartialEq, Eq)]
pub struct PreparedRequest {
    pub method: Method,
    pub url: String,
    pub headers: Vec<(String, String)>,
    pub query: Option<Vec<(String, String)>>,
    pub json: Option<serde_json::Value>,
    pub timeout_secs: u64,
    pub accept_invalid_certs: bool,
    pub max_retries: u32,
}

/// What the dispatcher asks for at the start of a call.
#[derive(Debug, PartialEq, Eq)]
pub enum Dispatch {
    /// The session is valid: send this request.
    Send { request: PreparedRequest },
    /// The session has run out and may be renewed: authenticate again as `renewal`
    /// says, then come back with `call` and `renewal.started`.
    Renew { renewal: Renewal, call: Call },
    /// The call fails before anything is sent.
    Fail { error: SessionError },
}

/// Name and value pairs over sequences of characters.
pub open spec fn pairs_view(pairs: Seq<(String, String)>) -> Seq<(Seq<char>, Seq<char>)> {
    Seq::new(pairs.len(), |i: int| (pairs[i].0@, pairs[i].1@))
}

/// Optional pairs over sequences of characters.
pub open spec fn optional_pairs_view(pairs: Option<Vec<(String, String)>>) -> Option<
    Seq<(Seq<char>, Seq<char>)>,
> {
    match pairs {
        Some(list) => Some(pairs_view(list@)),
        None => None,
    }
}

/// `Call` over sequences of characters.
pub struct CallView {
    pub method: Method,
    pub path: Seq<char>,
    pub headers: Option<Seq<(Seq<char>, Seq<char>)>>,
    pub params: Option<Seq<(Seq<char>, Seq<char>)>>,
    pub json: Option<serde_json::Value>,
    pub timeout: Option<u64>,
    pub verify: Option<bool>,
    pub retry: Option<u32>,
}

/// `PreparedRequest` over sequences of characters.
pub struct PreparedRequestView {
    pub method: Method,
    pub url: Seq<char>,
    pub headers: Seq<(Seq<char>, Seq<char>)>,
    pub query: Option<Seq<(Seq<char>, Seq<char>)>>,
    pub json: Option<serde_json::Value>,
    pub timeout_secs: u64,
    pub accept_invalid_certs: bool,
    pub max_retries: u32,
}

/// `Dispatch` over sequences of characters.
pub enum DispatchView {
    Send { request: PreparedRequestView },
    Renew { renewal: RenewalView, call: CallView },
    Fail { error: SessionErrorView },
}

impl View for Call {
    type V = CallView;

    open spec fn view(&self) -> CallView {
        CallView {
            method: self.method,
            path: self.path@,
            headers: optional_pairs_view(self.headers),
            params: optional_pairs_view(self.params),
            json: self.json,
            timeout: self.timeout,
            verify: self.verify,
            retry: self.retry,
        }
    }
}

impl View for PreparedRequest {
    type V = PreparedRequestView;

    open spec fn view(&self) -> PreparedRequestView {
        PreparedRequestView {
            method: self.method,
            url: self.url@,
            headers: pairs_view(self.headers@),
            query: optional_pairs_view(self.query),
            json: self.json,
            timeout_secs: self.timeout_secs,
            accept_invalid_certs: self.accept_invalid_certs,
            max_retries: self.max_retries,
        }
    }
}

impl View for Dispatch {
    type V = DispatchView;

    open spec fn view(&self) -> DispatchView {
        match self {
            Dispatch::Send { request } => DispatchView::Send { request: request@ },
            Dispatch::Renew { renewal, call } => DispatchView::Renew {
                renewal: renewal@,
                call: call@,
            },
            Dispatch::Fail { error } => DispatchView::Fail { error: error@ },
        }
    }
}

/// Whether a header's name is `Authorization`, in any mix of upper and lower case.
pub open spec fn is_authorization(name: Seq<char>) -> bool {
    ascii_lowered(name) == "authorization"@
}

/// The caller's headers that go out: all but those named `Authorization`, in the
/// caller's order.
pub open spec fn kept_headers(given: Seq<(Seq<char>, Seq<char>)>) -> Seq<(Seq<char>, Seq<char>)>
    decreases given.len(),
{
    if given.len() == 0 {
        given
    } else if is_authorization(given.last().0) {
        kept_headers(given.drop_last())
    } else {
        kept_headers(given.drop_last()).push(given.last())
    }
}

/// The header that carries the session's token.
pub open spec fn bearer_header(token: Seq<char>) -> (Seq<char>, Seq<char>) {
    ("Authorization"@, "Bearer "@ + token)
}

/// The headers of the outgoing request: the session's bearer header first, then what
/// is kept of the caller's.
pub open spec fn outgoing_headers(
    token: Seq<char>,
    given: Option<Seq<(Seq<char>, Seq<char>)>>,
) -> Seq<(Seq<char>, Seq<char>)> {
    seq![bearer_header(token)] + match given {
        Some(list) => kept_headers(list),
        None => Seq::empty(),
    }
}

/// `https://{host}:{port}/{path}`, the path without the slashes at its start.
pub open spec fn request_url(host: Seq<char>, port: u16, path: Seq<char>) -> Seq<char> {
    "https://"@ + host + ":"@ + decimal(port as nat) + "/"@ + without_leading(path, '/')
}

/// The request that `call` becomes under `session`.
///
/// Without a word from the caller the request may take ten seconds, the server's
/// certificate is not checked, and there is one attempt only.
pub open spec fn prepared(session: SessionView, call: CallView) -> PreparedRequestView {
    PreparedRequestView {
        method: call.method,
        url: request_url(session.host, session.port, call.path),
        headers: outgoing_headers(session.token, call.headers),
        query: call.params,
        json: call.json,
        timeout_secs: match call.timeout {
            Some(t) => t,
            None => DEFAULT_TIMEOUT_SECS,
        },
        accept_invalid_certs: match call.verify {
            Some(v) => !v,
            None => true,
        },
        max_retries: match call.retry {
            Some(n) => n,
            None => 0,
        },
    }
}

/// How a call starts at `now`: without a session it fails; under a valid session the
/// request goes out; under one that has run out (its expiry is `now` or earlier) the
/// session is renewed first if the policy allows it, and the call fails if not.
pub open spec fn dispatch_of(
    session: Option<SessionView>,
    renewal_allowed: bool,
    now: Timestamp,
    call: CallView,
) -> DispatchView {
    match session {
        None => DispatchView::Fail { error: SessionErrorView::NoSession },
        Some(s) => {
            if s.valid_at(now) {
                DispatchView::Send { request: prepared(s, call) }
            } else if renewal_allowed {
                DispatchView::Renew { renewal: s.renewal(now), call }
            } else {
                DispatchView::Fail { error: SessionErrorView::TokenExpired }
            }
        },
    }
}

/// How a call goes on after the renewal that began at `started`: the request goes out
/// if the session now stored is valid at `started`, and the call fails if not.
pub open spec fn resumed(
    session: Option<SessionView>,
    started: Timestamp,
    call: CallView,
) -> Result<PreparedRequestView, SessionErrorView> {
    match session {
        None => Err(SessionErrorView::RenewalFailed { detail: session_missing() }),
        Some(s) => {
            if s.valid_at(started) {
                Ok(prepared(s, call))
            } else {
                Err(SessionErrorView::RenewalFailed { detail: still_invalid() })
            }
        },
    }
}

/// A `Result` of the dispatcher over sequences of characters.
pub open spec fn prepared_result_view(result: Result<PreparedRequest, SessionError>) -> Result<
    PreparedRequestView,
    SessionErrorView,
> {
    match result {
        Ok(request) => Ok(request@),
        Err(error) => Err(error@),
    }
}

/// Whether a header's name is `Authorization`, in any mix of upper and lower case.
pub fn is_authorization_name(name: &str) -> (matches: bool)
    ensures
        matches == is_authorization(name@),
{
    proof {
        reveal_strlit("authorization");
        assert(ascii_lowered("authorization"@) =~= "authorization"@);
    }
    eq_ignore_ascii_case(name, "authorization")
}

/// The headers of the outgoing request: the bearer header of `token`, then the
/// caller's headers but for any `Authorization` among them.
pub fn build_headers(token: &str, given: &Option<Vec<(String, String)>>) -> (headers: Vec<
    (String, String),
>)
    ensures
        pairs_view(headers@) == outgoing_headers(token@, optional_pairs_view(*given)),
{
    let mut value = String::from_str("Bearer ");
    value.append(token);
    let mut headers: Vec<(String, String)> = Vec::new();
    headers.push((String::from_str("Authorization"), value));
    match given {
        None => {},
        Some(list) => {
            let ghost all = pairs_view(list@);
            let mut i: usize = 0;
            while i < list.len()
                invariant
                    i <= list.len(),
                    all == pairs_view(list@),
                    pairs_view(headers@) == seq![bearer_header(token@)] + kept_headers(
                        all.take(i as int),
                    ),
                decreases list.len() - i,
            {
                let pair = &list[i];
                proof {
                    assert(all.take(i as int + 1).drop_last() =~= all.take(i as int));
                }
                if !is_authorization_name(pair.0.as_str()) {
                    let ghost before = pairs_view(headers@);
                    headers.push((pair.0.clone(), pair.1.clone()));
                    assert(pairs_view(headers@) =~= before.push(all[i as int]));
                }
                i += 1;
            }
            assert(all.take(list.len() as int) =~= all);
        },
    }
    headers
}

/// The URL of `path` on the session's host.
pub fn build_url(host: &str, port: u16, path: &str) -> (url: String)
    ensures
        url@ == request_url(host@, port, path@),
{
    let mut url = String::from_str("https://");
    url.append(host);
    url.append(":");
    push_decimal(&mut url, port as u64);
    url.append("/");
    url.append(strip_leading(path, '/'));
    url
}

/// The request that `call` becomes under `session`.
pub fn build_request(session: &Session, call: Call) -> (request: PreparedRequest)
    ensures
        request@ == prepared(session@, call@),
{
    let Call { method, path, headers, params, json, timeout, verify, retry } = call;
    PreparedRequest {
        method,
        url: build_url(session.host.as_str(), session.port, path.as_str()),
        headers: build_headers(session.token.as_str(), &headers),
        query: params,
        json,
        timeout_secs: match timeout {
            Some(t) => t,
            None => DEFAULT_TIMEOUT_SECS,
        },
        accept_invalid_certs: match verify {
            Some(v) => !v,
            None => true,
        },
        max_retries: match retry {
            Some(n) => n,
            None => 0,
        },
    }
}

/// Starts `call` at `now`.
///
/// Nothing is sent and nothing is stored here: the answer says what to do next.
pub fn make_request(manager: &SessionManager, now: Timestamp, call: Call) -> (step: Dispatch)
    ensures
        step@ == dispatch_of(manager.store@, manager.policy@, now, call@),
{
    match manager.store.peek() {
        None => Dispatch::Fail { error: SessionError::NoSession },
        Some(session) => {
            if session.expires_at.is_after(&now) {
                Dispatch::Send { request: build_request(session, call) }
            } else if manager.policy.allowed() {
                Dispatch::Renew { renewal: session.renewal(now), call }
            } else {
                Dispatch::Fail { error: SessionError::TokenExpired }
            }
        },
    }
}

/// Goes on with `call` after the renewal that began at `started`, under whatever
/// session is stored by now.
pub fn resume_request(manager: &SessionManager, started: Timestamp, call: Call) -> (result:
    Result<PreparedRequest, SessionError>)
    ensures
        prepared_result_view(result) == resumed(manager.store@, started, call@),
{
    match manager.store.peek() {
        None => Err(
            SessionError::RenewalFailed {
                detail: String::from_str("Session missing after token renewal"),
            },
        ),
        Some(session) => {
            if session.expires_at.is_after(&started) {
                Ok(build_request(session, call))
            } else {
                Err(
                    SessionError::RenewalFailed {
                        detail: String::from_str("Token still invalid after renewal"),
                    },
                )
            }
        },
    }
}

/// The call that `get` makes of its arguments.
pub open spec fn get_call(
    path: Seq<char>,
    headers: Option<Seq<(Seq<char>, Seq<char>)>>,
    params: Option<Seq<(Seq<char>, Seq<char>)>>,
    timeout: Option<u64>,
    verify: Option<bool>,
    retry: Option<u32>,
) -> CallView {
    CallView { method: Method::Get, path, headers, params, json: None, timeout, verify, retry }
}

/// The call that `post` makes of its arguments.
pub open spec fn post_call(
    path: Seq<char>,
    headers: Option<Seq<(Seq<char>, Seq<char>)>>,
    json: Option<serde_json::Value>,
    timeout: Option<u64>,
    verify: Option<bool>,
    retry: Option<u32>,
) -> CallView {
    CallView { method: Method::Post, path, headers, params: None, json, timeout, verify, retry }
}

/// Starts a GET of `path` at the time the clock shows.
///
/// The step is the one `make_request` takes at some moment `now`; which moment the
/// clock gave is not known here.
pub fn get(
    manager: &SessionManager,
    path: String,
    headers: Option<Vec<(String, String)>>,
    params: Option<Vec<(String, String)>>,
    timeout: Option<u64>,
    verify: Option<bool>,
    retry: Option<u32>,
) -> (step: Dispatch)
    ensures
        exists|now: Timestamp|
            now.wf() && now.nanos < NANOS_PER_SECOND && step@ == #[trigger] dispatch_of(
                manager.store@,
                manager.policy@,
                now,
                get_call(
                    path@,
                    optional_pairs_view(headers),
                    optional_pairs_view(params),
                    timeout,
                    verify,
                    retry,
                ),
            ),
{
    let call = Call {
        method: Method::Get,
        path,
        headers,
        params,
        json: None,
        timeout,
        verify,
        retry,
    };
    make_request(manager, utc_now(), call)
}

/// Starts a POST to `path`, with `json` as its body, at the time the clock shows.
///
/// The step is the one `make_request` takes at some moment `now`; which moment the
/// clock gave is not known here.
pub fn post(
    manager: &SessionManager,
    path: String,
    headers: Option<Vec<(String, String)>>,
    json: Option<serde_json::Value>,
    timeout: Option<u64>,
    verify: Option<bool>,
    retry: Option<u32>,
) -> (step: Dispatch)
    ensures
        exists|now: Timestamp|
            now.wf() && now.nanos < NANOS_PER_SECOND && step@ == #[trigger] dispatch_of(
                manager.store@,
                manager.policy@,
                now,
                post_call(path@, optional_pairs_view(headers), json, timeout, verify, retry),
            ),
{
    let call = Call {
        method: Method::Post,
        path,
        headers,
        params: None,
        json,
        timeout,
        verify,
        retry,
    };
    make_request(manager, utc_now(), call)
}

/// What is kept of the caller's headers holds no `Authorization`, and is exactly the
/// caller's other headers in their order.
pub proof fn lemma_kept_headers(given: Seq<(Seq<char>, Seq<char>)>)
    ensures
        forall|i: int|
            0 <= i < kept_headers(given).len() ==> !is_authorization(
                (#[trigger] kept_headers(given)[i]).0,
            ),
        kept_headers(given) == given.filter(|h: (Seq<char>, Seq<char>)| !is_authorization(h.0)),
    decreases given.len(),
{
    reveal(Seq::filter);
    if given.len() > 0 {
        lemma_kept_headers(given.drop_last());
    }
}

/// Whatever headers the caller supplies, exactly one `Authorization` header goes out:
/// the first header, which carries the session's token. No header after it is named
/// `Authorization` in any mix of case, so none of the caller's replaces or joins it.
pub proof fn lemma_one_authorization_header(
    token: Seq<char>,
    given: Option<Seq<(Seq<char>, Seq<char>)>>,
)
    ensures
        outgoing_headers(token, given).len() >= 1,
        outgoing_headers(token, given)[0] == bearer_header(token),
        is_authorization(bearer_header(token).0),
        forall|i: int|
            1 <= i < outgoing_headers(token, given).len() ==> !is_authorization(
                (#[trigger] outgoing_headers(token, given)[i]).0,
            ),
{
    reveal_strlit("Authorization");
    reveal_strlit("authorization");
    assert(ascii_lowered("Authorization"@) =~= "authorization"@);
    if let Some(list) = given {
        lemma_kept_headers(list);
    }
}

/// The request that goes out for a call carries the session's token and no
/// `Authorization` of the caller's.
pub proof fn lemma_request_carries_the_session_token(session: SessionView, call: CallView)
    ensures
        prepared(session, call).headers.len() >= 1,
        prepared(session, call).headers[0] == bearer_header(session.token),
        forall|i: int|
            1 <= i < prepared(session, call).headers.len() ==> !is_authorization(
                (#[trigger] prepared(session, call).headers[i]).0,
            ),
{
    lemma_one_authorization_header(session.token, call.headers);
}

} // verus!
