//! The token accessor: whether the session is valid, how long it still lasts, and the
//! three ways of asking for a token.

use crate::auth::handshake_view;
use crate::error::{still_invalid, SessionError, SessionErrorView};
use crate::session::{logged_at, state_at, Renewal, RenewalView, SessionState, SessionView};
use crate::state::SessionManager;
use crate::timestamp::{
    elapsed_nanos, leap_adjustment, seconds_between, utc_now, whole_seconds_between, Timestamp,
    NANOS_PER_SECOND,
};
use vstd::prelude::*;
use vstd::string::*;

verus! {

/// The answer to a call of the accessor.
#[derive(Debug, PartialEq, Eq)]
pub enum TokenReply {
    /// The token, for a call that named no mode.
    Token { token: String },
    /// Whether a valid session is held, for a call in probe or renew mode.
    Valid { valid: bool },
}

/// What the accessor asks for at the start of a call.
#[derive(Debug, PartialEq, Eq)]
pub enum TokenStep {
    /// The call is answered.
    Done { reply: TokenReply },
    /// Authenticate again as `renewal` says, then come back with `renewal.started`.
    Renew { renewal: Renewal },
    /// The call fails.
    Fail { error: SessionError },
}

/// `TokenReply` over sequences of characters.
pub enum TokenReplyView {
    Token { token: Seq<char> },
    Valid { valid: bool },
}

/// `TokenStep` over sequences of characters.
pub enum TokenStepView {
    Done { reply: TokenReplyView },
    Renew { renewal: RenewalView },
    Fail { error: SessionErrorView },
}

impl View for TokenReply {
    type V = TokenReplyView;

    open spec fn view(&self) -> TokenReplyView {
        match self {
            TokenReply::Token { token } => TokenReplyView::Token { token: token@ },
            TokenReply::Valid { valid } => TokenReplyView::Valid { valid: *valid },
        }
    }
}

impl View for TokenStep {
    type V = TokenStepView;

    open spec fn view(&self) -> TokenStepView {
        match self {
            TokenStep::Done { reply } => TokenStepView::Done { reply: reply@ },
            TokenStep::Renew { renewal } => TokenStepView::Renew { renewal: renewal@ },
            TokenStep::Fail { error } => TokenStepView::Fail { error: error@ },
        }
    }
}

/// The whole seconds for which the session still lasts at `now`; zero once it has run
/// out.
pub open spec fn lease(session: SessionView, now: Timestamp) -> int {
    let left = seconds_between(session.expires_at, now);
    if left > 0 {
        left
    } else {
        0
    }
}

/// The lease of the stored session, which fails where none is stored.
pub open spec fn lease_of(session: Option<SessionView>, now: Timestamp) -> Result<
    int,
    SessionErrorView,
> {
    match session {
        None => Err(SessionErrorView::NoSession),
        Some(s) => Ok(lease(s, now)),
    }
}

/// A lease over sequences of characters.
pub open spec fn lease_view(result: Result<i64, SessionError>) -> Result<int, SessionErrorView> {
    match result {
        Ok(seconds) => Ok(seconds as int),
        Err(error) => Err(error@),
    }
}

/// The policy after a call: a call that names a mode sets it, any other leaves it.
pub open spec fn policy_after(policy: bool, renew: Option<bool>) -> bool {
    match renew {
        Some(allow) => allow,
        None => policy,
    }
}

/// How a call of the accessor starts at `now`.
///
/// Without a mode: the token of a valid session; no session is an error; a session
/// that has run out is renewed if the policy allows it and is an error if not.
/// In probe mode (`Some(false)`): whether a valid session is held, and never a renewal.
/// In renew mode (`Some(true)`): `true` under a valid session, `false` without any
/// session, and a renewal of a session that has run out.
pub open spec fn token_step(
    session: Option<SessionView>,
    policy: bool,
    now: Timestamp,
    renew: Option<bool>,
) -> TokenStepView {
    match renew {
        None => match session {
            None => TokenStepView::Fail { error: SessionErrorView::NoSession },
            Some(s) => {
                if s.valid_at(now) {
                    TokenStepView::Done { reply: TokenReplyView::Token { token: s.token } }
                } else if policy {
                    TokenStepView::Renew { renewal: s.renewal(now) }
                } else {
                    TokenStepView::Fail { error: SessionErrorView::TokenExpired }
                }
            },
        },
        Some(false) => TokenStepView::Done {
            reply: TokenReplyView::Valid { valid: logged_at(session, now) },
        },
        Some(true) => match session {
            None => TokenStepView::Done { reply: TokenReplyView::Valid { valid: false } },
            Some(s) => {
                if s.valid_at(now) {
                    TokenStepView::Done { reply: TokenReplyView::Valid { valid: true } }
                } else {
                    TokenStepView::Renew { renewal: s.renewal(now) }
                }
            },
        },
    }
}

/// How a call ends after the renewal that began at `started`, given how the handshake
/// went and which session is stored by now.
///
/// With a mode the answer is a boolean, `true` only if the handshake succeeded and the
/// stored session is valid at `started`: a failed handshake is no error here. Without
/// a mode the answer is the new token, and anything else is an error that says what
/// the renewal ended with.
pub open spec fn renewed(
    session: Option<SessionView>,
    started: Timestamp,
    renew: Option<bool>,
    handshake: Result<(), SessionErrorView>,
) -> Result<TokenReplyView, SessionErrorView> {
    match renew {
        Some(_) => Ok(
            TokenReplyView::Valid { valid: handshake is Ok && logged_at(session, started) },
        ),
        None => match handshake {
            Err(error) => Err(SessionErrorView::RenewalFailed { detail: error.message() }),
            Ok(_) => match session {
                Some(s) if s.valid_at(started) => Ok(TokenReplyView::Token { token: s.token }),
                _ => Err(SessionErrorView::RenewalFailed { detail: still_invalid() }),
            },
        },
    }
}

/// An answer of the accessor over sequences of characters.
pub open spec fn reply_view(result: Result<TokenReply, SessionError>) -> Result<
    TokenReplyView,
    SessionErrorView,
> {
    match result {
        Ok(reply) => Ok(reply@),
        Err(error) => Err(error@),
    }
}

/// Whether a session is held that is valid at `now`.
pub fn is_logged_at(manager: &SessionManager, now: Timestamp) -> (logged: bool)
    ensures
        logged == logged_at(manager.store@, now),
{
    match manager.store.peek() {
        Some(session) => session.expires_at.is_after(&now),
        None => false,
    }
}

/// Whether a session is held that is valid at the time the clock shows.
///
/// The answer is the one `is_logged_at` gives for some moment `now`; which moment the
/// clock gave is not known here.
pub fn is_logged(manager: &SessionManager) -> (logged: bool)
    ensures
        exists|now: Timestamp|
            now.wf() && now.nanos < NANOS_PER_SECOND && logged == #[trigger] logged_at(
                manager.store@,
                now,
            ),
{
    is_logged_at(manager, utc_now())
}

/// The whole seconds for which the stored session still lasts at `now`.
pub fn lease_token_at(manager: &SessionManager, now: Timestamp) -> (result: Result<
    i64,
    SessionError,
>)
    requires
        manager.wf(),
        now.wf(),
    ensures
        lease_view(result) == lease_of(manager.store@, now),
{
    match manager.store.peek() {
        Some(session) => {
            let left = whole_seconds_between(session.expires_at, now);
            if left > 0 {
                Ok(left)
            } else {
                Ok(0)
            }
        },
        None => Err(SessionError::NoSession),
    }
}

/// The whole seconds for which the stored session still lasts at the time the clock
/// shows.
///
/// The answer is the one `lease_token_at` gives for some moment `now`; which moment
/// the clock gave is not known here.
pub fn lease_token(manager: &SessionManager) -> (result: Result<i64, SessionError>)
    requires
        manager.wf(),
    ensures
        exists|now: Timestamp|
            now.wf() && now.nanos < NANOS_PER_SECOND && lease_view(result) == #[trigger] lease_of(
                manager.store@,
                now,
            ),
{
    lease_token_at(manager, utc_now())
}

/// Starts a call of the accessor at `now`. A call that names a mode sets the renewal
/// policy to it; the store is left as it is.
pub fn token_at(manager: &mut SessionManager, now: Timestamp, renew: Option<bool>) -> (step:
    TokenStep)
    ensures
        step@ == token_step(old(manager).store@, old(manager).policy@, now, renew),
        final(manager).store@ == old(manager).store@,
        final(manager).policy@ == policy_after(old(manager).policy@, renew),
        old(manager).wf() ==> final(manager).wf(),
{
    let allowed = manager.policy.allowed();
    match renew {
        Some(allow) => {
            manager.policy.set(allow);
        },
        None => {},
    }
    match manager.store.peek() {
        None => match renew {
            None => TokenStep::Fail { error: SessionError::NoSession },
            Some(_) => TokenStep::Done { reply: TokenReply::Valid { valid: false } },
        },
        Some(session) => {
            if session.expires_at.is_after(&now) {
                match renew {
                    None => TokenStep::Done {
                        reply: TokenReply::Token { token: session.token.clone() },
                    },
                    Some(_) => TokenStep::Done { reply: TokenReply::Valid { valid: true } },
                }
            } else {
                match renew {
                    None => {
                        if allowed {
                            TokenStep::Renew { renewal: session.renewal(now) }
                        } else {
                            TokenStep::Fail { error: SessionError::TokenExpired }
                        }
                    },
                    Some(false) => TokenStep::Done { reply: TokenReply::Valid { valid: false } },
                    Some(true) => TokenStep::Renew { renewal: session.renewal(now) },
                }
            }
        },
    }
}

/// Starts a call of the accessor at the time the clock shows.
///
/// The step is the one `token_at` takes at some moment `now`; which moment the clock
/// gave is not known here, but a renewal carries it as `started`.
pub fn token(manager: &mut SessionManager, renew: Option<bool>) -> (step: TokenStep)
    ensures
        exists|now: Timestamp|
            now.wf() && now.nanos < NANOS_PER_SECOND && step@ == #[trigger] token_step(
                old(manager).store@,
                old(manager).policy@,
                now,
                renew,
            ),
        final(manager).store@ == old(manager).store@,
        final(manager).policy@ == policy_after(old(manager).policy@, renew),
        old(manager).wf() ==> final(manager).wf(),
{
    token_at(manager, utc_now(), renew)
}

/// Ends a call of the accessor after the renewal that began at `started`.
pub fn token_after_renewal(
    manager: &SessionManager,
    started: Timestamp,
    renew: Option<bool>,
    handshake: Result<(), SessionError>,
) -> (result: Result<TokenReply, SessionError>)
    ensures
        reply_view(result) == renewed(manager.store@, started, renew, handshake_view(handshake)),
{
    let logged = is_logged_at(manager, started);
    match renew {
        Some(_) => Ok(TokenReply::Valid { valid: handshake.is_ok() && logged }),
        None => match handshake {
            Err(error) => Err(SessionError::RenewalFailed { detail: error.message() }),
            Ok(_) => match manager.store.peek() {
                Some(session) => {
                    if logged {
                        Ok(TokenReply::Token { token: session.token.clone() })
                    } else {
                        Err(
                            SessionError::RenewalFailed {
                                detail: String::from_str("Token still invalid after renewal"),
                            },
                        )
                    }
                },
                None => Err(
                    SessionError::RenewalFailed {
                        detail: String::from_str("Token still invalid after renewal"),
                    },
                ),
            },
        },
    }
}

/// What the accessor does is decided by the state and the mode, and in the one case of
/// a plain call on an expired session by the policy: a renewal is asked for only on an
/// expired session, a token is handed out only under a valid one, and only a plain
/// call can fail.
pub proof fn lemma_steps_follow_the_state(
    session: Option<SessionView>,
    policy: bool,
    now: Timestamp,
    renew: Option<bool>,
)
    ensures
        token_step(session, policy, now, renew) is Renew <==> state_at(session, now)
            == SessionState::Expired && (renew == Some(true) || (renew is None && policy)),
        token_step(session, policy, now, renew) matches TokenStepView::Done {
            reply: TokenReplyView::Token { .. },
        } <==> renew is None && state_at(session, now) == SessionState::Valid,
        token_step(session, policy, now, renew) matches TokenStepView::Done {
            reply: TokenReplyView::Valid { valid },
        } ==> valid == (state_at(session, now) == SessionState::Valid),
        token_step(session, policy, now, renew) is Fail ==> renew is None && state_at(
            session,
            now,
        ) != SessionState::Valid,
{
}

/// A lease is never negative.
pub proof fn lemma_lease_is_never_negative(session: SessionView, now: Timestamp)
    ensures
        lease(session, now) >= 0,
{
}

/// As the clock moves on, the lease of a session does not grow; and once a whole second
/// has gone by, a lease that was not yet zero has become smaller.
///
/// The readings of a clock are never leap seconds. Where the expiry is one, chrono
/// corrects the difference by a second that depends on the time of day, and the law
/// holds as long as that correction has not grown between the two readings; for any
/// other expiry the correction is zero throughout.
pub proof fn lemma_lease_decreases(session: SessionView, earlier: Timestamp, later: Timestamp)
    requires
        earlier.nanos < NANOS_PER_SECOND,
        later.nanos < NANOS_PER_SECOND,
        !earlier.spec_is_after(later),
        leap_adjustment(session.expires_at, later) <= leap_adjustment(
            session.expires_at,
            earlier,
        ),
    ensures
        lease(session, later) <= lease(session, earlier),
        later.secs > earlier.secs && later.nanos >= earlier.nanos && lease(session, earlier) > 0
            ==> lease(session, later) < lease(session, earlier),
        session.expires_at.nanos < NANOS_PER_SECOND ==> leap_adjustment(
            session.expires_at,
            later,
        ) == 0 && leap_adjustment(session.expires_at, earlier) == 0,
{
    let end = session.expires_at;
    let a = elapsed_nanos(end, earlier);
    let b = elapsed_nanos(end, later);
    assert(b <= a) by (nonlinear_arith)
        requires
            a == (end.secs - earlier.secs + leap_adjustment(end, earlier)) * NANOS_PER_SECOND + (
            end.nanos - earlier.nanos),
            b == (end.secs - later.secs + leap_adjustment(end, later)) * NANOS_PER_SECOND + (
            end.nanos - later.nanos),
            leap_adjustment(end, later) <= leap_adjustment(end, earlier),
            later.secs > earlier.secs || (later.secs == earlier.secs && later.nanos
                >= earlier.nanos),
            earlier.nanos < NANOS_PER_SECOND,
            later.nanos < NANOS_PER_SECOND,
            NANOS_PER_SECOND == 1_000_000_000,
    ;
    if later.secs > earlier.secs && later.nanos >= earlier.nanos {
        assert(b + NANOS_PER_SECOND <= a) by (nonlinear_arith)
            requires
                a == (end.secs - earlier.secs + leap_adjustment(end, earlier)) * NANOS_PER_SECOND
                    + (end.nanos - earlier.nanos),
                b == (end.secs - later.secs + leap_adjustment(end, later)) * NANOS_PER_SECOND + (
                end.nanos - later.nanos),
                leap_adjustment(end, later) <= leap_adjustment(end, earlier),
                later.secs > earlier.secs,
                later.nanos >= earlier.nanos,
                NANOS_PER_SECOND == 1_000_000_000,
        ;
    }
}

/// A session that runs out after `now` is valid at `now`, and its lease is positive
/// once a whole second is left of it.
pub proof fn lemma_valid_session_has_a_lease(session: SessionView, now: Timestamp)
    requires
        session.expires_at.nanos < NANOS_PER_SECOND,
        now.nanos < NANOS_PER_SECOND,
    ensures
        logged_at(Some(session), now) <==> session.expires_at.spec_is_after(now),
        lease(session, now) > 0 <==> (session.expires_at.secs > now.secs + 1 || (
        session.expires_at.secs == now.secs + 1 && session.expires_at.nanos >= now.nanos)),
        lease(session, now) > 0 ==> logged_at(Some(session), now),
{
}

/// Without a session, a call without a mode fails with `NoSession`, and so does the
/// question how long the session lasts.
pub proof fn lemma_no_session_no_token(policy: bool, now: Timestamp)
    ensures
        token_step(None, policy, now, None) == (TokenStepView::Fail {
            error: SessionErrorView::NoSession,
        }),
        lease_of(None, now) == Err::<int, SessionErrorView>(SessionErrorView::NoSession),
{
}

/// Probe mode never asks for a renewal: it answers at once, with `false` for a session
/// that has run out, and leaves the policy at "no renewal".
pub proof fn lemma_probe_never_renews(session: Option<SessionView>, policy: bool, now: Timestamp)
    ensures
        token_step(session, policy, now, Some(false)) == (TokenStepView::Done {
            reply: TokenReplyView::Valid { valid: logged_at(session, now) },
        }),
        !(token_step(session, policy, now, Some(false)) is Renew),
        !policy_after(policy, Some(false)),
{
}

/// Renew mode on a session that has run out asks for one renewal, with the session's
/// own host, port, credentials and zone, and then answers without asking again. The
/// answer is `true` exactly where the handshake succeeded and the store holds a session
/// that runs out strictly after the moment the call began.
pub proof fn lemma_renew_mode_renews_once(
    session: SessionView,
    policy: bool,
    now: Timestamp,
    stored: Option<SessionView>,
    handshake: Result<(), SessionErrorView>,
)
    requires
        !session.valid_at(now),
    ensures
        token_step(Some(session), policy, now, Some(true)) == (TokenStepView::Renew {
            renewal: session.renewal(now),
        }),
        policy_after(policy, Some(true)),
        renewed(stored, now, Some(true), handshake) is Ok,
        renewed(stored, now, Some(true), handshake) == Ok::<TokenReplyView, SessionErrorView>(
            TokenReplyView::Valid { valid: true },
        ) <==> handshake is Ok && (stored matches Some(s) && s.expires_at.spec_is_after(now)),
{
}

} // verus!
