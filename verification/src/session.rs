//! The session and the store that holds at most one of them.

use crate::timestamp::Timestamp;
use vstd::prelude::*;

verus! {

/// The credentials of one identity, sent again as they are on every renewal.
#[derive(Debug, PartialEq, Eq)]
pub struct AuthRequest {
    pub username: String,
    pub password: String,
}

/// What the server answers to a successful authentication.
#[derive(Debug, PartialEq, Eq)]
pub struct AuthResponse {
    pub token: String,
    /// `YYYY-MM-DD HH:MM:SS`, in the time zone named when authenticating.
    pub expires_at: String,
}

/// An authenticated session: the token, when it runs out (in UTC), and all that is
/// needed to authenticate again.
#[derive(Debug, PartialEq, Eq)]
pub struct Session {
    pub token: String,
    pub expires_at: Timestamp,
    pub host: String,
    pub port: u16,
    pub auth: AuthRequest,
    pub timezone: String,
}

/// `AuthResponse` over sequences of characters.
pub struct AuthResponseView {
    pub token: Seq<char>,
    pub expires_at: Seq<char>,
}

impl View for AuthResponse {
    type V = AuthResponseView;

    open spec fn view(&self) -> AuthResponseView {
        AuthResponseView { token: self.token@, expires_at: self.expires_at@ }
    }
}

/// The three states of the accessor.
#[derive(Clone, Copy, Debug, PartialEq, Eq, Structural)]
pub enum SessionState {
    /// Nothing is stored.
    NoSession,
    /// A session is stored and has not run out.
    Valid,
    /// A session is stored and has run out.
    Expired,
}

/// `Session` over sequences of characters.
pub struct SessionView {
    pub token: Seq<char>,
    pub expires_at: Timestamp,
    pub host: Seq<char>,
    pub port: u16,
    pub username: Seq<char>,
    pub password: Seq<char>,
    pub timezone: Seq<char>,
}

impl SessionView {
    /// A session has a token, and an expiry that is a date and time.
    pub open spec fn wf(self) -> bool {
        self.token.len() > 0 && self.expires_at.wf()
    }

    /// Whether the session is still good at `now`: it is not once `now` has reached
    /// the expiry.
    pub open spec fn valid_at(self, now: Timestamp) -> bool {
        self.expires_at.spec_is_after(now)
    }
}

impl View for Session {
    type V = SessionView;

    open spec fn view(&self) -> SessionView {
        SessionView {
            token: self.token@,
            expires_at: self.expires_at,
            host: self.host@,
            port: self.port,
            username: self.auth.username@,
            password: self.auth.password@,
            timezone: self.timezone@,
        }
    }
}

/// All that a renewal needs: where and as whom to authenticate again, the zone in
/// which the new expiry is to be read, and the moment at which the old session was
/// found to have run out.
#[derive(Debug, PartialEq, Eq)]
pub struct Renewal {
    pub host: String,
    pub port: u16,
    pub username: String,
    pub password: String,
    pub timezone: String,
    pub started: Timestamp,
}

/// `Renewal` over sequences of characters.
pub struct RenewalView {
    pub host: Seq<char>,
    pub port: u16,
    pub username: Seq<char>,
    pub password: Seq<char>,
    pub timezone: Seq<char>,
    pub started: Timestamp,
}

impl View for Renewal {
    type V = RenewalView;

    open spec fn view(&self) -> RenewalView {
        RenewalView {
            host: self.host@,
            port: self.port,
            username: self.username@,
            password: self.password@,
            timezone: self.timezone@,
            started: self.started,
        }
    }
}

impl SessionView {
    /// The renewal of this session, begun at `started`: host, port, credentials and
    /// zone are the session's own.
    pub open spec fn renewal(self, started: Timestamp) -> RenewalView {
        RenewalView {
            host: self.host,
            port: self.port,
            username: self.username,
            password: self.password,
            timezone: self.timezone,
            started,
        }
    }
}

impl Session {
    /// The renewal of this session, begun at `started`.
    pub fn renewal(&self, started: Timestamp) -> (renewal: Renewal)
        ensures
            renewal@ == self@.renewal(started),
    {
        Renewal {
            host: self.host.clone(),
            port: self.port,
            username: self.auth.username.clone(),
            password: self.auth.password.clone(),
            timezone: self.timezone.clone(),
            started,
        }
    }
}

/// The view of a session that may be absent.
pub open spec fn view_of(session: Option<Session>) -> Option<SessionView> {
    match session {
        Some(s) => Some(s@),
        None => None,
    }
}

/// Whether a session is held that is valid at `now`.
pub open spec fn logged_at(session: Option<SessionView>, now: Timestamp) -> bool {
    session matches Some(s) && s.valid_at(now)
}

/// The state at `now`. Time alone takes a session from valid to expired; nothing but a
/// handshake, or clearing the store, changes the state otherwise.
pub open spec fn state_at(session: Option<SessionView>, now: Timestamp) -> SessionState {
    match session {
        None => SessionState::NoSession,
        Some(s) => if s.valid_at(now) {
            SessionState::Valid
        } else {
            SessionState::Expired
        },
    }
}

impl Clone for AuthRequest {
    fn clone(&self) -> (copy: Self)
        ensures
            copy == *self,
    {
        AuthRequest { username: self.username.clone(), password: self.password.clone() }
    }
}

impl Clone for AuthResponse {
    fn clone(&self) -> (copy: Self)
        ensures
            copy == *self,
    {
        AuthResponse { token: self.token.clone(), expires_at: self.expires_at.clone() }
    }
}

impl Clone for Session {
    fn clone(&self) -> (copy: Self)
        ensures
            copy == *self,
    {
        Session {
            token: self.token.clone(),
            expires_at: self.expires_at,
            host: self.host.clone(),
            port: self.port,
            auth: self.auth.clone(),
            timezone: self.timezone.clone(),
        }
    }
}

/// Holds the current session, if there is one. A new session takes the place of the
/// old one whole; nothing of the old one is kept.
pub struct SessionStore {
    current: Option<Session>,
}

impl View for SessionStore {
    type V = Option<SessionView>;

    closed spec fn view(&self) -> Option<SessionView> {
        view_of(self.current)
    }
}

impl SessionStore {
    /// Every stored session is well formed.
    pub open spec fn wf(&self) -> bool {
        self@ matches Some(s) ==> s.wf()
    }

    /// A store without a session.
    pub fn new() -> (store: SessionStore)
        ensures
            store@ is None,
            store.wf(),
    {
        SessionStore { current: None }
    }

    /// Puts `session` in place of whatever was stored.
    pub fn set(&mut self, session: Session)
        requires
            session@.wf(),
        ensures
            final(self)@ == Some(session@),
            final(self).wf(),
    {
        self.current = Some(session);
    }

    /// A copy of the current session.
    pub fn get(&self) -> (copy: Option<Session>)
        ensures
            view_of(copy) == self@,
    {
        match &self.current {
            Some(session) => Some(session.clone()),
            None => None,
        }
    }

    /// The current session, to read in place.
    pub fn peek(&self) -> (current: &Option<Session>)
        ensures
            view_of(*current) == self@,
    {
        &self.current
    }

    /// The state of the store at `now`.
    pub fn state_at(&self, now: Timestamp) -> (state: SessionState)
        ensures
            state == state_at(self@, now),
    {
        match &self.current {
            None => SessionState::NoSession,
            Some(session) => if session.expires_at.is_after(&now) {
                SessionState::Valid
            } else {
                SessionState::Expired
            },
        }
    }

    /// Forgets the current session.
    pub fn clear(&mut self)
        ensures
            final(self)@ is None,
            final(self).wf(),
    {
        self.current = None;
    }
}

} // verus!
