//! A single-session credential manager for a bearer-token HTTPS API, and the rules of
//! an authenticated request dispatcher with bounded retry.
//!
//! Nothing here touches the network. Each operation that needs the server comes in
//! steps: one function says what to send, the caller sends it, and another function
//! takes what came back and decides what follows.

pub mod auth;
pub mod error;
pub mod request;
pub mod retry;
pub mod session;
pub mod state;
pub mod text;
pub mod timestamp;
pub mod token;
pub mod zone;

pub use auth::{
    auth, auth_request, check_reply, store_session, AuthBody, AuthCall, HandshakeReply,
};
pub use error::{Fault, Malformed, SessionError};
pub use request::{
    get, make_request, post, resume_request, Call, Dispatch, Method, PreparedRequest,
};
pub use retry::{after_attempt, RetryState, SendOutcome, Verdict, RETRY_DELAY_MS};
pub use session::{AuthRequest, AuthResponse, Renewal, Session, SessionState, SessionStore};
pub use state::{RenewalPolicy, SessionManager};
pub use timestamp::Timestamp;
pub use token::{
    is_logged, is_logged_at, lease_token, lease_token_at, token, token_after_renewal, token_at,
    TokenReply, TokenStep,
};
pub use zone::{expiry_from, resolve_expiry};
