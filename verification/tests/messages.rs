use ppauth::{Fault, Malformed, SessionError};

#[test]
fn network_error_names_the_cause() {
    let error = SessionError::Network { detail: "connection refused".to_string() };
    assert_eq!(error.message(), "Request failed: connection refused");
}

#[test]
fn status_error_names_code_and_body() {
    let error = SessionError::Status { code: 404, body: "no such item".to_string() };
    assert_eq!(error.message(), "Request failed with status 404: no such item");
}

#[test]
fn parse_errors_name_the_part() {
    let body = SessionError::Parse { part: Malformed::Body, detail: "eof".to_string() };
    assert_eq!(body.message(), "Invalid JSON: eof");
    let token =
        SessionError::Parse { part: Malformed::Token, detail: "the token is empty".to_string() };
    assert_eq!(token.message(), "Invalid token: the token is empty");
    let expiry = SessionError::Parse { part: Malformed::ExpiresAt, detail: "soon".to_string() };
    assert_eq!(expiry.message(), "Invalid expires_at format: soon");
}

#[test]
fn zone_errors_are_told_apart() {
    let unknown = SessionError::InvalidTimezone { name: "Mars/Olympus".to_string() };
    assert_eq!(unknown.message(), "Invalid timezone provided: Mars/Olympus");
    let ambiguous = SessionError::AmbiguousLocalTime {
        local: "2024-03-10 02:30:00".to_string(),
        zone: "America/New_York".to_string(),
    };
    assert_eq!(
        ambiguous.message(),
        "Ambiguous or invalid datetime in timezone: 2024-03-10 02:30:00 in America/New_York"
    );
}

#[test]
fn session_errors_say_what_to_do() {
    assert_eq!(SessionError::NoSession.message(), "Not authenticated. Call auth() first.");
    assert_eq!(
        SessionError::TokenExpired.message(),
        "Token expired. Call .token(renew=True) first to enable automatic renewal."
    );
    assert_eq!(
        SessionError::RenewalFailed { detail: "Token still invalid after renewal".to_string() }
            .message(),
        "Token renewal failed: Token still invalid after renewal"
    );
}

#[test]
fn exhausted_retries_name_the_attempts_and_the_last_failure() {
    let by_status = SessionError::RetriesExhausted {
        attempts: 4,
        last: Fault::Status { code: 500, body: "boom".to_string() },
    };
    assert_eq!(
        by_status.message(),
        "Request failed after 4 attempt(s): Request failed with status 500: boom"
    );
    let by_network = SessionError::RetriesExhausted {
        attempts: 4_294_967_296,
        last: Fault::Network { detail: "timeout".to_string() },
    };
    assert_eq!(
        by_network.message(),
        "Request failed after 4294967296 attempt(s): Request failed: timeout"
    );
}

#[test]
fn failure_has_the_text_of_its_error() {
    let failure = Fault::Status { code: 503, body: "busy".to_string() };
    assert_eq!(failure.message(), "Request failed with status 503: busy");
    assert_eq!(
        SessionError::Status { code: 503, body: "busy".to_string() }.message(),
        failure.message()
    );
    assert_eq!(
        Fault::Network { detail: "reset".to_string() }.message(),
        SessionError::Network { detail: "reset".to_string() }.message()
    );
    assert_eq!(failure.clone(), failure);
}

#[test]
fn errors_can_be_copied() {
    let errors = vec![
        SessionError::Network { detail: "a".to_string() },
        SessionError::Status { code: 1, body: "b".to_string() },
        SessionError::Parse { part: Malformed::Body, detail: "c".to_string() },
        SessionError::InvalidTimezone { name: "d".to_string() },
        SessionError::AmbiguousLocalTime { local: "e".to_string(), zone: "f".to_string() },
        SessionError::NoSession,
        SessionError::TokenExpired,
        SessionError::RenewalFailed { detail: "g".to_string() },
        SessionError::RetriesExhausted {
            attempts: 2,
            last: Fault::Network { detail: "h".to_string() },
        },
    ];
    for error in errors {
        assert_eq!(error.clone(), error);
    }
}
