use chrono::TimeZone;
use ppauth::auth::{code_to_send, usable_totp};
use ppauth::{
    auth, auth_request, check_reply, expiry_from, is_logged, is_logged_at, lease_token,
    lease_token_at, resolve_expiry, store_session, AuthResponse, HandshakeReply, Malformed,
    Session, SessionError, SessionManager, Timestamp,
};

fn answer(token: &str, expires_at: &str) -> HandshakeReply {
    HandshakeReply::Response {
        status: 200,
        body: format!("{{\"token\":\"{}\",\"expires_at\":\"{}\"}}", token, expires_at),
        parsed: Ok(AuthResponse { token: token.to_string(), expires_at: expires_at.to_string() }),
    }
}

fn handshake(
    manager: &mut SessionManager,
    timezone: Option<&str>,
    reply: HandshakeReply,
) -> Result<(), SessionError> {
    auth(
        manager,
        "api.example.org".to_string(),
        8443,
        "alice".to_string(),
        "s3cret".to_string(),
        timezone.map(|zone| zone.to_string()),
        reply,
    )
}

#[test]
fn request_goes_to_auth_on_the_host() {
    let call = auth_request("api.example.org", 8443, "alice", "s3cret", None);
    assert_eq!(call.url, "https://api.example.org:8443/auth");
    assert_eq!(call.body.username, "alice");
    assert_eq!(call.body.password, "s3cret");
    assert_eq!(call.body.totp_code, None);
}

#[test]
fn request_always_accepts_any_certificate() {
    assert!(auth_request("h", 1, "u", "p", None).accept_invalid_certs);
    assert!(auth_request("h", 1, "u", "p", Some("123456")).accept_invalid_certs);
}

#[test]
fn request_drops_slashes_after_the_host() {
    let call = auth_request("api.example.org//", 443, "u", "p", None);
    assert_eq!(call.url, "https://api.example.org:443/auth");
}

#[test]
fn request_writes_every_port() {
    assert_eq!(auth_request("h", 0, "u", "p", None).url, "https://h:0/auth");
    assert_eq!(auth_request("h", 65535, "u", "p", None).url, "https://h:65535/auth");
}

#[test]
fn request_carries_the_code() {
    let call = auth_request("h", 1, "u", "p", Some("123456"));
    assert_eq!(call.body.totp_code, Some("123456".to_string()));
}

#[test]
fn request_trims_the_code() {
    let call = auth_request("h", 1, "u", "p", Some("  123 456\n"));
    assert_eq!(call.body.totp_code, Some("123 456".to_string()));
}

#[test]
fn request_leaves_out_an_empty_code() {
    assert_eq!(auth_request("h", 1, "u", "p", Some("")).body.totp_code, None);
    assert_eq!(auth_request("h", 1, "u", "p", Some("   ")).body.totp_code, None);
}

#[test]
fn request_leaves_out_the_word_null() {
    assert_eq!(auth_request("h", 1, "u", "p", Some("null")).body.totp_code, None);
    assert_eq!(auth_request("h", 1, "u", "p", Some(" null ")).body.totp_code, None);
    assert_eq!(
        auth_request("h", 1, "u", "p", Some("NULL")).body.totp_code,
        Some("NULL".to_string())
    );
}

#[test]
fn new_york_midnight_is_five_in_utc() {
    let mut manager = SessionManager::new();
    let done = handshake(
        &mut manager,
        Some("America/New_York"),
        answer("tok", "2024-01-01 00:00:00"),
    );
    assert_eq!(done, Ok(()));
    let session = manager.store.get().unwrap();
    assert_eq!(session.expires_at, Timestamp { secs: 1_704_085_200, nanos: 0 });
    assert_eq!(
        chrono::DateTime::from_timestamp(session.expires_at.secs, session.expires_at.nanos)
            .unwrap()
            .to_rfc3339_opts(chrono::SecondsFormat::Secs, true),
        "2024-01-01T05:00:00Z"
    );
}

#[test]
fn after_a_handshake_the_session_is_valid_and_has_a_lease() {
    let mut manager = SessionManager::new();
    assert!(!is_logged(&manager));
    let done = handshake(
        &mut manager,
        Some("America/New_York"),
        answer("tok", "2024-01-01 00:00:00"),
    );
    assert_eq!(done, Ok(()));
    let now = Timestamp::new(1_704_085_200 - 90, 0).unwrap();
    assert!(is_logged_at(&manager, now));
    assert_eq!(lease_token_at(&manager, now), Ok(90));
    let later = Timestamp::new(1_704_085_200 - 30, 0).unwrap();
    assert!(is_logged_at(&manager, later));
    assert_eq!(lease_token_at(&manager, later), Ok(30));
}

#[test]
fn after_a_handshake_the_clock_decides() {
    let mut manager = SessionManager::new();
    assert_eq!(handshake(&mut manager, None, answer("tok", "2999-12-31 23:59:59")), Ok(()));
    assert!(is_logged(&manager));
    assert!(lease_token(&manager).unwrap() > 0);
    assert_eq!(handshake(&mut manager, None, answer("tok", "2000-01-01 00:00:00")), Ok(()));
    assert!(!is_logged(&manager));
    assert_eq!(lease_token(&manager), Ok(0));
}

#[test]
fn spring_forward_gap_is_refused() {
    let mut manager = SessionManager::new();
    let done = handshake(
        &mut manager,
        Some("America/New_York"),
        answer("tok", "2024-03-10 02:30:00"),
    );
    assert_eq!(
        done,
        Err(SessionError::AmbiguousLocalTime {
            local: "2024-03-10 02:30:00".to_string(),
            zone: "America/New_York".to_string(),
        })
    );
    assert_eq!(manager.store.get(), None);
}

#[test]
fn fall_back_overlap_is_refused() {
    let mut manager = SessionManager::new();
    let done = handshake(
        &mut manager,
        Some("America/New_York"),
        answer("tok", "2024-11-03 01:30:00"),
    );
    assert_eq!(
        done,
        Err(SessionError::AmbiguousLocalTime {
            local: "2024-11-03 01:30:00".to_string(),
            zone: "America/New_York".to_string(),
        })
    );
}

#[test]
fn summer_time_is_four_hours_behind() {
    assert_eq!(
        resolve_expiry("2024-07-01 12:00:00", "America/New_York"),
        Ok(Timestamp { secs: 1_719_849_600, nanos: 0 })
    );
}

#[test]
fn zone_defaults_to_utc() {
    let mut manager = SessionManager::new();
    assert_eq!(handshake(&mut manager, None, answer("tok", "2024-01-01 00:00:00")), Ok(()));
    let session = manager.store.get().unwrap();
    assert_eq!(session.expires_at, Timestamp { secs: 1_704_067_200, nanos: 0 });
    assert_eq!(session.timezone, "UTC");
}

#[test]
fn session_keeps_what_the_caller_gave() {
    let mut manager = SessionManager::new();
    let done = auth(
        &mut manager,
        "api.example.org/".to_string(),
        8443,
        "alice".to_string(),
        "s3cret".to_string(),
        Some("Europe/Paris".to_string()),
        answer("tok-1", "2030-06-15 12:00:00"),
    );
    assert_eq!(done, Ok(()));
    let session: Session = manager.store.get().unwrap();
    assert_eq!(session.token, "tok-1");
    assert_eq!(session.host, "api.example.org/");
    assert_eq!(session.port, 8443);
    assert_eq!(session.auth.username, "alice");
    assert_eq!(session.auth.password, "s3cret");
    assert_eq!(session.timezone, "Europe/Paris");
    assert_eq!(session.expires_at, Timestamp { secs: 1_907_748_000, nanos: 0 });
}

#[test]
fn new_session_replaces_the_old_one_whole() {
    let mut manager = SessionManager::new();
    assert_eq!(handshake(&mut manager, None, answer("first", "2030-01-01 00:00:00")), Ok(()));
    let done = auth(
        &mut manager,
        "other.example.org".to_string(),
        9000,
        "bob".to_string(),
        "pw".to_string(),
        Some("Asia/Tokyo".to_string()),
        answer("second", "2031-01-01 09:00:00"),
    );
    assert_eq!(done, Ok(()));
    let session = manager.store.get().unwrap();
    assert_eq!(session.token, "second");
    assert_eq!(session.host, "other.example.org");
    assert_eq!(session.port, 9000);
    assert_eq!(session.auth.username, "bob");
    assert_eq!(session.auth.password, "pw");
    assert_eq!(session.timezone, "Asia/Tokyo");
    assert_eq!(session.expires_at, Timestamp { secs: 1_924_992_000, nanos: 0 });
}

#[test]
fn handshake_leaves_the_policy_alone() {
    let mut manager = SessionManager::new();
    manager.policy.set(true);
    assert_eq!(handshake(&mut manager, None, answer("tok", "2030-01-01 00:00:00")), Ok(()));
    assert!(manager.policy.allowed());
    let failed = handshake(&mut manager, None, HandshakeReply::Failed { detail: "x".to_string() });
    assert!(failed.is_err());
    assert!(manager.policy.allowed());
}

#[test]
fn transport_failure_is_a_network_error() {
    let mut manager = SessionManager::new();
    let done = handshake(
        &mut manager,
        None,
        HandshakeReply::Failed { detail: "connection refused".to_string() },
    );
    assert_eq!(done, Err(SessionError::Network { detail: "connection refused".to_string() }));
    assert_eq!(manager.store.get(), None);
}

#[test]
fn status_outside_2xx_is_a_status_error() {
    let mut manager = SessionManager::new();
    let done = handshake(
        &mut manager,
        None,
        HandshakeReply::Response {
            status: 401,
            body: "denied".to_string(),
            parsed: Err("expected value".to_string()),
        },
    );
    assert_eq!(done, Err(SessionError::Status { code: 401, body: "denied".to_string() }));
}

#[test]
fn status_decides_before_the_body_is_looked_at() {
    let mut manager = SessionManager::new();
    let done = handshake(
        &mut manager,
        None,
        HandshakeReply::Response {
            status: 500,
            body: "{}".to_string(),
            parsed: Ok(AuthResponse {
                token: "tok".to_string(),
                expires_at: "2030-01-01 00:00:00".to_string(),
            }),
        },
    );
    assert_eq!(done, Err(SessionError::Status { code: 500, body: "{}".to_string() }));
    assert_eq!(manager.store.get(), None);
}

#[test]
fn edges_of_the_success_range() {
    for status in [200u16, 204, 299] {
        let mut manager = SessionManager::new();
        let mut reply = answer("tok", "2030-01-01 00:00:00");
        if let HandshakeReply::Response { status: s, .. } = &mut reply {
            *s = status;
        }
        assert_eq!(handshake(&mut manager, None, reply), Ok(()));
    }
    for status in [199u16, 300, 302, 404] {
        let mut manager = SessionManager::new();
        let mut reply = answer("tok", "2030-01-01 00:00:00");
        if let HandshakeReply::Response { status: s, .. } = &mut reply {
            *s = status;
        }
        assert!(matches!(
            handshake(&mut manager, None, reply),
            Err(SessionError::Status { code, .. }) if code == status
        ));
    }
}

#[test]
fn unreadable_body_is_a_network_error() {
    let mut manager = SessionManager::new();
    let done = handshake(
        &mut manager,
        None,
        HandshakeReply::Unreadable { status: 200, detail: "connection reset".to_string() },
    );
    assert_eq!(done, Err(SessionError::Network { detail: "connection reset".to_string() }));
}

#[test]
fn unreadable_body_under_a_bad_status_is_a_status_error() {
    let mut manager = SessionManager::new();
    let done = handshake(
        &mut manager,
        None,
        HandshakeReply::Unreadable { status: 503, detail: "connection reset".to_string() },
    );
    assert_eq!(done, Err(SessionError::Status { code: 503, body: String::new() }));
}

#[test]
fn malformed_body_is_a_parse_error() {
    let mut manager = SessionManager::new();
    let done = handshake(
        &mut manager,
        None,
        HandshakeReply::Response {
            status: 200,
            body: "<html>".to_string(),
            parsed: Err("expected value at line 1 column 1".to_string()),
        },
    );
    assert_eq!(
        done,
        Err(SessionError::Parse {
            part: Malformed::Body,
            detail: "expected value at line 1 column 1".to_string(),
        })
    );
}

#[test]
fn empty_token_is_a_parse_error() {
    let mut manager = SessionManager::new();
    let done = handshake(&mut manager, None, answer("", "2030-01-01 00:00:00"));
    assert_eq!(
        done,
        Err(SessionError::Parse {
            part: Malformed::Token,
            detail: "the token is empty".to_string(),
        })
    );
    assert_eq!(manager.store.get(), None);
}

#[test]
fn malformed_expiry_is_a_parse_error() {
    for text in ["2024-01-01T00:00:00", "2024-13-01 00:00:00", "2024-01-01", "soon", ""] {
        let mut manager = SessionManager::new();
        let done = handshake(&mut manager, None, answer("tok", text));
        assert_eq!(
            done,
            Err(SessionError::Parse { part: Malformed::ExpiresAt, detail: text.to_string() })
        );
    }
}

#[test]
fn unknown_zone_is_refused() {
    let mut manager = SessionManager::new();
    let done = handshake(&mut manager, Some("Mars/Olympus"), answer("tok", "2030-01-01 00:00:00"));
    assert_eq!(done, Err(SessionError::InvalidTimezone { name: "Mars/Olympus".to_string() }));
    assert_eq!(manager.store.get(), None);
}

#[test]
fn expiry_is_read_before_the_zone_is_looked_up() {
    assert_eq!(
        resolve_expiry("not a date", "Mars/Olympus"),
        Err(SessionError::Parse {
            part: Malformed::ExpiresAt,
            detail: "not a date".to_string()
        })
    );
}

#[test]
fn failure_keeps_the_old_session() {
    let mut manager = SessionManager::new();
    assert_eq!(handshake(&mut manager, None, answer("old", "2030-01-01 00:00:00")), Ok(()));
    let before = manager.store.get();
    let replies = vec![
        HandshakeReply::Failed { detail: "down".to_string() },
        HandshakeReply::Unreadable { status: 200, detail: "cut".to_string() },
        HandshakeReply::Response {
            status: 403,
            body: String::new(),
            parsed: Err("eof".to_string()),
        },
        answer("", "2030-01-01 00:00:00"),
        answer("new", "garbage"),
    ];
    for reply in replies {
        assert!(handshake(&mut manager, None, reply).is_err());
        assert_eq!(manager.store.get(), before);
    }
    let unknown = handshake(&mut manager, Some("Nowhere"), answer("new", "2031-01-01 00:00:00"));
    assert!(unknown.is_err());
    assert_eq!(manager.store.get(), before);
}

#[test]
fn leap_second_keeps_its_extra_second() {
    assert_eq!(
        resolve_expiry("2016-12-31 23:59:60", "UTC"),
        Ok(Timestamp { secs: 1_483_228_799, nanos: 1_000_000_000 })
    );
}

#[test]
fn resolved_expiry_is_what_chrono_computes() {
    let naive =
        chrono::NaiveDateTime::parse_from_str("2025-02-28 23:15:09", "%Y-%m-%d %H:%M:%S").unwrap();
    let expected = chrono_tz::Australia::Sydney.from_local_datetime(&naive).single().unwrap();
    assert_eq!(
        resolve_expiry("2025-02-28 23:15:09", "Australia/Sydney"),
        Ok(Timestamp { secs: expected.timestamp(), nanos: 0 })
    );
    assert_eq!(expected.timestamp(), 1_740_744_909);
}

#[test]
fn code_to_send_refuses_empty_and_null() {
    assert_eq!(code_to_send(""), None);
    assert_eq!(code_to_send("null"), None);
    assert_eq!(code_to_send("nul"), Some("nul".to_string()));
    assert_eq!(code_to_send("nulll"), Some("nulll".to_string()));
    assert_eq!(code_to_send(" "), Some(" ".to_string()));
    assert_eq!(code_to_send("000000"), Some("000000".to_string()));
}

#[test]
fn usable_totp_trims_first() {
    assert_eq!(usable_totp(None), None);
    assert_eq!(usable_totp(Some("\t654321 ")), Some("654321".to_string()));
    assert_eq!(usable_totp(Some("\n")), None);
    assert_eq!(usable_totp(Some("\u{2003}null\u{a0}")), None);
}

#[test]
fn check_reply_hands_the_answer_on() {
    assert_eq!(
        check_reply(answer("tok", "2030-01-01 00:00:00")),
        Ok(AuthResponse { token: "tok".to_string(), expires_at: "2030-01-01 00:00:00".to_string() })
    );
    assert_eq!(
        check_reply(answer("", "whenever")),
        Ok(AuthResponse { token: String::new(), expires_at: "whenever".to_string() })
    );
}

#[test]
fn check_reply_names_what_went_wrong() {
    assert_eq!(
        check_reply(HandshakeReply::Failed { detail: "dns".to_string() }),
        Err(SessionError::Network { detail: "dns".to_string() })
    );
    assert_eq!(
        check_reply(HandshakeReply::Unreadable { status: 404, detail: "cut".to_string() }),
        Err(SessionError::Status { code: 404, body: String::new() })
    );
    assert_eq!(
        check_reply(HandshakeReply::Unreadable { status: 201, detail: "cut".to_string() }),
        Err(SessionError::Network { detail: "cut".to_string() })
    );
    assert_eq!(
        check_reply(HandshakeReply::Response {
            status: 200,
            body: "[]".to_string(),
            parsed: Err("invalid type".to_string()),
        }),
        Err(SessionError::Parse { part: Malformed::Body, detail: "invalid type".to_string() })
    );
}

#[test]
fn expiry_from_reports_the_first_step_that_failed() {
    let t = Timestamp { secs: 10, nanos: 0 };
    let u = Timestamp { secs: 20, nanos: 0 };
    assert_eq!(expiry_from("text", "Zone", Some(t), true, Some(u)), Ok(u));
    assert_eq!(
        expiry_from("text", "Zone", None, false, None),
        Err(SessionError::Parse { part: Malformed::ExpiresAt, detail: "text".to_string() })
    );
    assert_eq!(
        expiry_from("text", "Zone", None, true, Some(u)),
        Err(SessionError::Parse { part: Malformed::ExpiresAt, detail: "text".to_string() })
    );
    assert_eq!(
        expiry_from("text", "Zone", Some(t), false, Some(u)),
        Err(SessionError::InvalidTimezone { name: "Zone".to_string() })
    );
    assert_eq!(
        expiry_from("text", "Zone", Some(t), true, None),
        Err(SessionError::AmbiguousLocalTime {
            local: "text".to_string(),
            zone: "Zone".to_string()
        })
    );
}

#[test]
fn store_session_stores_what_it_is_given() {
    let mut manager = SessionManager::new();
    let expiry = Timestamp { secs: 1_900_000_000, nanos: 0 };
    let done = store_session(
        &mut manager,
        "h".to_string(),
        7,
        "u".to_string(),
        "p".to_string(),
        "Europe/Oslo".to_string(),
        "tok".to_string(),
        Ok(expiry),
    );
    assert_eq!(done, Ok(()));
    let session = manager.store.get().unwrap();
    assert_eq!(session.token, "tok");
    assert_eq!(session.expires_at, expiry);
    assert_eq!(session.host, "h");
    assert_eq!(session.port, 7);
    assert_eq!(session.auth.username, "u");
    assert_eq!(session.auth.password, "p");
    assert_eq!(session.timezone, "Europe/Oslo");
}

#[test]
fn store_session_refuses_an_empty_token_first() {
    let mut manager = SessionManager::new();
    let refused = store_session(
        &mut manager,
        "h".to_string(),
        7,
        "u".to_string(),
        "p".to_string(),
        "UTC".to_string(),
        String::new(),
        Err(SessionError::InvalidTimezone { name: "UTC".to_string() }),
    );
    assert_eq!(
        refused,
        Err(SessionError::Parse {
            part: Malformed::Token,
            detail: "the token is empty".to_string()
        })
    );
    assert_eq!(manager.store.get(), None);
}

#[test]
fn store_session_hands_an_unresolved_expiry_on() {
    let mut manager = SessionManager::new();
    let error = SessionError::AmbiguousLocalTime { local: "l".to_string(), zone: "z".to_string() };
    let refused = store_session(
        &mut manager,
        "h".to_string(),
        7,
        "u".to_string(),
        "p".to_string(),
        "z".to_string(),
        "tok".to_string(),
        Err(error.clone()),
    );
    assert_eq!(refused, Err(error));
    assert_eq!(manager.store.get(), None);
}

#[test]
fn leap_second_in_a_zone_keeps_its_extra_second() {
    assert_eq!(
        resolve_expiry("2016-12-31 18:59:60", "America/New_York"),
        Ok(Timestamp { secs: 1_483_228_799, nanos: 1_000_000_000 })
    );
}

#[test]
fn expiry_at_the_end_of_the_calendar() {
    assert_eq!(
        resolve_expiry("+262142-12-31 23:59:59", "UTC"),
        Ok(Timestamp { secs: 8_210_266_876_799, nanos: 0 })
    );
    assert_eq!(
        resolve_expiry("-262143-01-01 00:00:00", "UTC"),
        Ok(Timestamp { secs: -8_334_601_228_800, nanos: 0 })
    );
    assert_eq!(
        resolve_expiry("+262142-12-31 23:59:59", "Pacific/Pago_Pago"),
        Err(SessionError::AmbiguousLocalTime {
            local: "+262142-12-31 23:59:59".to_string(),
            zone: "Pacific/Pago_Pago".to_string(),
        })
    );
    assert_eq!(
        resolve_expiry("+262143-01-01 00:00:00", "UTC"),
        Err(SessionError::Parse {
            part: Malformed::ExpiresAt,
            detail: "+262143-01-01 00:00:00".to_string(),
        })
    );
}
