use synapse_mcp::http::session::{
    admit_without_session, allow_initialize_without_session, answer_in_session, cleanup_failed,
    has_session_header, is_mcp_endpoint, jsonrpc_method_is_initialize, opening_method,
    parse_idle_timeout, payload_too_large, require_mcp_session, session_id_from_header,
    session_idle_timeout_secs, session_invalid, Admission, CleanupStep, HttpMethod,
    IdleTimeoutError, InputFailure, SessionCleanup, SessionFailure, SessionStep, TimeoutFailure,
    TimeoutSetting, MAX_MCP_REQUEST_BYTES, SESSION_ID_HEADER,
};

fn object(entries: Vec<(&str, serde_json::Value)>) -> serde_json::Value {
    let mut map = serde_json::Map::new();
    for (key, value) in entries {
        map.insert(key.to_owned(), value);
    }
    serde_json::Value::Object(map)
}

#[test]
fn initialize_detection_accepts_initialize_request_only() {
    let init = object(vec![
        ("jsonrpc", serde_json::Value::from("2.0")),
        ("id", serde_json::Value::from(1)),
        ("method", serde_json::Value::from("initialize")),
        ("params", object(Vec::new())),
    ]);
    let list = object(vec![
        ("jsonrpc", serde_json::Value::from("2.0")),
        ("id", serde_json::Value::from(2)),
        ("method", serde_json::Value::from("tools/list")),
    ]);
    assert!(jsonrpc_method_is_initialize(&init));
    assert!(!jsonrpc_method_is_initialize(&list));
}

#[test]
fn initialize_detection_reads_text_methods_of_objects_only() {
    assert!(!jsonrpc_method_is_initialize(&serde_json::Value::Null));
    assert!(!jsonrpc_method_is_initialize(&serde_json::Value::from("initialize")));
    assert!(!jsonrpc_method_is_initialize(&object(vec![("method", serde_json::Value::from(7))])));
    assert!(!jsonrpc_method_is_initialize(&object(Vec::new())));
    let listed = serde_json::Value::Array(vec![object(vec![(
        "method",
        serde_json::Value::from("initialize"),
    )])]);
    assert!(!jsonrpc_method_is_initialize(&listed));
}

#[test]
fn idle_timeout_parser_rejects_zero_and_invalid_values() {
    assert_eq!(parse_idle_timeout("1").unwrap_or_default(), 1);
    assert!(parse_idle_timeout("0").is_err());
    assert!(parse_idle_timeout("abc").is_err());
}

#[test]
fn idle_timeout_parser_trims_and_explains() {
    assert_eq!(parse_idle_timeout("  300\n"), Ok(300));
    assert_eq!(parse_idle_timeout("+7"), Ok(7));
    assert_eq!(parse_idle_timeout("18446744073709551615"), Ok(u64::MAX));
    assert_eq!(
        parse_idle_timeout(" 18446744073709551616 "),
        Err(IdleTimeoutError::InvalidInteger { value: "18446744073709551616".to_owned() })
    );
    assert_eq!(parse_idle_timeout("00"), Err(IdleTimeoutError::Zero));
    let error = parse_idle_timeout(" a\"b ").expect_err("not a number");
    assert_eq!(error.message(), "invalid integer \"a\\\"b\"");
    assert_eq!(
        IdleTimeoutError::Zero.message(),
        "idle timeout must be greater than zero seconds"
    );
}

#[test]
fn idle_timeout_defaults_to_five_minutes() {
    assert_eq!(session_idle_timeout_secs(TimeoutSetting::NotPresent), Ok(300));
    assert_eq!(session_idle_timeout_secs(TimeoutSetting::Value("42".to_owned())), Ok(42));
    let failed = session_idle_timeout_secs(TimeoutSetting::Value("x".to_owned()))
        .expect_err("not a number");
    assert_eq!(
        failed.context_text(),
        "parse SYNAPSE_HTTP_SESSION_IDLE_TIMEOUT_SECS=\"x\""
    );
    let failed = session_idle_timeout_secs(TimeoutSetting::Value("0".to_owned()))
        .expect_err("zero");
    assert_eq!(
        failed,
        TimeoutFailure::Parse { raw: "0".to_owned(), error: IdleTimeoutError::Zero }
    );
    let failed = session_idle_timeout_secs(TimeoutSetting::Unreadable("not unicode".to_owned()))
        .expect_err("unreadable");
    assert_eq!(failed, TimeoutFailure::Read { error: "not unicode".to_owned() });
    assert_eq!(failed.context_text(), "read SYNAPSE_HTTP_SESSION_IDLE_TIMEOUT_SECS");
}

#[test]
fn endpoint_is_the_path_or_below_it() {
    assert!(is_mcp_endpoint("/mcp"));
    assert!(is_mcp_endpoint("/mcp/"));
    assert!(is_mcp_endpoint("/mcp/x"));
    assert!(!is_mcp_endpoint("/mcpx"));
    assert!(!is_mcp_endpoint("/"));
    assert_eq!(SESSION_ID_HEADER, "Mcp-Session-Id");
    assert_eq!(MAX_MCP_REQUEST_BYTES, 1024 * 1024);
}

#[test]
fn session_header_is_trimmed_and_must_not_be_blank() {
    assert_eq!(session_id_from_header(Some("  abc ")), Some("abc".to_owned()));
    assert_eq!(session_id_from_header(Some("   ")), None);
    assert_eq!(session_id_from_header(None), None);
    assert!(has_session_header(Some("s")));
    assert!(!has_session_header(Some("")));
}

#[test]
fn requests_without_a_session_are_refused_unless_they_open_one() {
    assert_eq!(require_mcp_session("/health", HttpMethod::Get, None), SessionStep::PassThrough);
    assert_eq!(
        require_mcp_session("/mcp", HttpMethod::Post, Some(" s1 ")),
        SessionStep::Forward { session_id: Some("s1".to_owned()) }
    );
    assert_eq!(require_mcp_session("/mcp", HttpMethod::Post, None), SessionStep::ReadBody);
    assert_eq!(
        require_mcp_session("/mcp", HttpMethod::Get, Some(" ")),
        SessionStep::Refuse(SessionFailure::Missing)
    );
    assert_eq!(
        require_mcp_session("/mcp/x", HttpMethod::Delete, None),
        SessionStep::Refuse(SessionFailure::Missing)
    );
    assert_eq!(
        require_mcp_session("/mcp", HttpMethod::Other, None),
        SessionStep::Forward { session_id: None }
    );
}

#[test]
fn bodies_without_a_session_go_through_only_to_open_one() {
    assert_eq!(
        allow_initialize_without_session(br#"{"jsonrpc":"2.0","method":"initialize"}"#),
        Admission::Forward
    );
    assert_eq!(
        allow_initialize_without_session(br#"{"jsonrpc":"2.0","method":"tools/list"}"#),
        Admission::Refuse(SessionFailure::Missing)
    );
    assert_eq!(allow_initialize_without_session(b"{not json"), Admission::Forward);
    assert_eq!(
        allow_initialize_without_session(b"[]"),
        Admission::Refuse(SessionFailure::Missing)
    );
    assert_eq!(admit_without_session(None), Admission::Forward);
    assert_eq!(admit_without_session(Some(true)), Admission::Forward);
    assert_eq!(
        admit_without_session(Some(false)),
        Admission::Refuse(SessionFailure::Missing)
    );
    assert!(opening_method(Some("initialize")));
    assert!(!opening_method(Some("Initialize")));
    assert!(!opening_method(None));
}

#[test]
fn session_replies_are_exact() {
    let missing = session_invalid(SessionFailure::Missing);
    assert_eq!(missing.status, 404);
    assert_eq!(missing.body, "HTTP_SESSION_INVALID");
    assert_eq!(missing, session_invalid(SessionFailure::UnknownOrExpired));
    assert_eq!(payload_too_large().status, 413);
    assert_eq!(payload_too_large().body, "request body too large");
    let failed = cleanup_failed(&InputFailure {
        code: "ACTION_BACKEND_UNAVAILABLE".to_owned(),
        detail: "gone".to_owned(),
    });
    assert_eq!(failed.status, 500);
    assert_eq!(failed.body, "ACTION_BACKEND_UNAVAILABLE: gone");
    assert_eq!(answer_in_session(404), Some(session_invalid(SessionFailure::Missing)));
    assert_eq!(answer_in_session(200), None);
}

#[test]
fn only_deletes_of_a_named_session_clean_up() {
    let (cleanup, step) = SessionCleanup::begin("/mcp", HttpMethod::Delete, Some(" s1 "));
    assert_eq!(cleanup.session_id.as_deref(), Some("s1"));
    assert_eq!(step, CleanupStep::CheckActive);
    assert_eq!(cleanup.responded(204), CleanupStep::Snapshot);
    assert_eq!(cleanup.responded(200), CleanupStep::Snapshot);
    assert_eq!(cleanup.responded(299), CleanupStep::Snapshot);
    assert_eq!(cleanup.responded(300), CleanupStep::PassResponse);
    assert_eq!(cleanup.responded(404), CleanupStep::PassResponse);

    for (path, method, header) in [
        ("/mcp", HttpMethod::Post, Some("s1")),
        ("/other", HttpMethod::Delete, Some("s1")),
        ("/mcp", HttpMethod::Delete, None),
    ] {
        let (cleanup, step) = SessionCleanup::begin(path, method, header);
        assert_eq!(cleanup.session_id, None);
        assert_eq!(step, CleanupStep::HandOn);
        assert_eq!(cleanup.responded(200), CleanupStep::PassResponse);
    }
}

#[test]
fn cleanup_answers_unknown_sessions_and_failures() {
    assert_eq!(SessionCleanup::checked(true), CleanupStep::HandOn);
    assert_eq!(
        SessionCleanup::checked(false),
        CleanupStep::Answer(session_invalid(SessionFailure::UnknownOrExpired))
    );
    let failure = || InputFailure { code: "CODE".to_owned(), detail: "detail".to_owned() };
    assert_eq!(SessionCleanup::snapshot_taken(None), CleanupStep::Release);
    assert_eq!(
        SessionCleanup::snapshot_taken(Some(failure())),
        CleanupStep::GiveBackLease(cleanup_failed(&failure()))
    );
    assert_eq!(
        SessionCleanup::release_held_inputs_on_delete(None),
        CleanupStep::PassResponse
    );
    assert_eq!(
        SessionCleanup::release_held_inputs_on_delete(Some(failure())),
        CleanupStep::Answer(cleanup_failed(&failure()))
    );
}
