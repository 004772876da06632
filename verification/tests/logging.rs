use skills_hub::json::{JsonNumber, JsonValue};
use skills_hub::logging::{
    app_target, checked_level, frontend_target, is_sensitive_key, normalize_required,
    parse_level_filter, prepare_frontend_log, redact_json, redact_json_at_depth, to_ascii_lowercase,
    truncate_string, FrontendLogPayload, LogLevel,
};

fn text(s: &str) -> JsonValue {
    JsonValue::String(s.to_string())
}

fn as_text(v: &JsonValue) -> &str {
    match v {
        JsonValue::String(s) => s.as_str(),
        other => panic!("not a string: {:?}", other),
    }
}

fn member<'a>(v: &'a JsonValue, key: &str) -> &'a JsonValue {
    match v {
        JsonValue::Object(members) => &members.iter().find(|(k, _)| k == key).unwrap().1,
        other => panic!("not an object: {:?}", other),
    }
}

#[test]
fn level_names_select_levels() {
    assert_eq!(parse_level_filter("debug"), LogLevel::Debug);
    assert_eq!(parse_level_filter("warn"), LogLevel::Warn);
    assert_eq!(parse_level_filter("error"), LogLevel::Error);
    assert_eq!(parse_level_filter("trace"), LogLevel::Trace);
    assert_eq!(parse_level_filter("info"), LogLevel::Info);
    assert_eq!(parse_level_filter("verbose"), LogLevel::Info);
    assert_eq!(parse_level_filter("DEBUG"), LogLevel::Info);
}

#[test]
fn only_four_levels_can_be_set() {
    assert_eq!(checked_level("debug"), Ok(LogLevel::Debug));
    assert_eq!(checked_level("info"), Ok(LogLevel::Info));
    assert_eq!(checked_level("warn"), Ok(LogLevel::Warn));
    assert_eq!(checked_level("error"), Ok(LogLevel::Error));
    assert_eq!(checked_level("trace"), Err("invalid log level: trace".to_string()));
    assert_eq!(checked_level(""), Err("invalid log level: ".to_string()));
}

#[test]
fn targets() {
    assert_eq!(app_target(), "skills_hub");
    assert_eq!(frontend_target(), "frontend");
}

#[test]
fn short_strings_are_kept_and_long_ones_cut_on_a_char_boundary() {
    assert_eq!(truncate_string("hello"), "hello");
    let exact = "a".repeat(4096);
    assert_eq!(truncate_string(&exact), exact);
    let long = "b".repeat(5000);
    assert_eq!(truncate_string(&long), format!("{}...[TRUNCATED]", "b".repeat(4096)));
    let multi = format!("{}é{}", "c".repeat(4095), "d".repeat(10));
    assert_eq!(truncate_string(&multi), format!("{}...[TRUNCATED]", "c".repeat(4095)));
}

#[test]
fn required_fields_are_trimmed_or_defaulted() {
    assert_eq!(normalize_required("  click  ".to_string(), "frontend.event"), "click");
    assert_eq!(normalize_required(" \t\n".to_string(), "frontend.event"), "frontend.event");
    assert_eq!(normalize_required(String::new(), "fallback"), "fallback");
}

#[test]
fn sensitive_keys_ignore_ascii_case() {
    for key in ["token", "Secret", "PASSWORD", "authorization", "Cookie", "api_key", "ACCESS_KEY", "refresh_token", "private_key"] {
        assert!(is_sensitive_key(key), "{}", key);
    }
    for key in ["user", "tokens", "apikey", "pass word", ""] {
        assert!(!is_sensitive_key(key), "{}", key);
    }
    assert_eq!(to_ascii_lowercase("MiXeD Ünï"), "mixed Ünï");
}

#[test]
fn redaction_hides_secrets_and_cuts_strings() {
    let doc = JsonValue::Object(vec![
        ("user".to_string(), text("ada")),
        ("Password".to_string(), text("hunter2")),
        ("count".to_string(), JsonValue::Number(JsonNumber::Unsigned(3))),
        ("nested".to_string(), JsonValue::Object(vec![("token".to_string(), JsonValue::Null)])),
        ("list".to_string(), JsonValue::Array(vec![text(&"x".repeat(5000)), JsonValue::Bool(true)])),
    ]);
    let out = redact_json(doc);
    assert_eq!(as_text(member(&out, "user")), "ada");
    assert_eq!(as_text(member(&out, "Password")), "[REDACTED]");
    assert!(matches!(member(&out, "count"), JsonValue::Number(JsonNumber::Unsigned(3))));
    assert_eq!(as_text(member(member(&out, "nested"), "token")), "[REDACTED]");
    match member(&out, "list") {
        JsonValue::Array(items) => {
            assert_eq!(as_text(&items[0]), format!("{}...[TRUNCATED]", "x".repeat(4096)));
            assert!(matches!(items[1], JsonValue::Bool(true)));
        }
        other => panic!("not an array: {:?}", other),
    }
}

#[test]
fn redaction_stops_at_depth_eight() {
    let mut doc = text("deep");
    for _ in 0..9 {
        doc = JsonValue::Array(vec![doc]);
    }
    let mut out = redact_json(doc);
    for _ in 0..8 {
        out = match out {
            JsonValue::Array(mut items) => items.remove(0),
            other => panic!("not an array: {:?}", other),
        };
    }
    assert_eq!(as_text(&out), "[TRUNCATED]");
    assert_eq!(as_text(&redact_json_at_depth(JsonValue::Null, 8)), "[TRUNCATED]");
    assert!(matches!(redact_json_at_depth(JsonValue::Null, 7), JsonValue::Null));
}

fn payload(level: &str, event: &str) -> FrontendLogPayload {
    FrontendLogPayload {
        level: level.to_string(),
        event: event.to_string(),
        message: "something happened".to_string(),
        area: None,
        outcome: None,
        command: None,
        task_id: None,
        error_code: None,
        duration_ms: None,
        app_version: None,
        meta: None,
    }
}

#[test]
fn frontend_records_get_defaults() {
    let record = prepare_frontend_log(payload("verbose", "   "));
    assert_eq!(record.level, LogLevel::Info);
    assert_eq!(record.event, "frontend.event");
    assert_eq!(record.message, "something happened");
    assert_eq!(record.area, "app");
    assert_eq!(record.outcome, "unknown");
    assert_eq!(record.command, "");
    assert_eq!(record.task_id, "");
    assert_eq!(record.error_code, "");
    assert_eq!(record.duration_ms, None);
    assert_eq!(record.app_version, "");
    assert!(matches!(record.meta, JsonValue::Null));
    assert_eq!(prepare_frontend_log(payload("trace", "e")).level, LogLevel::Info);
}

#[test]
fn frontend_records_keep_given_fields_and_redact_meta() {
    let mut p = payload("error", " prompts.save ");
    p.area = Some("prompts".to_string());
    p.outcome = Some("failed".to_string());
    p.command = Some("update_prompt".to_string());
    p.duration_ms = Some(12);
    p.meta = Some(JsonValue::Object(vec![("api_key".to_string(), text("k-123"))]));
    let record = prepare_frontend_log(p);
    assert_eq!(record.level, LogLevel::Error);
    assert_eq!(record.event, "prompts.save");
    assert_eq!(record.area, "prompts");
    assert_eq!(record.outcome, "failed");
    assert_eq!(record.command, "update_prompt");
    assert_eq!(record.duration_ms, Some(12));
    assert_eq!(as_text(member(&record.meta, "api_key")), "[REDACTED]");
    assert_eq!(prepare_frontend_log(payload("warn", "e")).level, LogLevel::Warn);
    assert_eq!(prepare_frontend_log(payload("debug", "e")).level, LogLevel::Debug);
}
