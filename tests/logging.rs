use dbc_rust_modules::context::{AppIdentity, LoggingContext};
use dbc_rust_modules::entry::LogEntry;
use dbc_rust_modules::json::to_json_string;
use dbc_rust_modules::level::LogLevel;
use dbc_rust_modules::session::SessionId;
use dbc_rust_modules::timestamp::Timestamp;
use serde_json::Value;
use std::collections::HashSet;

fn fixed_clock() -> Timestamp {
    Timestamp::new(2014, 7, 8, 9, 10, 11, 0).unwrap()
}

fn object(members: &[(&str, &str)]) -> String {
    let mut map = serde_json::Map::new();
    for (k, v) in members {
        map.insert(k.to_string(), Value::String(v.to_string()));
    }
    Value::Object(map).to_string()
}

#[test]
fn test_logging_without_session() {
    let mut ctx = LoggingContext::new();
    ctx.configure();
    let app = AppIdentity::new();
    let output = ctx.info(&app, "test logging without session", &fixed_clock());
    assert_eq!(
        object(&[
            ("timestamp", "2014-07-08T09:10:11.000Z"),
            ("app", "dbc-rust-modules"),
            ("level", "INFO"),
            ("message", "test logging without session"),
            ("sessionid", "00000000-0000-0000-0000-000000000000"),
        ]),
        output.as_str()
    );
}

#[test]
fn test_logging_with_session() {
    let mut ctx = LoggingContext::new();
    ctx.configure();
    let app = AppIdentity::new();
    let session_id = uuid::Uuid::new_v4();
    ctx.enter_session(&SessionId::from_u128(session_id.as_u128()));
    let output = ctx.info(&app, "test logging with session", &fixed_clock());
    assert_eq!(
        object(&[
            ("timestamp", "2014-07-08T09:10:11.000Z"),
            ("app", "dbc-rust-modules"),
            ("level", "INFO"),
            ("message", "test logging with session"),
            ("sessionid", session_id.to_string().as_str()),
        ]),
        output.as_str()
    );
}

#[test]
fn exact_line_without_session() {
    let mut app = AppIdentity::new();
    assert!(app.init("dbc-rust-modules".to_string()).is_ok());
    let ctx = LoggingContext::new();
    assert_eq!(
        ctx.info(&app, "test logging without session", &fixed_clock()),
        "{\"app\":\"dbc-rust-modules\",\"level\":\"INFO\",\"message\":\"test logging without session\",\"sessionid\":\"00000000-0000-0000-0000-000000000000\",\"timestamp\":\"2014-07-08T09:10:11.000Z\"}"
    );
}

#[test]
fn info_on_fresh_context_has_no_data_or_error() {
    let ctx = LoggingContext::new();
    let app = AppIdentity::new();
    let line = ctx.info(&app, "hello \"world\"", &fixed_clock());
    let v: Value = serde_json::from_str(&line).unwrap();
    let obj = v.as_object().unwrap();
    assert_eq!(obj.len(), 5);
    assert!(obj.get("data").is_none());
    assert!(obj.get("error").is_none());
    assert_eq!(obj["message"], Value::String("hello \"world\"".to_string()));
    assert!(line.contains("\"message\":\"hello \\\"world\\\"\""));
}

#[test]
fn entered_session_is_emitted_until_cleared() {
    let mut ctx = LoggingContext::new();
    let app = AppIdentity::new();
    let id = SessionId::from_u128(0x0123456789abcdef0123456789abcdef);
    ctx.enter_session(&id);
    let first = ctx.info(&app, "a", &fixed_clock());
    let second = ctx.error(&app, "b", "boom", &fixed_clock());
    assert!(first.contains("\"sessionid\":\"01234567-89ab-cdef-0123-456789abcdef\""));
    assert!(second.contains("\"sessionid\":\"01234567-89ab-cdef-0123-456789abcdef\""));
    ctx.clear_session();
    let third = ctx.info(&app, "c", &fixed_clock());
    assert!(third.contains("\"sessionid\":\"00000000-0000-0000-0000-000000000000\""));
}

#[test]
fn configure_clears_session() {
    let mut ctx = LoggingContext::new();
    let app = AppIdentity::new();
    ctx.enter_session(&SessionId::from_u128(42));
    ctx.configure();
    assert!(ctx.session().is_nil());
    let line = ctx.info(&app, "after configure", &fixed_clock());
    assert!(line.contains("\"sessionid\":\"00000000-0000-0000-0000-000000000000\""));
}

#[test]
fn new_sessions_are_never_nil_and_distinct() {
    let mut ctx = LoggingContext::new();
    let mut seen = HashSet::new();
    for _ in 0..10_000 {
        let id = ctx.new_session();
        assert!(!id.is_nil());
        assert_eq!(ctx.session(), id);
        let parsed = uuid::Uuid::parse_str(&id.to_text()).unwrap();
        assert_eq!(parsed.get_version_num(), 4);
        assert_eq!((id.as_u128() >> 76) & 0xf, 4);
        assert_eq!((id.as_u128() >> 62) & 0x3, 2);
        assert_eq!(parsed.get_variant(), uuid::Variant::RFC4122);
        assert!(seen.insert(id.as_u128()));
    }
}

#[test]
fn encoding_is_deterministic() {
    let mut ctx = LoggingContext::new();
    let app = AppIdentity::new();
    ctx.enter_session(&SessionId::from_u128(7));
    let a = ctx.data(&app, "m", "{\"k\":[1,2]}", &fixed_clock());
    let b = ctx.data(&app, "m", "{\"k\":[1,2]}", &fixed_clock());
    assert_eq!(a, b);
}

#[test]
fn timestamp_truncated_to_milliseconds() {
    let ctx = LoggingContext::new();
    let app = AppIdentity::new();
    let t = Timestamp::new(2016, 7, 25, 17, 22, 40, 835_692_521).unwrap();
    assert_eq!(t.to_rfc3339_millis(), "2016-07-25T17:22:40.835Z");
    let micro = Timestamp::new(2014, 7, 8, 9, 10, 11, 835_692_000).unwrap();
    assert_eq!(micro.to_rfc3339_millis(), "2014-07-08T09:10:11.835Z");
    assert!(ctx.info(&app, "m", &micro).ends_with("\"timestamp\":\"2014-07-08T09:10:11.835Z\"}"));
    let small = Timestamp::new(5, 1, 2, 3, 4, 5, 7_000_000).unwrap();
    assert_eq!(small.to_rfc3339_millis(), "0005-01-02T03:04:05.007Z");
}

#[test]
fn data_is_nested_under_app_name() {
    let mut app = AppIdentity::new();
    app.init("myapp".to_string()).unwrap();
    let ctx = LoggingContext::new();
    let line = ctx.data(&app, "payload", "{\"x\":1}", &fixed_clock());
    assert_eq!(
        line,
        "{\"app\":\"myapp\",\"data\":{\"myapp\":{\"x\":1}},\"level\":\"INFO\",\"message\":\"payload\",\"sessionid\":\"00000000-0000-0000-0000-000000000000\",\"timestamp\":\"2014-07-08T09:10:11.000Z\"}"
    );
}

#[test]
fn error_is_rendered_as_string() {
    let app = AppIdentity::new();
    let ctx = LoggingContext::new();
    let line = ctx.error(&app, "failed", "Custom { kind: \"x\" }\n", &fixed_clock());
    assert_eq!(
        line,
        "{\"app\":\"dbc-rust-modules\",\"error\":\"Custom { kind: \\\"x\\\" }\\n\",\"level\":\"ERROR\",\"message\":\"failed\",\"sessionid\":\"00000000-0000-0000-0000-000000000000\",\"timestamp\":\"2014-07-08T09:10:11.000Z\"}"
    );
}

#[test]
fn entry_with_data_and_error() {
    let entry = LogEntry {
        level: LogLevel::ERROR,
        message: "both".to_string(),
        data: Some("[true]".to_string()),
        error: Some("e".to_string()),
    };
    let line = entry.encode("a\\b", &SessionId::nil(), &fixed_clock());
    assert_eq!(
        line,
        "{\"app\":\"a\\\\b\",\"data\":{\"a\\\\b\":[true]},\"error\":\"e\",\"level\":\"ERROR\",\"message\":\"both\",\"sessionid\":\"00000000-0000-0000-0000-000000000000\",\"timestamp\":\"2014-07-08T09:10:11.000Z\"}"
    );
}

#[test]
fn app_identity_is_set_once() {
    let mut app = AppIdentity::new();
    assert!(!app.is_initialized());
    assert_eq!(app.name(), "dbc-rust-modules");
    assert_eq!(app.init("first".to_string()), Ok(()));
    assert_eq!(app.init("second".to_string()), Err("second".to_string()));
    assert!(app.is_initialized());
    assert_eq!(app.name(), "first");
}

#[test]
fn timestamp_validation() {
    assert!(Timestamp::new(2015, 2, 29, 0, 0, 0, 0).is_none());
    assert!(Timestamp::new(2016, 2, 29, 0, 0, 0, 0).is_some());
    assert!(Timestamp::new(1900, 2, 29, 0, 0, 0, 0).is_none());
    assert!(Timestamp::new(2000, 2, 29, 0, 0, 0, 0).is_some());
    assert!(Timestamp::new(2014, 4, 31, 0, 0, 0, 0).is_none());
    assert!(Timestamp::new(2014, 13, 1, 0, 0, 0, 0).is_none());
    assert!(Timestamp::new(262143, 1, 1, 0, 0, 0, 0).is_none());
    assert!(Timestamp::new(-262144, 1, 1, 0, 0, 0, 0).is_none());
    assert!(Timestamp::new(262142, 12, 31, 23, 59, 59, 0).is_some());
    assert!(Timestamp::new(-262143, 1, 1, 0, 0, 0, 0).is_some());
    assert!(Timestamp::new(-4, 2, 29, 0, 0, 0, 0).is_some());
    assert!(Timestamp::new(-1, 2, 29, 0, 0, 0, 0).is_none());
    assert!(Timestamp::new(-100, 2, 29, 0, 0, 0, 0).is_none());
    assert!(Timestamp::new(-400, 2, 29, 0, 0, 0, 0).is_some());
    assert!(Timestamp::new(2014, 1, 1, 24, 0, 0, 0).is_none());
    assert!(Timestamp::new(2014, 1, 1, 0, 0, 60, 0).is_none());
    assert!(Timestamp::new(2014, 1, 1, 0, 0, 0, 1_000_000_000).is_none());
    assert!(Timestamp::new(9999, 12, 31, 23, 59, 59, 999_999_999).is_some());
    assert!(Timestamp::new(2016, 12, 31, 23, 59, 59, 1_999_999_999).is_some());
    assert!(Timestamp::new(2016, 12, 31, 23, 59, 58, 1_000_000_000).is_none());
    assert!(Timestamp::new(2016, 12, 31, 23, 59, 59, 2_000_000_000).is_none());
}

#[test]
fn json_string_escapes() {
    assert_eq!(to_json_string("plain"), "\"plain\"");
    assert_eq!(to_json_string(""), "\"\"");
    assert_eq!(to_json_string("a\"b\\c"), "\"a\\\"b\\\\c\"");
    assert_eq!(to_json_string("\u{8}\t\n\u{c}\r"), "\"\\b\\t\\n\\f\\r\"");
    assert_eq!(to_json_string("\u{1}\u{1f}\u{7f}é"), "\"\\u0001\\u001f\u{7f}é\"");
}

#[test]
fn session_text_and_levels() {
    assert_eq!(SessionId::nil().to_text(), "00000000-0000-0000-0000-000000000000");
    assert_eq!(
        SessionId::from_u128(0xffffffffffffffffffffffffffffffff).to_text(),
        "ffffffff-ffff-ffff-ffff-ffffffffffff"
    );
    assert_eq!(SessionId::from_u128(5).as_u128(), 5);
    assert_eq!(LogLevel::INFO.name(), "INFO");
    assert_eq!(LogLevel::ERROR.name(), "ERROR");
    assert_eq!(LogLevel::default(), LogLevel::INFO);
    let entry = LogEntry::new(LogLevel::INFO, "x");
    assert!(entry.data.is_none() && entry.error.is_none());
}

#[test]
fn leap_second_is_written_as_sixty() {
    let leap = Timestamp::new(2016, 12, 31, 23, 59, 59, 1_500_000_000).unwrap();
    assert_eq!(leap.to_rfc3339_millis(), "2016-12-31T23:59:60.500Z");
    let start = Timestamp::new(2016, 12, 31, 23, 59, 59, 1_000_999_999).unwrap();
    assert_eq!(start.to_rfc3339_millis(), "2016-12-31T23:59:60.000Z");
}

#[test]
fn years_outside_four_digits_carry_a_sign() {
    let late = Timestamp::new(10000, 1, 2, 3, 4, 5, 6_000_000).unwrap();
    assert_eq!(late.to_rfc3339_millis(), "+10000-01-02T03:04:05.006Z");
    let bc = Timestamp::new(-1, 12, 31, 0, 0, 0, 0).unwrap();
    assert_eq!(bc.to_rfc3339_millis(), "-0001-12-31T00:00:00.000Z");
    let far = Timestamp::new(-262143, 1, 1, 0, 0, 0, 0).unwrap();
    assert_eq!(far.to_rfc3339_millis(), "-262143-01-01T00:00:00.000Z");
    let zero = Timestamp::new(0, 1, 1, 0, 0, 0, 0).unwrap();
    assert_eq!(zero.to_rfc3339_millis(), "0000-01-01T00:00:00.000Z");
}
