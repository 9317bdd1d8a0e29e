use cloudtrace_telemetry::format::{
    format_json_event, format_json_record, format_json_record_at, record_field, render_object,
};
use cloudtrace_telemetry::timestamp::{format_rfc3339, instant_from_reading, now_since_epoch};
use cloudtrace_telemetry::{Field, FieldValue, Level, LogRecord, Severity, SpanContext};

const TS: &str = "2024-01-02T03:04:05.000006Z";

fn field(name: &str, value: FieldValue) -> Field {
    Field { name: name.to_string(), value }
}

fn record(level: Level, span: Option<SpanContext>, fields: Vec<Field>) -> LogRecord {
    LogRecord { level, target: "app::http".to_string(), span, fields }
}

#[test]
fn severity_mapping_covers_every_level() {
    assert_eq!(Level::Trace.severity(), Severity::Debug);
    assert_eq!(Level::Debug.severity(), Severity::Debug);
    assert_eq!(Level::Info.severity(), Severity::Info);
    assert_eq!(Level::Warn.severity(), Severity::Warning);
    assert_eq!(Level::Error.severity(), Severity::Error);
    assert_eq!(Severity::Debug.as_str(), "DEBUG");
    assert_eq!(Severity::Info.as_str(), "INFO");
    assert_eq!(Severity::Warning.as_str(), "WARNING");
    assert_eq!(Severity::Error.as_str(), "ERROR");
}

#[test]
fn json_record_without_span() {
    let rec = record(
        Level::Warn,
        None,
        vec![
            field("message", FieldValue::Str("Hello endpoint called".to_string())),
            field("user", FieldValue::Str("bob".to_string())),
            field("count", FieldValue::I64(-42)),
            field("ok", FieldValue::Bool(true)),
            field("n", FieldValue::U64(7)),
        ],
    );

    let line = format_json_record(&rec, &TS.to_string());

    assert_eq!(
        line,
        "{\"severity\":\"WARNING\",\"timestamp\":\"2024-01-02T03:04:05.000006Z\",\"target\":\"app::http\",\
         \"message\":\"Hello endpoint called\",\"user\":\"bob\",\"count\":-42,\"ok\":true,\"n\":7}\n"
    );
}

#[test]
fn json_record_with_span() {
    let span = SpanContext { name: "hello".to_string(), fields: vec![field("user", FieldValue::Str("ann".to_string()))] };
    let rec = record(Level::Info, Some(span), vec![field("message", FieldValue::Str("hi".to_string()))]);

    let line = format_json_record(&rec, &TS.to_string());

    assert_eq!(
        line,
        "{\"severity\":\"INFO\",\"timestamp\":\"2024-01-02T03:04:05.000006Z\",\"target\":\"app::http\",\
         \"span\":{\"name\":\"hello\",\"user\":\"ann\"},\"message\":\"hi\"}\n"
    );
}

#[test]
fn json_record_with_empty_span_and_no_fields() {
    let span = SpanContext { name: "idle".to_string(), fields: vec![] };
    let rec = record(Level::Trace, Some(span), vec![]);

    let line = format_json_record(&rec, &TS.to_string());

    assert_eq!(
        line,
        "{\"severity\":\"DEBUG\",\"timestamp\":\"2024-01-02T03:04:05.000006Z\",\"target\":\"app::http\",\
         \"span\":{\"name\":\"idle\"}}\n"
    );
}

#[test]
fn json_record_escapes_strings() {
    let rec = LogRecord {
        level: Level::Error,
        target: "a\"b".to_string(),
        span: None,
        fields: vec![field("msg\n", FieldValue::Str("say \"hi\"\nbye\\\u{1}".to_string()))],
    };

    let line = format_json_record(&rec, &TS.to_string());

    assert_eq!(
        line,
        "{\"severity\":\"ERROR\",\"timestamp\":\"2024-01-02T03:04:05.000006Z\",\"target\":\"a\\\"b\",\
         \"msg\\n\":\"say \\\"hi\\\"\\nbye\\\\\\u0001\"}\n"
    );
    assert_eq!(line.matches('\n').count(), 1);
}

#[test]
fn json_record_integer_extremes() {
    let rec = record(
        Level::Debug,
        None,
        vec![
            field("min", FieldValue::I64(i64::MIN)),
            field("max", FieldValue::U64(u64::MAX)),
            field("zero", FieldValue::I64(0)),
            field("off", FieldValue::Bool(false)),
        ],
    );

    let line = format_json_record(&rec, &TS.to_string());

    assert!(line.ends_with(
        ",\"min\":-9223372036854775808,\"max\":18446744073709551615,\"zero\":0,\"off\":false}\n"
    ));
}

#[test]
fn json_record_severity_is_first_key_for_every_level() {
    for (level, name) in [
        (Level::Trace, "DEBUG"),
        (Level::Debug, "DEBUG"),
        (Level::Info, "INFO"),
        (Level::Warn, "WARNING"),
        (Level::Error, "ERROR"),
    ] {
        let line = format_json_record(&record(level, None, vec![]), &TS.to_string());
        assert!(line.starts_with(&format!("{{\"severity\":\"{}\",\"timestamp\":", name)));
        assert!(line.ends_with("}\n"));
    }
}

#[test]
fn json_event_is_stamped_with_current_time() {
    let rec = record(Level::Info, None, vec![field("message", FieldValue::Str("x".to_string()))]);

    let line = format_json_event(&rec).unwrap();

    assert!(line.starts_with("{\"severity\":\"INFO\",\"timestamp\":\""));
    assert!(line.ends_with(",\"target\":\"app::http\",\"message\":\"x\"}\n"));
    let stamp = &line["{\"severity\":\"INFO\",\"timestamp\":\"".len()..][..27];
    assert!(stamp.ends_with('Z'));
    assert_eq!(&stamp[10..11], "T");
    assert_eq!(&stamp[19..20], ".");
}

#[test]
fn render_object_joins_members() {
    assert_eq!(render_object(&vec![]), "{}");
    assert_eq!(render_object(&vec![("\"a\"".to_string(), "1".to_string())]), "{\"a\":1}");
    assert_eq!(
        render_object(&vec![
            ("\"a\"".to_string(), "1".to_string()),
            ("\"b\"".to_string(), "true".to_string()),
        ]),
        "{\"a\":1,\"b\":true}"
    );
}

#[test]
fn json_record_at_writes_rfc3339_micros() {
    let rec = record(Level::Info, None, vec![]);

    let line = format_json_record_at(&rec, 1_704_164_645, 6).unwrap();

    assert_eq!(
        line,
        "{\"severity\":\"INFO\",\"timestamp\":\"2024-01-02T03:04:05.000006Z\",\"target\":\"app::http\"}\n"
    );
}

#[test]
fn json_record_at_rejects_bad_microseconds() {
    let rec = record(Level::Info, None, vec![]);

    assert_eq!(format_json_record_at(&rec, 0, 1_000_000), None);
}

#[test]
fn rfc3339_edges() {
    assert_eq!(format_rfc3339(0, 0), Some("1970-01-01T00:00:00.000000Z".to_string()));
    assert_eq!(format_rfc3339(-1, 999_999), Some("1969-12-31T23:59:59.999999Z".to_string()));
    assert_eq!(format_rfc3339(-62_167_219_200, 0), Some("0000-01-01T00:00:00.000000Z".to_string()));
    assert_eq!(format_rfc3339(253_402_300_799, 123_456), Some("9999-12-31T23:59:59.123456Z".to_string()));
    assert_eq!(format_rfc3339(i64::MAX, 0), None);
    assert_eq!(format_rfc3339(0, 1_000_000), None);
}

#[test]
fn clock_reading_is_after_2020() {
    let (secs, micros) = now_since_epoch().unwrap();
    assert!(secs > 1_577_836_800);
    assert!(micros < 1_000_000);
}

#[test]
fn control_characters_are_escaped_in_lower_case_hex() {
    let rec = record(Level::Info, None, vec![field("k", FieldValue::Str("\u{1f}\u{8}\u{c}\t\r/".to_string()))]);

    let line = format_json_record(&rec, &TS.to_string());

    assert!(line.ends_with(",\"k\":\"\\u001f\\b\\f\\t\\r/\"}\n"));
}

#[test]
fn clock_readings_become_floor_instants() {
    assert_eq!(instant_from_reading(Ok((1_704_164_645, 6))), Some((1_704_164_645, 6)));
    assert_eq!(instant_from_reading(Err((0, 1))), Some((-1, 999_999)));
    assert_eq!(instant_from_reading(Err((5, 0))), Some((-5, 0)));
    assert_eq!(instant_from_reading(Err((2, 250_000))), Some((-3, 750_000)));
    assert_eq!(instant_from_reading(Ok((u64::MAX, 0))), None);
    assert_eq!(instant_from_reading(Err((i64::MAX as u64 + 1, 0))), None);
    assert_eq!(instant_from_reading(Err((i64::MAX as u64, 1))), Some((i64::MIN, 999_999)));
    assert_eq!(instant_from_reading(Ok((0, 1_000_000))), None);
}

#[test]
fn recording_a_field_again_replaces_its_value_in_place() {
    let mut fields = Vec::new();
    record_field(&mut fields, "user", FieldValue::Str("anonymous".to_string()));
    record_field(&mut fields, "count", FieldValue::U64(1));
    record_field(&mut fields, "user", FieldValue::Str("bob".to_string()));

    assert_eq!(
        fields,
        vec![field("user", FieldValue::Str("bob".to_string())), field("count", FieldValue::U64(1))]
    );
}
