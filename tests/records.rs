use tracelog::fields::{render_fields, CacheParse};
use tracelog::span::{SpanRegistry, TraceExt};
use tracelog::trace::{
    deployment_environment, format_event, format_record, FieldValue, Level, LogEvent,
};

fn event() -> LogEvent {
    LogEvent {
        level: Level::Info,
        target: "app::worker".to_string(),
        fields: vec![
            ("message".to_string(), FieldValue::Str("started \"job\"".to_string())),
            ("count".to_string(), FieldValue::UInt(42)),
            ("delta".to_string(), FieldValue::Int(-7)),
            ("ok".to_string(), FieldValue::Bool(true)),
        ],
    }
}

fn sorted_keys(v: &serde_json::Value) -> Vec<String> {
    let mut k: Vec<String> = v.as_object().unwrap().keys().cloned().collect();
    k.sort();
    k
}

fn chain3() -> (SpanRegistry, usize) {
    let mut reg = SpanRegistry::new();
    let root = reg.open_span("root".to_string(), None);
    let mid = reg.open_span("mid".to_string(), Some(root));
    let leaf = reg.open_span("leaf".to_string(), Some(mid));
    reg.record_fields(root, "{\"a\":1}".to_string());
    reg.record_fields(leaf, "{\"b\":\"x\"}".to_string());
    (reg, leaf)
}

#[test]
fn record_without_span_has_four_members() {
    let reg = SpanRegistry::new();
    let r = format_record(&event(), &reg, None, "2024-01-02T03:04:05+00:00");
    assert_eq!(
        r,
        "{\"timestamp\":\"2024-01-02T03:04:05+00:00\",\"level\":\"INFO\",\
         \"fields\":{\"message\":\"started \\\"job\\\"\",\"count\":42,\"delta\":-7,\"ok\":true},\
         \"target\":\"app::worker\"}"
    );
    let v: serde_json::Value = serde_json::from_str(&r).unwrap();
    assert_eq!(sorted_keys(&v), vec!["fields", "level", "target", "timestamp"]);
}

#[test]
fn record_in_span_chain_lists_root_first() {
    let (reg, leaf) = chain3();
    let r = format_record(&event(), &reg, Some(leaf), "t");
    let v: serde_json::Value = serde_json::from_str(&r).unwrap();
    let spans = v["spans"].as_array().unwrap();
    assert_eq!(spans.len(), 3);
    assert_eq!(spans[0]["name"], "root");
    assert_eq!(spans[0]["a"], 1);
    assert_eq!(spans[1]["name"], "mid");
    assert_eq!(spans[2]["name"], "leaf");
    assert_eq!(spans[2], v["span"]);
    assert_eq!(
        sorted_keys(&v),
        vec!["fields", "level", "span", "spans", "target", "timestamp"]
    );
    assert!(r.contains(
        "\"span\":{\"b\":\"x\",\"name\":\"leaf\"},\"spans\":[{\"a\":1,\"name\":\"root\"},{\"name\":\"mid\"},{\"b\":\"x\",\"name\":\"leaf\"}]"
    ));
}

#[test]
fn record_with_single_span_has_one_element() {
    let mut reg = SpanRegistry::new();
    let s = reg.open_span("only".to_string(), None);
    let r = format_record(&event(), &reg, Some(s), "t");
    let v: serde_json::Value = serde_json::from_str(&r).unwrap();
    assert_eq!(v["spans"].as_array().unwrap().len(), 1);
    assert_eq!(v["span"], serde_json::from_str::<serde_json::Value>("{\"name\":\"only\"}").unwrap());
}

#[test]
fn record_carries_trace_ids_of_current_span_only() {
    let (mut reg, leaf) = chain3();
    reg.attach_trace(0, TraceExt { trace_id: 1, span_id: Some(2) });
    let r0 = format_record(&event(), &reg, Some(leaf), "t");
    assert!(!r0.contains("trace_id"));
    reg.attach_trace(leaf, TraceExt { trace_id: 0x0123_4567_89ab_cdef_0011_2233_4455_6677, span_id: Some(0xff) });
    let r = format_record(&event(), &reg, Some(leaf), "t");
    assert!(r.ends_with(
        ",\"span_id\":\"00000000000000ff\",\"trace_id\":\"0123456789abcdef0011223344556677\"}"
    ));
}

#[test]
fn unassigned_span_id_renders_as_invalid_id() {
    let mut reg = SpanRegistry::new();
    let s = reg.open_span("s".to_string(), None);
    reg.attach_trace(s, TraceExt { trace_id: 5, span_id: None });
    let r = format_record(&event(), &reg, Some(s), "t");
    let v: serde_json::Value = serde_json::from_str(&r).unwrap();
    assert_eq!(v["span_id"], "0000000000000000");
    assert_eq!(v["trace_id"], "00000000000000000000000000000005");
}

#[test]
fn object_cache_keeps_members_and_name_last() {
    let mut reg = SpanRegistry::new();
    let s = reg.open_span("work".to_string(), None);
    reg.record_fields(s, "{\"a\":1,\"name\":\"impostor\"}".to_string());
    let r = reg.render_span(s);
    assert!(r.contains("\"a\":1"));
    assert!(r.ends_with(",\"name\":\"work\"}"));
    let v: serde_json::Value = serde_json::from_str(&r).unwrap();
    assert_eq!(v["name"], "work");
    assert_eq!(v["a"], 1);
}

#[test]
fn non_object_cache_is_reported() {
    let mut reg = SpanRegistry::new();
    let s = reg.open_span("work".to_string(), None);
    reg.record_fields(s, "\"oops\"".to_string());
    assert_eq!(
        reg.render_span(s),
        "{\"field\":\"oops\",\"field_error\":\"field was not valid object\",\"name\":\"work\"}"
    );
    reg.record_fields(s, "[1, 2]".to_string());
    assert_eq!(
        reg.render_span(s),
        "{\"field\":[1,2],\"field_error\":\"field was not valid object\",\"name\":\"work\"}"
    );
}

#[test]
fn unparsable_cache_gives_parser_message() {
    let mut reg = SpanRegistry::new();
    let s = reg.open_span("work".to_string(), None);
    reg.record_fields(s, "{not json".to_string());
    let msg = serde_json::from_str::<serde_json::Value>("{not json").unwrap_err().to_string();
    let expected = format!(
        "{{\"field_error\":{},\"name\":\"work\"}}",
        serde_json::to_string(&msg).unwrap()
    );
    assert_eq!(reg.render_span(s), expected);
    let v: serde_json::Value = serde_json::from_str(&reg.render_span(s)).unwrap();
    assert_eq!(sorted_keys(&v), vec!["field_error", "name"]);
}

#[test]
fn missing_cache_renders_name_only() {
    let mut reg = SpanRegistry::new();
    let s = reg.open_span("quiet".to_string(), None);
    assert_eq!(reg.render_span(s), "{\"name\":\"quiet\"}");
    assert_eq!(render_fields("quiet", None), "{\"name\":\"quiet\"}");
}

#[test]
fn render_fields_from_each_parse_outcome() {
    assert_eq!(
        render_fields("n", Some(CacheParse::Object(vec![("k".to_string(), "true".to_string())]))),
        "{\"k\":true,\"name\":\"n\"}"
    );
    assert_eq!(
        render_fields("n", Some(CacheParse::NotObject("3".to_string()))),
        "{\"field\":3,\"field_error\":\"field was not valid object\",\"name\":\"n\"}"
    );
    assert_eq!(
        render_fields("n", Some(CacheParse::Invalid("bad \"x\"".to_string()))),
        "{\"field_error\":\"bad \\\"x\\\"\",\"name\":\"n\"}"
    );
}

#[test]
fn formatting_twice_differs_only_in_timestamp() {
    let (reg, leaf) = chain3();
    let a = format_record(&event(), &reg, Some(leaf), "2024-01-01T00:00:00+00:00");
    let b = format_record(&event(), &reg, Some(leaf), "2024-01-01T00:00:00+00:00");
    assert_eq!(a, b);
    let mut x = String::new();
    let mut y = String::new();
    format_event(&event(), &reg, Some(leaf), &mut x);
    format_event(&event(), &reg, Some(leaf), &mut y);
    let strip = |s: &str| {
        let mut v: serde_json::Value = serde_json::from_str(s.trim_end()).unwrap();
        v.as_object_mut().unwrap().remove("timestamp");
        v
    };
    assert_eq!(strip(&x), strip(&y));
    let after_ts = |s: &str| s[s.find("\"level\"").unwrap()..].to_string();
    assert_eq!(after_ts(&x), after_ts(&y));
}

#[test]
fn format_event_appends_one_parseable_line() {
    let (reg, leaf) = chain3();
    let mut out = "previous\n".to_string();
    format_event(&event(), &reg, Some(leaf), &mut out);
    assert!(out.starts_with("previous\n{"));
    assert!(out.ends_with("}\n"));
    assert_eq!(out.matches('\n').count(), 2);
    let line = &out["previous\n".len()..out.len() - 1];
    let v: serde_json::Value = serde_json::from_str(line).unwrap();
    let ts = v["timestamp"].as_str().unwrap();
    assert!(chrono::DateTime::parse_from_rfc3339(ts).is_ok());
    assert_eq!(v["level"], "INFO");
    assert_eq!(v["target"], "app::worker");
    assert_eq!(v["fields"]["count"], 42);
}

#[test]
fn levels_and_numbers_render_exactly() {
    assert_eq!(Level::Trace.as_str(), "TRACE");
    assert_eq!(Level::Debug.as_str(), "DEBUG");
    assert_eq!(Level::Warn.as_str(), "WARN");
    assert_eq!(Level::Error.as_str(), "ERROR");
    assert_eq!(FieldValue::Int(i64::MIN).to_json(), "-9223372036854775808");
    assert_eq!(FieldValue::Int(0).to_json(), "0");
    assert_eq!(FieldValue::UInt(u64::MAX).to_json(), "18446744073709551615");
    assert_eq!(FieldValue::Bool(false).to_json(), "false");
    assert_eq!(FieldValue::Str("a\nb\\".to_string()).to_json(), "\"a\\nb\\\\\"");
}

#[test]
fn deployment_environment_falls_back() {
    assert_eq!(deployment_environment(Some("prod".to_string()), true), "prod");
    assert_eq!(deployment_environment(None, true), "dev");
    assert_eq!(deployment_environment(None, false), "unknown");
}

#[test]
fn ancestors_walk_from_root() {
    let (reg, leaf) = chain3();
    assert_eq!(reg.ancestors_from_root(leaf), vec![0, 1, 2]);
    assert_eq!(reg.ancestors_from_root(0), vec![0]);
}
