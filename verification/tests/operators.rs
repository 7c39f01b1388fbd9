use sgcia::chain_build::{build_chain, BuildError};
use sgcia::event::Event;
use sgcia::field_op::FieldOpOperator;
use sgcia::json::{map_contains_key, map_get, map_insert, JsonMap, JsonValue};
use sgcia::json_op::JsonOperator;
use sgcia::kv_op::KvOperator;
use sgcia::regex_op::RegexOperator;
use sgcia::severity_op::SeverityOperator;
use sgcia::timestamp_op::TimestampOperator;

fn s(t: &str) -> JsonValue {
    JsonValue::Str(t.to_string())
}

fn obj(entries: Vec<(&str, JsonValue)>) -> JsonValue {
    JsonValue::Object(entries.into_iter().map(|(k, v)| (k.to_string(), v)).collect())
}

fn attr<'a>(e: &'a Event, k: &str) -> Option<&'a str> {
    map_get(&e.attributes, k).and_then(|v| v.as_str())
}

fn ok(r: Result<Event, (Event, sgcia::operator::OperatorError)>) -> Event {
    match r {
        Ok(e) => e,
        Err(_) => panic!("operator succeeds"),
    }
}

fn blank_event() -> Event {
    Event::new(b"x".to_vec())
}

#[test]
fn builds_and_runs_a_multi_step_chain() {
    let mut defs: JsonMap = Vec::new();
    map_insert(
        &mut defs,
        "extract".to_string(),
        obj(vec![
            ("type", s("regex")),
            ("pattern", s(r"^%ASA-(?P<severity>\d)-(?P<msgid>\d+):\s*(?P<message>.*)$")),
            ("parse_from", s("body")),
            ("parse_to", s("attributes")),
            ("on_error", s("pass")),
        ]),
    );
    map_insert(
        &mut defs,
        "add_ds".to_string(),
        obj(vec![("type", s("add")), ("field", s("attributes.datasource")), ("value", s("cisco_asa"))]),
    );
    let chain = match build_chain(&defs, &["extract".to_string(), "add_ds".to_string()]) {
        Ok(c) => c,
        Err(_) => panic!("chain builds"),
    };
    let event = chain.run(Event::new(b"%ASA-6-302013: Built inbound TCP connection".to_vec())).unwrap();
    assert_eq!(attr(&event, "msgid"), Some("302013"));
    assert_eq!(attr(&event, "datasource"), Some("cisco_asa"));
    assert!(event.meta.errors.is_empty());
}

fn never_matching(on_error: &str) -> JsonMap {
    let mut defs: JsonMap = Vec::new();
    map_insert(
        &mut defs,
        "extract".to_string(),
        obj(vec![
            ("type", s("regex")),
            ("pattern", s(r"^NEVER-MATCHES$")),
            ("parse_from", s("body")),
            ("parse_to", s("attributes")),
            ("on_error", s(on_error)),
        ]),
    );
    defs
}

#[test]
fn pass_on_error_keeps_event_flowing_with_error_recorded() {
    let chain = match build_chain(&never_matching("pass"), &["extract".to_string()]) {
        Ok(c) => c,
        Err(_) => panic!("chain builds"),
    };
    let event = chain.run(Event::new(b"anything".to_vec())).unwrap();
    assert_eq!(event.meta.errors.len(), 1);
}

#[test]
fn drop_on_error_discards_the_event() {
    let chain = match build_chain(&never_matching("drop"), &["extract".to_string()]) {
        Ok(c) => c,
        Err(_) => panic!("chain builds"),
    };
    assert!(chain.run(Event::new(b"anything".to_vec())).is_none());
}

#[test]
fn unknown_operator_reference_is_a_build_error() {
    let defs: JsonMap = Vec::new();
    let r = build_chain(&defs, &["missing".to_string()]);
    assert!(matches!(r, Err(BuildError::UnknownOperatorRef(_))));
}

#[test]
fn add_sets_a_static_field() {
    let cfg = obj(vec![("field", s("attributes.datasource")), ("value", s("cisco_asa"))]);
    let op = FieldOpOperator::from_value("add_ds", "add", &cfg).unwrap();
    let event = ok(op.process(blank_event()));
    assert_eq!(attr(&event, "datasource"), Some("cisco_asa"));
}

#[test]
fn remove_deletes_a_field() {
    let mut event = blank_event();
    map_insert(&mut event.attributes, "secret".to_string(), s("x"));
    let cfg = obj(vec![("field", s("attributes.secret"))]);
    let op = FieldOpOperator::from_value("rm", "remove", &cfg).unwrap();
    let event = ok(op.process(event));
    assert!(!map_contains_key(&event.attributes, "secret"));
}

#[test]
fn copy_duplicates_without_removing_source() {
    let mut event = blank_event();
    map_insert(&mut event.attributes, "a".to_string(), s("v"));
    let cfg = obj(vec![("from", s("attributes.a")), ("to", s("attributes.b"))]);
    let op = FieldOpOperator::from_value("cp", "copy", &cfg).unwrap();
    let event = ok(op.process(event));
    assert_eq!(attr(&event, "a"), Some("v"));
    assert_eq!(attr(&event, "b"), Some("v"));
}

#[test]
fn move_relocates_and_removes_source() {
    let mut event = blank_event();
    map_insert(&mut event.attributes, "message".to_string(), s("hi"));
    let cfg = obj(vec![("from", s("attributes.message")), ("to", s("body"))]);
    let op = FieldOpOperator::from_value("mv", "move", &cfg).unwrap();
    let event = ok(op.process(event));
    assert!(!map_contains_key(&event.attributes, "message"));
    assert_eq!(event.body.as_str(), Some("hi"));
}

#[test]
fn move_missing_source_is_an_error() {
    let cfg = obj(vec![("from", s("attributes.nope")), ("to", s("body"))]);
    let op = FieldOpOperator::from_value("mv", "move", &cfg).unwrap();
    assert!(op.process(blank_event()).is_err());
}

#[test]
fn merges_parsed_object_into_attributes() {
    let cfg = obj(vec![("parse_from", s("body")), ("parse_to", s("attributes"))]);
    let op = JsonOperator::from_value("j", &cfg).unwrap();
    let event = ok(op.process(Event::new(br#"{"user":"neo","result":"success"}"#.to_vec())));
    assert_eq!(attr(&event, "user"), Some("neo"));
    assert_eq!(attr(&event, "result"), Some("success"));
}

#[test]
fn replaces_body_when_parse_to_is_body() {
    let cfg = obj(vec![("parse_from", s("body")), ("parse_to", s("body"))]);
    let op = JsonOperator::from_value("j", &cfg).unwrap();
    let event = ok(op.process(Event::new(br#"{"a":1}"#.to_vec())));
    assert!(matches!(event.body.get("a"), Some(JsonValue::Number(n)) if n == "1"));
}

#[test]
fn invalid_json_is_an_error() {
    let cfg = obj(vec![("parse_from", s("body")), ("parse_to", s("attributes"))]);
    let op = JsonOperator::from_value("j", &cfg).unwrap();
    assert!(op.process(Event::new(b"not json at all".to_vec())).is_err());
}

#[test]
fn parses_quoted_and_unquoted_pairs() {
    let cfg = obj(vec![("parse_from", s("body")), ("parse_to", s("attributes"))]);
    let op = KvOperator::from_value("kv", &cfg).unwrap();
    let event = ok(op.process(Event::new(br#"user=neo action="mass extract" host=zion1"#.to_vec())));
    assert_eq!(attr(&event, "user"), Some("neo"));
    assert_eq!(attr(&event, "action"), Some("mass extract"));
    assert_eq!(attr(&event, "host"), Some("zion1"));
}

#[test]
fn no_pairs_is_an_error() {
    let cfg = obj(vec![("parse_from", s("body")), ("parse_to", s("attributes"))]);
    let op = KvOperator::from_value("kv", &cfg).unwrap();
    assert!(op.process(Event::new(b"just a plain sentence".to_vec())).is_err());
}

#[test]
fn extracts_named_captures_into_attributes() {
    let cfg = obj(vec![
        ("pattern", s(r"^%ASA-(?P<severity>\d)-(?P<msgid>\d+):\s*(?P<message>.*)$")),
        ("parse_from", s("body")),
        ("parse_to", s("attributes")),
    ]);
    let op = RegexOperator::from_value("extract_asa_fields", &cfg).unwrap();
    let event = ok(op.process(Event::new(b"%ASA-6-302013: Built inbound TCP connection".to_vec())));
    assert_eq!(attr(&event, "severity"), Some("6"));
    assert_eq!(attr(&event, "msgid"), Some("302013"));
    assert_eq!(attr(&event, "message"), Some("Built inbound TCP connection"));
}

#[test]
fn non_matching_input_is_an_error() {
    let cfg = obj(vec![("pattern", s(r"^ONLY-THIS-MATCHES$")), ("parse_from", s("body")), ("parse_to", s("attributes"))]);
    let op = RegexOperator::from_value("r", &cfg).unwrap();
    assert!(op.process(Event::new(b"something else entirely".to_vec())).is_err());
}

#[test]
fn maps_syslog_severity_number_to_text() {
    let cfg = obj(vec![("parse_from", s("attributes.severity")), ("preset", s("syslog"))]);
    let op = SeverityOperator::from_value("sev", &cfg).unwrap();
    let mut event = blank_event();
    map_insert(&mut event.attributes, "severity".to_string(), s("3"));
    let event = ok(op.process(event));
    let sev = event.severity.unwrap();
    assert_eq!(sev.number, 3);
    assert_eq!(sev.text, "error");
}

#[test]
fn out_of_range_is_an_error() {
    let cfg = obj(vec![("parse_from", s("attributes.severity")), ("preset", s("syslog"))]);
    let op = SeverityOperator::from_value("sev", &cfg).unwrap();
    let mut event = blank_event();
    map_insert(&mut event.attributes, "severity".to_string(), s("99"));
    assert!(op.process(event).is_err());
}

#[test]
fn parses_rfc3339() {
    let cfg = obj(vec![("parse_from", s("attributes.ts")), ("layout", s("rfc3339"))]);
    let op = TimestampOperator::from_value("ts", &cfg).unwrap();
    let mut event = blank_event();
    map_insert(&mut event.attributes, "ts".to_string(), s("2026-07-28T12:00:00Z"));
    let event = ok(op.process(event));
    assert_eq!(event.timestamp.secs, 1_785_240_000);
    assert_eq!(event.timestamp.nanos, 0);
}

#[test]
fn parses_epoch_seconds() {
    let cfg = obj(vec![("parse_from", s("attributes.ts")), ("layout", s("epoch"))]);
    let op = TimestampOperator::from_value("ts", &cfg).unwrap();
    let mut event = blank_event();
    map_insert(&mut event.attributes, "ts".to_string(), JsonValue::Number("1800000000".to_string()));
    let event = ok(op.process(event));
    assert_eq!(event.timestamp.secs, 1_800_000_000);
}

#[test]
fn unparseable_value_is_an_error() {
    let cfg = obj(vec![("parse_from", s("attributes.ts")), ("layout", s("rfc3339"))]);
    let op = TimestampOperator::from_value("ts", &cfg).unwrap();
    let mut event = blank_event();
    map_insert(&mut event.attributes, "ts".to_string(), s("not a date"));
    assert!(op.process(event).is_err());
}

#[test]
fn operator_failure_keeps_the_raw_bytes() {
    let cfg = obj(vec![("pattern", s(r"^ONLY$")), ("parse_from", s("body")), ("parse_to", s("attributes"))]);
    let op = RegexOperator::from_value("r", &cfg).unwrap();
    match op.process(Event::new(b"raw bytes".to_vec())) {
        Err((e, _)) => assert_eq!(e.raw, b"raw bytes".to_vec()),
        Ok(_) => panic!("expected an error"),
    }
}
