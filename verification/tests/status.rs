use sgcia::chain_build::build_chain;
use sgcia::editor_app::TopTab;
use sgcia::error::SgError;
use sgcia::event::Event;
use sgcia::json::{map_insert, JsonMap, JsonValue};
use sgcia::metrics::PipelineMetrics;
use sgcia::pipeline::pipeline_step;
use sgcia::operator::RunOutcome;
use sgcia::status::{redact, redacted_value};

fn s(t: &str) -> JsonValue {
    JsonValue::Str(t.to_string())
}

fn obj(entries: Vec<(&str, JsonValue)>) -> JsonValue {
    JsonValue::Object(entries.into_iter().map(|(k, v)| (k.to_string(), v)).collect())
}

fn str_at<'a>(v: &'a JsonValue, k: &str) -> Option<&'a str> {
    v.get(k).and_then(|x| x.as_str())
}

#[test]
fn redact_hides_sensitive_keys_at_any_depth() {
    let mut value = obj(vec![(
        "outer",
        obj(vec![
            ("token", s("secret-value")),
            ("nested", JsonValue::Array(vec![obj(vec![("password", s("hunter2"))]), obj(vec![("keep", s("me"))])])),
        ]),
    )]);
    redact(&mut value);
    let outer = value.get("outer").unwrap();
    assert_eq!(str_at(outer, "token"), Some("***redacted***"));
    let nested = outer.get("nested").unwrap().as_array().unwrap();
    assert_eq!(str_at(&nested[0], "password"), Some("***redacted***"));
    assert_eq!(str_at(&nested[1], "keep"), Some("me"));
}

#[test]
fn redact_matches_keys_regardless_of_case() {
    let v = obj(vec![("API_KEY", s("k")), ("Secret", obj(vec![("x", s("y"))])), ("endpoint", s("https://e"))]);
    let r = redacted_value(&v);
    assert_eq!(str_at(&r, "API_KEY"), Some("***redacted***"));
    assert_eq!(str_at(&r, "Secret"), Some("***redacted***"));
    assert_eq!(str_at(&r, "endpoint"), Some("https://e"));
}

#[test]
fn redacting_twice_changes_nothing_more() {
    let v = obj(vec![("token", s("t")), ("list", JsonValue::Array(vec![obj(vec![("apikey", s("a"))])]))]);
    let once = redacted_value(&v);
    let twice = redacted_value(&once);
    assert_eq!(format!("{:?}", once), format!("{:?}", twice));
}

fn chain_with(on_error: &str) -> sgcia::operator::OperatorChain {
    let mut defs: JsonMap = Vec::new();
    map_insert(
        &mut defs,
        "extract".to_string(),
        obj(vec![
            ("type", s("regex")),
            ("pattern", s(r"^ok (?P<word>\w+)$")),
            ("parse_from", s("body")),
            ("parse_to", s("attributes")),
            ("on_error", s(on_error)),
        ]),
    );
    match build_chain(&defs, &["extract".to_string()]) {
        Ok(c) => c,
        Err(_) => panic!("chain builds"),
    }
}

#[test]
fn pipeline_step_counts_in_out_errors_and_drops() {
    let chain = chain_with("pass");
    let mut m = PipelineMetrics::new();
    assert!(matches!(pipeline_step(&chain, &mut m, Event::new(b"ok fine".to_vec())), RunOutcome::Passed(_)));
    let out = match pipeline_step(&chain, &mut m, Event::new(b"bad".to_vec())) {
        RunOutcome::Passed(e) => e,
        _ => panic!("a passing step lets the event through"),
    };
    assert_eq!(out.meta.errors.len(), 1);
    let snap = m.snapshot();
    assert_eq!((snap.events_in, snap.events_out, snap.parse_errors, snap.events_dropped), (2, 2, 1, 0));

    let dropping = chain_with("drop");
    let mut m2 = PipelineMetrics::new();
    assert!(matches!(pipeline_step(&dropping, &mut m2, Event::new(b"bad".to_vec())), RunOutcome::Dropped));
    let snap2 = m2.snapshot();
    assert_eq!((snap2.events_in, snap2.events_out, snap2.events_dropped), (1, 0, 1));
}

#[test]
fn dead_lettered_events_stop_the_chain_and_go_to_the_sink() {
    let chain = chain_with("dead_letter");
    assert!(chain.run(Event::new(b"bad".to_vec())).is_none());
    assert!(chain.run(Event::new(b"ok fine".to_vec())).is_some());
    let mut m = PipelineMetrics::new();
    let dead = match pipeline_step(&chain, &mut m, Event::new(b"bad".to_vec())) {
        RunOutcome::DeadLettered(e) => e,
        _ => panic!("a failing dead-letter step dead-letters the event"),
    };
    assert!(dead.meta.dead_letter);
    assert_eq!(dead.meta.errors.len(), 1);
    let snap = m.snapshot();
    assert_eq!(
        (snap.events_in, snap.events_out, snap.events_dropped, snap.events_dead_lettered, snap.parse_errors),
        (1, 0, 0, 1, 1)
    );
}

#[test]
fn errors_read_like_their_kind() {
    assert_eq!(SgError::ChannelClosed.to_text(), "channel closed");
    assert_eq!(SgError::Io("disk".to_string()).to_text(), "io error: disk");
    assert_eq!(SgError::config_for("file_log/app", "bad glob").to_text(), "config error: file_log/app: bad glob");
}

#[test]
fn tabs_cycle_back_to_the_start() {
    let mut t = TopTab::Receivers;
    for _ in 0..4 {
        t = t.next();
    }
    assert_eq!(t, TopTab::Receivers);
    assert_eq!(TopTab::Pipelines.next().prev(), TopTab::Pipelines);
    assert_eq!(TopTab::Receivers.prev(), TopTab::Pipelines);
}
