use sgcia::event::{Event, Severity};
use sgcia::exporter::{encode_batch, BatchConfig, Batcher, EnvelopeBuilder, RetryPolicy};
use sgcia::json::{map_insert, JsonMap, JsonValue};
use sgcia::s1_hec::{S1HecConfig, S1HecEnvelopeBuilder};
use sgcia::splunk_hec::{SplunkHecConfig, SplunkHecEnvelopeBuilder};

fn s(t: &str) -> JsonValue {
    JsonValue::Str(t.to_string())
}

fn obj(entries: Vec<(&str, JsonValue)>) -> JsonValue {
    JsonValue::Object(entries.into_iter().map(|(k, v)| (k.to_string(), v)).collect())
}

fn str_at<'a>(v: &'a JsonValue, k: &str) -> Option<&'a str> {
    v.get(k).and_then(|x| x.as_str())
}

#[test]
fn config_applies_defaults() {
    let cfg = SplunkHecConfig::from_value(
        "splunk_hec",
        &obj(vec![
            ("endpoint", s("https://splunk.example.com:8088/services/collector/event")),
            ("token", s("secret")),
        ]),
    )
    .unwrap();
    assert_eq!(cfg.source, "sgcia");
    assert_eq!(cfg.batch.max_events, 200);
}

#[test]
fn s1_config_applies_defaults() {
    let cfg = S1HecConfig::from_value(
        "sentinelone_hec",
        &obj(vec![
            ("endpoint", s("https://xdr.us1.sentinelone.net/services/collector/event")),
            ("token", s("secret")),
            ("sourcetype", s("cisco_asa_ts_parser")),
        ]),
    )
    .unwrap();
    assert_eq!(cfg.batch.max_events, 100);
    assert_eq!(cfg.retry.max_attempts, 5);
}

#[test]
fn s1_config_refuses_a_missing_endpoint() {
    let r = S1HecConfig::from_value("sentinelone_hec", &obj(vec![("token", s("secret")), ("sourcetype", s("x"))]));
    assert!(r.is_err());
}

#[test]
fn uses_sourcetype_field_when_present_on_event() {
    let b = SplunkHecEnvelopeBuilder {
        source: "sgcia".to_string(),
        sourcetype_field: Some("attributes.sourcetype".to_string()),
        default_sourcetype: Some("fallback".to_string()),
        index: Some("main".to_string()),
    };
    let mut event = Event::new(b"hello".to_vec());
    map_insert(&mut event.attributes, "sourcetype".to_string(), s("cisco_asa"));

    let envelope = match b.build(&event) {
        Ok(e) => e,
        Err(_) => panic!("envelope builds"),
    };
    assert_eq!(str_at(&envelope, "sourcetype"), Some("cisco_asa"));
    assert_eq!(str_at(&envelope, "source"), Some("sgcia"));
    assert_eq!(str_at(&envelope, "index"), Some("main"));
    assert_eq!(str_at(&envelope, "event"), Some("hello"));
}

#[test]
fn falls_back_to_default_sourcetype_when_field_absent() {
    let b = SplunkHecEnvelopeBuilder {
        source: "sgcia".to_string(),
        sourcetype_field: Some("attributes.sourcetype".to_string()),
        default_sourcetype: Some("fallback".to_string()),
        index: None,
    };
    let event = Event::new(b"hello".to_vec());
    let envelope = match b.build(&event) {
        Ok(e) => e,
        Err(_) => panic!("envelope builds"),
    };
    assert_eq!(str_at(&envelope, "sourcetype"), Some("fallback"));
    assert!(envelope.get("index").is_none());
}

fn s1_builder() -> S1HecEnvelopeBuilder {
    let mut static_fields: JsonMap = Vec::new();
    map_insert(&mut static_fields, "tags".to_string(), s("prod-datacenter-1"));
    S1HecEnvelopeBuilder {
        sourcetype: "cisco_asa_ts_parser".to_string(),
        datasource: Some("cisco_asa".to_string()),
        msgid_field: Some("attributes.msgid".to_string()),
        static_fields,
    }
}

#[test]
fn top_level_keys_are_exactly_time_host_event_fields() {
    let b = s1_builder();
    let mut event = Event::new(b"hello".to_vec());
    map_insert(&mut event.attributes, "msgid".to_string(), s("302013"));
    event.severity = Some(Severity { number: 3, text: "error".to_string() });

    let envelope = match b.build(&event) {
        Ok(e) => e,
        Err(_) => panic!("envelope builds"),
    };
    let o = envelope.as_object().unwrap();
    let mut keys: Vec<&str> = o.iter().map(|(k, _)| k.as_str()).collect();
    keys.sort_unstable();
    assert_eq!(keys, vec!["event", "fields", "host", "time"]);

    let fields = envelope.get("fields").unwrap();
    assert_eq!(str_at(fields, "sourcetype"), Some("cisco_asa_ts_parser"));
    assert_eq!(str_at(fields, "datasource"), Some("cisco_asa"));
    assert_eq!(str_at(fields, "msgid"), Some("302013"));
    assert!(matches!(fields.get("syslog_severity"), Some(JsonValue::Number(n)) if n == "3"));
    assert_eq!(str_at(fields, "tags"), Some("prod-datacenter-1"));
}

#[test]
fn falls_back_to_hostname_attribute_when_no_resource_host() {
    let b = s1_builder();
    let mut event = Event::new(b"hello".to_vec());
    map_insert(&mut event.attributes, "hostname".to_string(), s("mymachine"));
    let envelope = match b.build(&event) {
        Ok(e) => e,
        Err(_) => panic!("envelope builds"),
    };
    assert_eq!(str_at(&envelope, "host"), Some("mymachine"));
}

#[test]
fn batch_body_is_newline_delimited_json() {
    let b = s1_builder();
    let events = vec![Event::new(b"one".to_vec()), Event::new(b"two".to_vec())];
    let body = match encode_batch(&b, &events) {
        Ok(t) => t,
        Err(_) => panic!("batch encodes"),
    };
    let lines: Vec<&str> = body.split('\n').collect();
    assert_eq!(lines.len(), 3);
    assert!(lines[0].contains("\"event\":\"one\""));
    assert!(lines[1].contains("\"event\":\"two\""));
    assert_eq!(lines[2], "");
}

#[test]
fn batcher_flushes_at_max_events_and_on_close() {
    let mut cfg = BatchConfig::default();
    cfg.max_events = 2;
    let mut batcher = Batcher::new(cfg);
    assert!(batcher.on_event(Event::new(b"a".to_vec())).is_none());
    let full = batcher.on_event(Event::new(b"b".to_vec())).expect("second event fills the batch");
    assert_eq!(full.len(), 2);
    assert!(batcher.on_event(Event::new(b"c".to_vec())).is_none());
    let rest = batcher.on_close();
    assert_eq!(rest.len(), 1);
    assert!(batcher.on_tick().is_none());
}

#[test]
fn retry_defaults() {
    let p = RetryPolicy::default();
    assert_eq!(p.max_attempts, 5);
    assert_eq!(p.initial_backoff_ms, 500);
    assert_eq!(p.max_backoff_ms, 30_000);
}

#[test]
fn splunk_hec_default_source_is_the_product_name() {
    assert_eq!(sgcia::splunk_hec::default_source(), "sgcia");
}

#[test]
fn every_event_lands_in_one_batch_in_arrival_order() {
    let mut cfg = BatchConfig::default();
    cfg.max_events = 3;
    let mut batcher = Batcher::new(cfg);
    let mut sent: Vec<Vec<Vec<u8>>> = Vec::new();
    let names: Vec<&[u8]> = vec![b"e1", b"e2", b"e3", b"e4", b"e5"];
    for (i, name) in names.iter().enumerate() {
        if let Some(batch) = batcher.on_event(Event::new(name.to_vec())) {
            sent.push(batch.into_iter().map(|e| e.raw).collect());
        }
        if i == 3 {
            if let Some(batch) = batcher.on_tick() {
                sent.push(batch.into_iter().map(|e| e.raw).collect());
            }
        }
    }
    let rest = batcher.on_close();
    if !rest.is_empty() {
        sent.push(rest.into_iter().map(|e| e.raw).collect());
    }
    assert_eq!(sent.len(), 3);
    assert_eq!(sent[0], vec![b"e1".to_vec(), b"e2".to_vec(), b"e3".to_vec()]);
    assert_eq!(sent[1], vec![b"e4".to_vec()]);
    assert_eq!(sent[2], vec![b"e5".to_vec()]);
    assert!(sent.iter().all(|b| !b.is_empty() && b.len() <= 3));
}

#[test]
fn zero_max_events_sends_each_event_alone() {
    let mut cfg = BatchConfig::default();
    cfg.max_events = 0;
    let mut batcher = Batcher::new(cfg);
    let one = batcher.on_event(Event::new(b"x".to_vec())).expect("sent at once");
    assert_eq!(one.len(), 1);
    assert!(batcher.on_close().is_empty());
}
