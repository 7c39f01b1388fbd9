use sgcia::dashboard::{App, AppEvent};
use sgcia::editor_input::{Key, KeyPress};
use sgcia::metrics::{Counter, ExporterMetrics, ExporterSnapshot, MetricsSnapshot, PipelineSnapshot, ReceiverSnapshot};
use sgcia::time::Timestamp;

#[test]
fn counter_add_and_get() {
    let mut c = Counter::new();
    c.inc();
    c.add(4);
    assert_eq!(c.get(), 5);
}

#[test]
fn counter_wraps_at_the_top() {
    let mut c = Counter::new();
    c.add(u64::MAX);
    c.inc();
    assert_eq!(c.get(), 0);
}

#[test]
fn exporter_metrics_records_success_and_failure() {
    let mut m = ExporterMetrics::new();
    m.record_success(10);
    m.record_retry();
    m.record_failure(3, "boom".to_string());

    let snap = m.snapshot();
    assert_eq!(snap.events_in, 13);
    assert_eq!(snap.batches_sent, 1);
    assert_eq!(snap.batches_failed, 1);
    assert_eq!(snap.retries, 1);
    assert_eq!(snap.last_error.unwrap().message, "boom");
}

fn sample_snapshot() -> MetricsSnapshot {
    MetricsSnapshot {
        started_at: Timestamp { secs: 0, nanos: 0 },
        uptime_seconds: 10,
        receivers: vec![("syslog/udp".to_string(), ReceiverSnapshot { events_in: 5 })],
        pipelines: vec![(
            "logs/syslog".to_string(),
            PipelineSnapshot { events_in: 5, events_out: 4, events_dropped: 1, events_dead_lettered: 0, parse_errors: 0 },
        )],
        exporters: vec![(
            "sentinelone_hec".to_string(),
            ExporterSnapshot { events_in: 4, batches_sent: 1, batches_failed: 0, retries: 0, last_error: None },
        )],
    }
}

#[test]
fn successful_poll_clears_error_and_stores_snapshot() {
    let mut app = App::new("127.0.0.1:7801".to_string());
    app.update(AppEvent::PollResult(Err("boom".to_string())));
    assert!(app.last_error.is_some());

    app.update(AppEvent::PollResult(Ok(sample_snapshot())));
    assert!(app.last_error.is_none());
    assert!(app.last_snapshot.is_some());
    assert!(app.last_poll_at.is_some());
}

#[test]
fn failed_poll_keeps_last_good_snapshot() {
    let mut app = App::new("127.0.0.1:7801".to_string());
    app.update(AppEvent::PollResult(Ok(sample_snapshot())));
    app.update(AppEvent::PollResult(Err("connection refused".to_string())));

    assert_eq!(app.last_error.as_deref(), Some("connection refused"));
    assert!(app.last_snapshot.is_some(), "should keep the last good snapshot");
}

#[test]
fn q_key_requests_quit() {
    let mut app = App::new("127.0.0.1:7801".to_string());
    app.update(AppEvent::Key(KeyPress::from_code(Key::Char('q'))));
    assert!(app.should_quit);
}

#[test]
fn other_keys_do_not_quit() {
    let mut app = App::new("127.0.0.1:7801".to_string());
    app.update(AppEvent::Key(KeyPress::from_code(Key::Down)));
    assert!(!app.should_quit);
}

#[test]
fn uptime_counts_whole_seconds_toward_zero() {
    use_seconds(Timestamp { secs: 0, nanos: 500_000_000 }, Timestamp { secs: 10, nanos: 0 }, 9);
    use_seconds(Timestamp { secs: 10, nanos: 0 }, Timestamp { secs: 0, nanos: 500_000_000 }, -9);
    use_seconds(Timestamp { secs: 100, nanos: 0 }, Timestamp { secs: 100, nanos: 999_999_999 }, 0);
    use_seconds(Timestamp { secs: 0, nanos: 0 }, Timestamp { secs: 59, nanos: 1_500_000_000 }, 60);
}

fn use_seconds(start: Timestamp, end: Timestamp, expected: i64) {
    assert_eq!(sgcia::time::seconds_between(start, end), expected);
}
