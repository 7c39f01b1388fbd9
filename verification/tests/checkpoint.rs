use sgcia::checkpoint::{CheckpointStore, FileIdentity};
use sgcia::time::Timestamp;
use sgcia::file_receiver::{build_globset, file_selected, finish_poll, split_complete_lines, start_offset, split_pattern, FileLogConfig, StartAt, TailState, Tailer};
use sgcia::json::JsonValue;

fn reload(store: &CheckpointStore) -> CheckpointStore {
    let text = store.to_text().expect("checkpoint serializes");
    CheckpointStore::from_text("checkpoint.json", Some(&text))
}

#[test]
fn loads_missing_file_as_empty() {
    let store = CheckpointStore::from_text("does-not-exist.json", None);
    assert_eq!(store.get(FileIdentity { device: 1, inode: 2 }), None);
}

#[test]
fn round_trips_through_flush_and_reload() {
    let id = FileIdentity { device: 42, inode: 7 };
    let mut store = CheckpointStore::empty("nested/checkpoint.json");
    store.set(id, "/var/log/app.log", 1234);
    let reloaded = reload(&store);
    assert_eq!(reloaded.get(id), Some(1234));
}

#[test]
fn survives_rotation_by_tracking_new_identity_separately() {
    let old_id = FileIdentity { device: 1, inode: 100 };
    let new_id = FileIdentity { device: 1, inode: 200 };

    let mut store = CheckpointStore::empty("checkpoint.json");
    store.set(old_id, "/var/log/app.log", 500);
    let mut store = reload(&store);
    assert_eq!(store.get(old_id), Some(500));
    store.set(new_id, "/var/log/app.log", 10);
    let store = reload(&store);
    assert_eq!(store.get(old_id), Some(500));
    assert_eq!(store.get(new_id), Some(10));
}

#[test]
fn retain_drops_stale_identities() {
    let keep_id = FileIdentity { device: 1, inode: 1 };
    let drop_id = FileIdentity { device: 1, inode: 2 };
    let mut store = CheckpointStore::empty("checkpoint.json");
    store.set(keep_id, "/a", 1);
    store.set(drop_id, "/b", 2);
    store.retain(|id| id.device == keep_id.device && id.inode == keep_id.inode);
    assert_eq!(store.get(keep_id), Some(1));
    assert_eq!(store.get(drop_id), None);
}

#[test]
fn garbage_text_loads_as_empty() {
    let store = CheckpointStore::from_text("checkpoint.json", Some("not json"));
    assert_eq!(store.get(FileIdentity { device: 1, inode: 1 }), None);
}

#[test]
fn identity_key_round_trips() {
    let id = FileIdentity { device: 18, inode: 4_000_000_001 };
    assert_eq!(id.key(), "18:4000000001");
    let back = FileIdentity::parse_key("18:4000000001").unwrap();
    assert_eq!((back.device, back.inode), (18, 4_000_000_001));
    assert!(FileIdentity::parse_key("18-1").is_none());
}

fn file_cfg(extra: Vec<(&str, JsonValue)>) -> JsonValue {
    let mut entries = vec![
        ("inc\x6cude".to_string(), JsonValue::Array(vec![JsonValue::Str("/var/log/app/*.log".to_string())])),
        ("checkpoint_file".to_string(), JsonValue::Str("/tmp/app.checkpoint.json".to_string())),
    ];
    for (k, v) in extra {
        entries.push((k.to_string(), v));
    }
    JsonValue::Object(entries)
}

#[test]
fn applies_defaults_and_parses_poll_interval() {
    let cfg = FileLogConfig::from_value("filelog/app", &file_cfg(vec![])).unwrap();
    assert!(cfg.start_at == StartAt::End);
    assert_eq!(cfg.poll_interval_ms, 500);
}

#[test]
fn rejects_invalid_poll_interval() {
    let r = FileLogConfig::from_value("filelog/app", &file_cfg(vec![("poll_interval", JsonValue::Str("5x".to_string()))]));
    assert!(r.is_err());
}

#[test]
fn complete_lines_and_the_partial_tail() {
    let (lines, rest) = split_complete_lines(&b"one\ntwo\r\nthr".to_vec());
    assert_eq!(lines, vec![b"one".to_vec(), b"two".to_vec()]);
    assert_eq!(rest, b"thr".to_vec());
    assert!(!rest.contains(&b'\n'));
}

#[test]
fn start_offset_prefers_the_saved_offset() {
    assert_eq!(start_offset(Some(7), StartAt::End, 100), 7);
    assert_eq!(start_offset(None, StartAt::End, 100), 100);
    assert_eq!(start_offset(None, StartAt::Beginning, 100), 0);
}

#[test]
fn tail_state_holds_a_partial_line_until_it_completes() {
    let mut st = TailState::new("/var/log/app.log", 0);
    let first = st.consume(b"hello\nwor");
    assert_eq!(first, vec![b"hello".to_vec()]);
    let second = st.consume(b"ld\n");
    assert_eq!(second, vec![b"world".to_vec()]);
}

#[test]
fn tailer_starts_new_files_where_asked() {
    let mut t = Tailer::new();
    let id = FileIdentity { device: 1, inode: 9 };
    assert!(!t.contains(id));
    let at = t.observe(id, "/var/log/app.log", 50, StartAt::End, None);
    assert_eq!(at, 50);
    assert!(t.contains(id));
}

#[test]
fn split_pattern_finds_the_literal_directory() {
    let p = split_pattern("/var/log/app/*.log");
    assert_eq!(p.dir, "/var/log/app");
    assert_eq!(p.file_name, "*.log");
}

#[test]
fn reload_gives_back_every_entry_exactly() {
    let a = FileIdentity { device: 3, inode: 9 };
    let b = FileIdentity { device: 18446744073709551615, inode: 0 };
    let mut store = CheckpointStore::empty("checkpoint.json");
    store.set_at(a, "/var/log/a.log", 10, Timestamp { secs: 1_700_000_000, nanos: 123_456_789 });
    store.set_at(b, "/var/log/\"quoted\".log", 18446744073709551615, Timestamp { secs: 0, nanos: 0 });
    store.set_at(a, "/var/log/a.log.1", 20, Timestamp { secs: 1_700_000_001, nanos: 500_000_000 });
    let reloaded = reload(&store);
    assert_eq!(reloaded.data.version, 1);
    assert_eq!(reloaded.data.entries.len(), 2);
    assert_eq!(reloaded.data.entries[0].0, a.key());
    assert_eq!(reloaded.data.entries[0].1.path, "/var/log/a.log.1");
    assert_eq!(reloaded.data.entries[0].1.offset, 20);
    assert_eq!(reloaded.data.entries[0].1.updated_at, Timestamp { secs: 1_700_000_001, nanos: 500_000_000 });
    assert_eq!(reloaded.data.entries[1].0, b.key());
    assert_eq!(reloaded.data.entries[1].1.path, "/var/log/\"quoted\".log");
    assert_eq!(reloaded.data.entries[1].1.offset, 18446744073709551615);
    assert_eq!(reloaded.data.entries[1].1.updated_at, Timestamp { secs: 0, nanos: 0 });
}

#[test]
fn tailer_keeps_each_file_apart_and_restarts_a_truncated_one() {
    let mut t = Tailer::new();
    let a = FileIdentity { device: 1, inode: 1 };
    let b = FileIdentity { device: 1, inode: 2 };
    assert_eq!(t.observe(a, "/logs/a.log", 0, StartAt::Beginning, None), 0);
    assert_eq!(t.observe(b, "/logs/b.log", 100, StartAt::End, Some(40)), 40);
    assert_eq!(t.consume(a, b"one\ntw"), vec![b"one".to_vec()]);
    assert_eq!(t.state(a).unwrap().offset, 6);
    assert_eq!(t.state(a).unwrap().partial, b"tw".to_vec());
    assert_eq!(t.state(b).unwrap().offset, 40);
    // The file shrank below the offset: it is read again from the start.
    assert_eq!(t.observe(a, "/logs/a.log.1", 3, StartAt::End, None), 0);
    assert_eq!(t.state(a).unwrap().path, "/logs/a.log.1");
    assert!(t.state(a).unwrap().partial.is_empty());
    // Bytes for a file that is not followed are ignored.
    let c = FileIdentity { device: 9, inode: 9 };
    assert!(t.consume(c, b"x\n").is_empty());
    assert!(!t.contains(c));
    // `b` was not seen and its path now holds another file: it is dropped.
    t.evict(&vec![a], &vec![(b, Some(c))]);
    assert!(t.contains(a));
    assert!(!t.contains(b));
}

#[test]
fn every_newline_ends_exactly_one_line() {
    let (lines, rest) = split_complete_lines(&b"a\r\n\n\nbc\nd".to_vec());
    assert_eq!(lines, vec![b"a".to_vec(), b"".to_vec(), b"".to_vec(), b"bc".to_vec()]);
    assert_eq!(rest, b"d".to_vec());
}

#[test]
fn discovers_matching_files_and_respects_exclude() {
    let inc_pattern = split_pattern("/data/logs/*.log");
    let excludes = vec!["/data/logs/*.log.gz".to_string()];
    assert!(file_selected(&inc_pattern.file_glob, &excludes, "/data/logs/app.log", "app.log"));
    assert!(!file_selected(&inc_pattern.file_glob, &excludes, "/data/logs/app.log.gz", "app.log.gz"));
    assert!(!file_selected(&inc_pattern.file_glob, &excludes, "/data/logs/other.txt", "other.txt"));
    let everything = split_pattern("/data/logs/*");
    assert!(!file_selected(&everything.file_glob, &excludes, "/data/logs/app.log.gz", "app.log.gz"));
    assert!(file_selected(&everything.file_glob, &excludes, "/data/logs/other.txt", "other.txt"));
}

#[test]
fn exclude_sets_build_or_name_the_bad_pattern() {
    assert!(build_globset(&[]).is_ok());
    assert!(build_globset(&["/var/log/*.gz".to_string()]).is_ok());
    let err = build_globset(&["/var/log/[".to_string()]).err().expect("unclosed class is refused");
    assert!(err.starts_with("invalid exclude pattern '/var/log/[': "));
}

#[test]
fn a_file_name_that_does_not_compile_falls_back_to_every_file() {
    let p = split_pattern("/var/log/app/[.log");
    assert_eq!(p.file_name, "[.log");
    assert_eq!(p.file_glob, "*");
    assert_eq!(split_pattern("/var/log/app/*.log").file_glob, "*.log");
}

#[test]
fn a_rotated_file_leaves_the_tailer_and_the_checkpoint() {
    let mut t = Tailer::new();
    let mut store = CheckpointStore::empty("checkpoint.json");
    let old_id = FileIdentity { device: 1, inode: 10 };
    let new_id = FileIdentity { device: 1, inode: 11 };
    let kept = FileIdentity { device: 1, inode: 12 };
    t.observe(old_id, "/logs/app.log", 0, StartAt::Beginning, None);
    t.observe(kept, "/logs/other.log", 0, StartAt::Beginning, None);
    store.set(old_id, "/logs/app.log", 500);
    store.set(kept, "/logs/other.log", 7);
    // An entry for a file the tailer does not follow goes too.
    store.set(FileIdentity { device: 2, inode: 2 }, "/logs/gone.log", 1);
    // app.log was deleted and recreated: its path now holds a new file.
    t.observe(new_id, "/logs/app.log", 0, StartAt::Beginning, None);
    finish_poll(&mut t, &mut store, &vec![new_id, kept], &vec![(old_id, Some(new_id))]);
    assert!(!t.contains(old_id));
    assert!(t.contains(new_id));
    assert!(t.contains(kept));
    assert_eq!(store.get(old_id), None);
    assert_eq!(store.get(kept), Some(7));
    assert_eq!(store.get(FileIdentity { device: 2, inode: 2 }), None);
}
