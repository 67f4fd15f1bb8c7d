use cosmic_paste::history::HistoryPolicies;
use cosmic_paste::persistence::{
    checksum_hex, frame_history_file, join_path, quarantine_primary, resolve_load, unframe_history_file,
    validate_history_name, DataPaths, HistoryFile, HistoryStore, LoadHistoryOutcome, PersistenceError,
    SessionState, FORMAT_MAGIC, FORMAT_MAGIC_LEN, FORMAT_VERSION,
};
use cosmic_paste::item::HistoryItem;

fn temp_store() -> HistoryStore {
    HistoryStore::new(DataPaths::new("/tmp/cosmic-paste-data"))
}

#[test]
fn rejects_invalid_history_names() {
    let store = temp_store();
    let err = store.paths().history_file("../escape").unwrap_err();
    assert!(matches!(err, PersistenceError::InvalidHistoryName(_)));
}

#[test]
fn encoded_file_has_magic_header() {
    let body = "(version:1,name:\"history\",items:[])";
    let encoded = frame_history_file(FORMAT_VERSION, body);
    assert!(encoded.starts_with(&FORMAT_MAGIC));
    assert_eq!(&encoded[FORMAT_MAGIC_LEN..FORMAT_MAGIC_LEN + 4], &FORMAT_VERSION.to_le_bytes());
    assert_eq!(&encoded[FORMAT_MAGIC_LEN + 4..], body.as_bytes());
}

#[test]
fn frame_then_unframe_gives_body_back() {
    let body = "(name:\"héllo\")";
    let encoded = frame_history_file(FORMAT_VERSION, body);
    assert_eq!(unframe_history_file(&encoded, "p").unwrap(), body);
}

#[test]
fn unframe_reports_each_corruption() {
    let short = unframe_history_file(b"short", "a.ron").unwrap_err();
    assert_eq!(
        short,
        PersistenceError::Corrupted { path: "a.ron".to_owned(), reason: "file too short".to_owned() }
    );
    let bad = unframe_history_file(&[0u8; 40], "a.ron").unwrap_err();
    assert_eq!(
        bad,
        PersistenceError::Corrupted { path: "a.ron".to_owned(), reason: "bad magic header".to_owned() }
    );
    let future = frame_history_file(FORMAT_VERSION + 1, "");
    assert_eq!(
        unframe_history_file(&future, "a.ron").unwrap_err(),
        PersistenceError::UnsupportedVersion { found: FORMAT_VERSION + 1, supported: FORMAT_VERSION }
    );
    let mut invalid = frame_history_file(FORMAT_VERSION, "");
    invalid.push(0xff);
    match unframe_history_file(&invalid, "a.ron").unwrap_err() {
        PersistenceError::Corrupted { path, reason } => {
            assert_eq!(path, "a.ron");
            assert!(reason.starts_with("invalid utf-8 in ron body: "));
        }
        other => panic!("unexpected {other:?}"),
    }
}

#[test]
fn data_paths_layout() {
    let paths = DataPaths::new("/data");
    assert_eq!(paths.base(), "/data");
    assert_eq!(paths.histories_dir(), "/data/histories");
    assert_eq!(paths.history_file("work").unwrap(), "/data/histories/work.ron");
    assert_eq!(paths.history_backup_file("work").unwrap(), "/data/histories/work.ron.bak");
    assert!(paths.history_blob_dir("a b").is_err());
    assert_eq!(join_path("/data/", "x"), "/data/x");
    assert_eq!(join_path("", "x"), "x");
    assert!(validate_history_name("work_1-a").is_ok());
    assert!(validate_history_name("").is_err());
    assert!(validate_history_name(&"a".repeat(65)).is_err());
    assert!(validate_history_name(&"a".repeat(64)).is_ok());
}

#[test]
fn checksum_hex_is_lower_case() {
    let mut checksum = [0u8; 32];
    checksum[0] = 0xab;
    checksum[31] = 0x07;
    let hex = checksum_hex(&checksum);
    assert_eq!(hex.len(), 64);
    assert!(hex.starts_with("ab00"));
    assert!(hex.ends_with("0007"));
}

fn file_with(name: &str, text: &str) -> HistoryFile {
    HistoryFile {
        version: FORMAT_VERSION,
        name: name.to_owned(),
        policies: HistoryPolicies::default(),
        items: vec![HistoryItem::new_text(text.to_owned(), None, 1)],
    }
}

#[test]
fn resolve_load_prefers_primary_then_backup() {
    let outcome = resolve_load("history", HistoryPolicies::default(), false, false, None, None);
    assert!(matches!(outcome, LoadHistoryOutcome::Loaded(ref h) if h.is_empty() && h.name() == "history"));

    let outcome =
        resolve_load("history", HistoryPolicies::default(), true, true, Some(file_with("history", "p")), None);
    match outcome {
        LoadHistoryOutcome::Loaded(h) => {
            assert_eq!(h.get(0).unwrap().plain_text(), Some("p"));
            assert_eq!(h.byte_total(), 1);
        }
        other => panic!("expected Loaded, got {other:?}"),
    }

    let outcome =
        resolve_load("history", HistoryPolicies::default(), true, true, None, Some(file_with("history", "b")));
    assert!(matches!(outcome, LoadHistoryOutcome::RecoveredFromBackup(ref h) if h.len() == 1));

    let outcome = resolve_load("history", HistoryPolicies::default(), true, false, None, None);
    assert!(matches!(outcome, LoadHistoryOutcome::EmptyAfterCorruption { ref name } if name == "history"));
    assert!(quarantine_primary(true, false, false, false));
    assert!(!quarantine_primary(false, true, false, false));
    assert!(!quarantine_primary(true, true, true, false));
}

#[test]
fn session_state_defaults() {
    let state = SessionState::default();
    assert_eq!(state.active_index, 0);
    assert_eq!(state.current_history, "history");
}
