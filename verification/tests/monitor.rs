use cosmic_paste::dbus::SelfCopyGuard;
use cosmic_paste::item::text_checksum;
use cosmic_paste::monitor::{ingest_clipboard_event, is_text_transfer_mime, text_plain_mime, IngestDecision};
use cosmic_paste::session::HistorySession;

#[test]
fn ingest_event_adds_text_to_history() {
    let mut session = HistorySession::with_defaults("history");
    let mut guard = SelfCopyGuard::new();
    let decision =
        ingest_clipboard_event(&mut session, true, &mut guard, "text/plain", b"from clipboard", 5);
    let uuid = session.history().get(0).unwrap().uuid;
    assert_eq!(
        decision,
        IngestDecision::Ingested {
            action: "add",
            target: uuid::Uuid::from_u128(uuid).to_string(),
            count: 1
        }
    );
    assert_eq!(session.history().get(0).unwrap().plain_text(), Some("from clipboard"));
}

#[test]
fn ingest_event_skips_non_text_mime_invalid_utf8_and_paused() {
    let mut session = HistorySession::with_defaults("history");
    let mut guard = SelfCopyGuard::new();
    assert_eq!(
        ingest_clipboard_event(&mut session, true, &mut guard, "image/png", b"png", 1),
        IngestDecision::Skip
    );
    assert_eq!(
        ingest_clipboard_event(&mut session, true, &mut guard, "text/plain", &[0xff, 0xfe], 1),
        IngestDecision::Skip
    );
    assert_eq!(
        ingest_clipboard_event(&mut session, false, &mut guard, "text/plain", b"paused", 1),
        IngestDecision::Skip
    );
    assert!(session.history().is_empty());
}

#[test]
fn ingest_event_suppressed_while_own_write_is_pending() {
    let mut session = HistorySession::with_defaults("history");
    let mut guard = SelfCopyGuard::new();
    guard.arm(text_checksum("ours"));
    assert_eq!(
        ingest_clipboard_event(&mut session, true, &mut guard, "text/plain", b"stale", 1),
        IngestDecision::Skip
    );
    assert_eq!(
        ingest_clipboard_event(&mut session, true, &mut guard, "text/plain", b"ours", 2),
        IngestDecision::Skip
    );
    assert!(session.history().is_empty());
    let decision = ingest_clipboard_event(&mut session, true, &mut guard, "text/plain", b"later", 3);
    assert!(matches!(decision, IngestDecision::Ingested { action: "add", count: 1, .. }));
}

#[test]
fn duplicate_ingest_reports_existing_entry() {
    let mut session = HistorySession::with_defaults("history");
    let mut guard = SelfCopyGuard::new();
    ingest_clipboard_event(&mut session, true, &mut guard, "text/plain", b"a", 1);
    let first = session.history().get(0).unwrap().uuid;
    ingest_clipboard_event(&mut session, true, &mut guard, "text/plain", b"b", 2);
    let decision = ingest_clipboard_event(&mut session, true, &mut guard, "text/plain", b"a", 3);
    assert_eq!(
        decision,
        IngestDecision::Ingested {
            action: "add",
            target: uuid::Uuid::from_u128(first).to_string(),
            count: 2
        }
    );
}

#[test]
fn text_mime_selection() {
    assert!(is_text_transfer_mime("text/plain;charset=utf-8"));
    assert!(is_text_transfer_mime("UTF8_STRING"));
    assert!(!is_text_transfer_mime("image/png"));
    let offered = vec!["image/png".to_owned(), "STRING".to_owned(), "text/plain".to_owned()];
    assert_eq!(text_plain_mime(&offered), Some("text/plain".to_owned()));
    let offered = vec!["text/plain;charset=iso-8859-1".to_owned()];
    assert_eq!(text_plain_mime(&offered), Some("text/plain;charset=iso-8859-1".to_owned()));
    assert_eq!(text_plain_mime(&["image/png".to_owned()]), None);
}
