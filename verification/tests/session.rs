use cosmic_paste::error::Error;
use cosmic_paste::session::HistorySession;

#[test]
fn session_keeps_active_index_at_zero_after_ingest() {
    let mut session = HistorySession::with_defaults("history");
    session.active_index.set_active_index(2, 3).unwrap();
    session.ingest_text("fresh", None, 1);
    assert_eq!(session.active_index.active_index(), 0);
}

#[test]
fn session_prev_next_offsets_clipboard_target() {
    let mut session = HistorySession::with_defaults("history");
    session.ingest_text("one", None, 1);
    session.ingest_text("two", None, 2);
    session.ingest_text("three", None, 3);

    let (index, item) = session.select_at_offset(1).unwrap();
    assert_eq!(index, 1);
    assert_eq!(item.plain_text(), Some("two"));

    let (index, item) = session.select_at_offset(-1).unwrap();
    assert_eq!(index, 0);
    assert_eq!(item.plain_text(), Some("three"));
}

#[test]
fn session_navigation_stops_at_boundaries_without_wrap() {
    let mut session = HistorySession::with_defaults("history");
    assert!(matches!(session.select_at_offset(1), Err(Error::EmptyHistory)));
    session.ingest_text("one", None, 1);
    session.ingest_text("two", None, 2);
    assert!(session.select_at_offset(-1).is_err());
    assert_eq!(session.active_index().active_index(), 0);
    session.select_at_offset(1).unwrap();
    assert!(session.select_at_offset(1).is_err());
    assert_eq!(session.active_index().active_index(), 1);
}

#[test]
fn session_delete_keeps_active_entry_selected() {
    let mut session = HistorySession::with_defaults("history");
    session.ingest_text("one", None, 1);
    session.ingest_text("two", None, 2);
    session.ingest_text("three", None, 3);
    session.select_at_offset(2).unwrap();
    let newest = session.history().get(0).unwrap().uuid;
    let deleted = session.delete(newest).unwrap();
    assert_eq!(deleted.plain_text(), Some("three"));
    assert_eq!(session.active_index().active_index(), 1);
    let active = session.history().get(1).unwrap();
    assert_eq!(active.plain_text(), Some("one"));
}

#[test]
fn session_pop_select_and_empty_reset_active_index() {
    let mut session = HistorySession::with_defaults("history");
    session.ingest_text("one", None, 1);
    session.ingest_text("two", None, 2);
    session.select_at_offset(1).unwrap();
    let one = session.history().get(1).unwrap().uuid;
    assert_eq!(session.select(one).unwrap(), 0);
    assert_eq!(session.active_index().active_index(), 0);
    assert_eq!(session.history().get(0).unwrap().plain_text(), Some("one"));
    session.select_at_offset(1).unwrap();
    assert_eq!(session.pop().unwrap().plain_text(), Some("one"));
    assert_eq!(session.active_index().active_index(), 0);
    session.empty();
    assert!(session.history().is_empty());
    assert!(session.pop().is_none());
    assert!(matches!(session.delete(one), Err(Error::NotFound(u)) if u == one));
}
