use cosmic_paste::error::Error;
use cosmic_paste::persistence::PersistenceError;

#[test]
fn error_messages_match_display_texts() {
    assert_eq!(Error::EmptyHistory.message(), "history is empty");
    assert_eq!(
        Error::NotFound(0x0123_4567_89ab_cdef_0011_2233_4455_6677).message(),
        "item not found: 01234567-89ab-cdef-0011-223344556677"
    );
    assert_eq!(
        Error::TextSizeOutOfBounds { len: 0, min: 1, max: 9 }.message(),
        "text length 0 is outside allowed bounds (1..=9)"
    );
    assert_eq!(
        Error::NavigationBoundary { index: 2, len: 3 }.message(),
        "navigation at boundary (index 2, len 3)"
    );
    assert_eq!(
        Error::ActiveIndexOutOfRange { index: 4, len: 1 }.message(),
        "active index 4 out of range for history length 1"
    );
}

#[test]
fn persistence_error_messages() {
    assert_eq!(PersistenceError::InvalidHistoryName("../x".to_owned()).message(), "invalid history name: ../x");
    assert_eq!(
        PersistenceError::Corrupted { path: "/d/h.ron".to_owned(), reason: "bad magic header".to_owned() }.message(),
        "corrupted history file /d/h.ron: bad magic header"
    );
    assert_eq!(
        PersistenceError::UnsupportedVersion { found: 9, supported: 1 }.message(),
        "unsupported history format version 9 (max supported 1)"
    );
}
