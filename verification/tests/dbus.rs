use cosmic_paste::dbus::{
    check_write_text, element_value, send_clipboard_write, send_result, write_reply_result, ElementValue, SendOutcome, WriteReply, history_entries, item_kind_name, map_error, not_supported, parse_uuid, ClipboardWriteRequest,
    ServiceError, ShutdownReason,
};
use cosmic_paste::error::Error;
use cosmic_paste::history::History;
use cosmic_paste::item::{text_checksum, HistoryItem, ItemKind};

const SAMPLE: u128 = 0x0123_4567_89ab_cdef_0011_2233_4455_6677;
const SAMPLE_TEXT: &str = "01234567-89ab-cdef-0011-223344556677";

fn item(kind: ItemKind) -> HistoryItem {
    HistoryItem {
        uuid: SAMPLE,
        kind,
        display: "d".to_owned(),
        created_at: 0,
        byte_size: 0,
        password_name: None,
    }
}

#[test]
fn not_found_message_names_the_uuid_in_hyphenated_form() {
    assert_eq!(
        map_error(Error::NotFound(SAMPLE)),
        ServiceError::InvalidArgs(format!("not found: {SAMPLE_TEXT}"))
    );
}

#[test]
fn error_messages_and_kinds() {
    assert_eq!(map_error(Error::EmptyHistory), ServiceError::Failed("history is empty".to_owned()));
    assert_eq!(
        map_error(Error::NavigationBoundary { index: 0, len: 3 }),
        ServiceError::Failed("navigation boundary (index 0, len 3)".to_owned())
    );
    assert_eq!(
        map_error(Error::ActiveIndexOutOfRange { index: 5, len: 2 }),
        ServiceError::InvalidArgs("index 5 out of range for len 2".to_owned())
    );
    assert_eq!(
        map_error(Error::TextSizeOutOfBounds { len: 0, min: 1, max: 10 }),
        ServiceError::InvalidArgs("text length 0 is outside allowed bounds (1..=10)".to_owned())
    );
    assert_eq!(
        not_supported("Pop"),
        ServiceError::NotSupported("Pop is not implemented yet".to_owned())
    );
}

#[test]
fn parse_uuid_accepts_hyphenated_and_rejects_garbage() {
    assert_eq!(parse_uuid(SAMPLE_TEXT), Ok(SAMPLE));
    assert_eq!(
        parse_uuid("not-a-uuid"),
        Err(ServiceError::InvalidArgs("invalid uuid: not-a-uuid".to_owned()))
    );
}

#[test]
fn history_entries_list_uuid_text_and_display() {
    let mut history = History::with_defaults("history");
    history.ingest_text("first", None, 1);
    history.ingest_text("second\nline", None, 2);
    let entries = history_entries(&history);
    assert_eq!(entries.len(), 2);
    assert_eq!(entries[0].1, "second\nline");
    assert_eq!(entries[1].1, "first");
    let uuid = history.get(0).unwrap().uuid;
    assert_eq!(entries[0].0, uuid::Uuid::from_u128(uuid).to_string());
    assert_eq!(parse_uuid(&entries[0].0), Ok(uuid));
}

#[test]
fn element_values_per_kind() {
    let text = item(ItemKind::Text { plain: "hello".to_owned(), rich: None });
    assert_eq!(element_value(&text), ElementValue::Text("hello".to_owned()));
    assert_eq!(item_kind_name(&text.kind), "text");
    let uris = item(ItemKind::UriList(vec!["file:///a".to_owned(), "file:///b".to_owned()]));
    assert_eq!(element_value(&uris), ElementValue::Text("file:///a\nfile:///b".to_owned()));
    assert_eq!(item_kind_name(&uris.kind), "uri");
    let mut checksum = [0u8; 32];
    checksum[0] = 0xfe;
    let image = item(ItemKind::Image { checksum, path: "/tmp/x.png".to_owned() });
    let ElementValue::Text(value) = element_value(&image) else { panic!("image value") };
    assert!(value.starts_with("fe00"));
    assert_eq!(value.len(), 64);
    assert_eq!(item_kind_name(&image.kind), "image");
    let color = item(ItemKind::Color { rgba: [1, 2, 3, 4] });
    assert_eq!(element_value(&color), ElementValue::Color { rgba: [1, 2, 3, 4] });
    assert_eq!(item_kind_name(&color.kind), "color");
    let password = item(ItemKind::Password { name: "bank".to_owned() });
    assert_eq!(element_value(&password), ElementValue::Text("bank".to_owned()));
    assert_eq!(item_kind_name(&password.kind), "password");
}

#[test]
fn write_request_carries_text_fingerprint() {
    let (request, _reply) = ClipboardWriteRequest::new("copy me".to_owned());
    assert_eq!(request.text, "copy me");
    assert_eq!(request.fingerprint, text_checksum("copy me"));
    assert_eq!(ShutdownReason::default(), ShutdownReason::NotRequested);
}

#[test]
fn clipboard_write_errors() {
    assert_eq!(
        check_write_text(""),
        Err(ServiceError::Failed("refusing to write empty clipboard text".to_owned()))
    );
    assert_eq!(check_write_text("x"), Ok(()));
    assert_eq!(send_result(SendOutcome::Sent), Ok(()));
    assert_eq!(
        send_result(SendOutcome::QueueFull),
        Err(ServiceError::Failed("clipboard write queue is full".to_owned()))
    );
    assert_eq!(
        send_result(SendOutcome::Disconnected),
        Err(ServiceError::Failed("clipboard writer unavailable".to_owned()))
    );
    assert_eq!(write_reply_result(WriteReply::Done), Ok(()));
    assert_eq!(
        write_reply_result(WriteReply::Failed("boom".to_owned())),
        Err(ServiceError::Failed("clipboard write failed: boom".to_owned()))
    );
    assert_eq!(
        write_reply_result(WriteReply::TimedOut),
        Err(ServiceError::Failed("clipboard write timed out".to_owned()))
    );
    assert_eq!(
        write_reply_result(WriteReply::Disconnected),
        Err(ServiceError::Failed("clipboard writer disconnected".to_owned()))
    );
}

#[test]
fn send_clipboard_write_queues_request_with_fingerprint() {
    let (tx, rx) = std::sync::mpsc::sync_channel(1);
    let reply = send_clipboard_write(&tx, "copy".to_owned()).unwrap();
    let request = rx.try_recv().unwrap();
    assert_eq!(request.text, "copy");
    assert_eq!(request.fingerprint, text_checksum("copy"));
    request.reply.send(Ok(())).unwrap();
    assert_eq!(reply.recv().unwrap(), Ok(()));
    assert_eq!(
        send_clipboard_write(&tx, "a".to_owned()).and_then(|_| send_clipboard_write(&tx, "b".to_owned())).err(),
        Some(ServiceError::Failed("clipboard write queue is full".to_owned()))
    );
    drop(rx);
    assert_eq!(
        send_clipboard_write(&tx, "c".to_owned()).err(),
        Some(ServiceError::Failed("clipboard writer unavailable".to_owned()))
    );
}
