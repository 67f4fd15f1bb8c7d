use cosmic_paste::item::{
    collapse_display_text, format_display_line, format_display_line_middle, same_digest, text_checksum,
    truncate_display, truncate_display_middle, HistoryItem, ItemKind, RichPayload,
};

#[test]
fn format_display_line_collapses_newlines() {
    let line = format_display_line("first line\nsecond line", 80);
    assert_eq!(line, "first line second line");
}

#[test]
fn format_display_line_middle_keeps_ends() {
    let line = format_display_line_middle("abcdefghijklmnopqrstuvwxyz", 10);
    assert_eq!(line, "abcd…vwxyz");
}

#[test]
fn display_helpers_exact_values() {
    assert_eq!(collapse_display_text("  a \n\t b  "), "a b");
    assert_eq!(truncate_display("abcdef", 4), "abcd…");
    assert_eq!(truncate_display("abc", 0), "");
    assert_eq!(truncate_display_middle("abcdef", 4), "a…ef");
    assert_eq!(format_display_line("one  two three", 7), "one two…");
}

#[test]
fn checksum_is_sha256_of_utf8_bytes() {
    let digest = text_checksum("abc");
    let hex: String = digest.iter().map(|b| format!("{b:02x}")).collect();
    assert_eq!(hex, "ba7816bf8f01cfea414140de5dae2223b00361a396177a9cb410ff61f20015ad");
    assert!(same_digest(&digest, &text_checksum("abc")));
    assert!(!same_digest(&digest, &text_checksum("abd")));
}

#[test]
fn new_text_item_records_size_and_display() {
    let rich = RichPayload { html: Some("<b>hi</b>".to_owned()), xml: None };
    let item = HistoryItem::new_text("hi\nthere".to_owned(), Some(rich), 9);
    assert_eq!(item.plain_text(), Some("hi\nthere"));
    assert_eq!(item.byte_size, 8 + 9);
    assert_eq!(item.display, "hi there");
    assert_eq!(item.created_at, 9);
    assert_eq!(item.password_name, None);
    assert!(!item.is_password());
    let other = HistoryItem::new_text("hi".to_owned(), None, 9);
    assert_ne!(item.uuid, other.uuid);
    assert!(matches!(other.kind, ItemKind::Text { .. }));
}

#[test]
fn collapsing_twice_changes_nothing() {
    for text in ["  a \n\t b  ", "one\r\ntwo   three", "\u{a0}x\u{2003}y\n", "", "   "] {
        let once = collapse_display_text(text);
        assert_eq!(collapse_display_text(&once), once);
        assert!(!once.contains('\n') && !once.contains('\t') && !once.contains("  "));
        assert_eq!(once.trim(), once);
    }
}
