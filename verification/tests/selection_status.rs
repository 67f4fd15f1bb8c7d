use cosmic_paste::selection_status::{show_selection_toast, toast_command, ToastCommand};
use cosmic_paste::selection_status::{
    fixed_toast_preview, format_selection_status, format_selection_toast_parts, pad_display_line,
    parse_notify_reply, sanitize_notification_text, ToastTimer, HIDE_DEBOUNCE_MS, IDLE_WAIT_MS, MIN_WAIT_MS,
    NBSP, TOAST_PREVIEW_LEN, TOAST_PROGRESS_LEN,
};

#[test]
fn formats_one_based_progress_with_pipe() {
    let line = format_selection_status(4, 7, "myClipTest");
    assert!(line.contains("5/7|"));
    assert!(line.contains("myClipTest"));
    assert_eq!(line.lines().count(), 2);
}

#[test]
fn toast_parts_are_two_fixed_width_lines() {
    let (summary, body) = format_selection_toast_parts(17, 59, "short");
    let (summary_long, body_long) = format_selection_toast_parts(
        0,
        100,
        "beginning of a very long clipboard entry that definitely exceeds the toast preview width and keeps the ending tail visible",
    );
    assert_eq!(summary.chars().count(), TOAST_PROGRESS_LEN);
    assert_eq!(body.chars().count(), TOAST_PREVIEW_LEN);
    assert_eq!(summary_long.chars().count(), TOAST_PROGRESS_LEN);
    assert_eq!(body_long.chars().count(), TOAST_PREVIEW_LEN);
    assert!(!summary.contains('\n'));
    assert!(!body.contains('\n'));
    assert!(body_long.contains('…'));
}

#[test]
fn sanitizes_control_characters_in_toast_preview() {
    let (_, body) = format_selection_toast_parts(0, 3, "line1\nline2");
    assert!(!body.contains('\n'));
}

#[test]
fn parses_gdbus_notify_reply() {
    assert_eq!(parse_notify_reply(b"(uint32 7,)\n"), Some(7));
}

#[test]
fn status_line_exact_layout() {
    let line = format_selection_status(0, 3, "a\nb");
    let expected = format!("{:<10}\n{:<72}", "1/3|", "a b");
    assert_eq!(line, expected);
}

#[test]
fn toast_summary_is_padded_with_nbsp_and_saturates() {
    let (summary, body) = format_selection_toast_parts(u32::MAX, 2, "x");
    let mut expected = format!("{}/2", u32::MAX);
    while expected.chars().count() < TOAST_PROGRESS_LEN {
        expected.push(NBSP);
    }
    assert_eq!(summary, expected);
    let mut expected_body = String::from("x");
    for _ in 1..TOAST_PREVIEW_LEN {
        expected_body.push(NBSP);
    }
    assert_eq!(body, expected_body);
    assert_eq!(fixed_toast_preview("x"), expected_body);
}

#[test]
fn sanitize_and_pad_helpers() {
    assert_eq!(sanitize_notification_text("a\tb\r\nc\u{7}d"), "a b  c d");
    assert_eq!(pad_display_line("ab", 4, '-'), "ab--");
    assert_eq!(pad_display_line("abcdef", 4, '-'), "abcdef");
}

#[test]
fn notify_reply_rejects_malformed_and_overflowing_ids() {
    assert_eq!(parse_notify_reply(b"(uint32 4294967295,)"), Some(u32::MAX));
    assert_eq!(parse_notify_reply(b"(uint32 4294967296,)"), None);
    assert_eq!(parse_notify_reply(b"(uint32 ,)"), None);
    assert_eq!(parse_notify_reply(b"no marker"), None);
    assert_eq!(parse_notify_reply(&[0xff, 0xfe]), None);
}

#[test]
fn toast_timer_hides_after_debounce() {
    let mut timer = ToastTimer::new();
    assert_eq!(timer.wait_ms(0), IDLE_WAIT_MS);
    timer.on_shown(Some(7), 1000);
    assert_eq!(timer.hide_at, Some(1000 + HIDE_DEBOUNCE_MS));
    assert_eq!(timer.wait_ms(1000), HIDE_DEBOUNCE_MS);
    assert_eq!(timer.wait_ms(1000 + HIDE_DEBOUNCE_MS - 10), MIN_WAIT_MS);
    assert_eq!(timer.on_timeout(1001), None);
    assert_eq!(timer.on_timeout(1000 + HIDE_DEBOUNCE_MS), Some(7));
    assert_eq!(timer.notification_id, None);
    assert_eq!(timer.hide_at, None);
    timer.on_shown(None, 5);
    assert_eq!(timer.hide_at, None);
}

#[test]
fn toast_command_carries_both_lines() {
    let (summary, body) = format_selection_toast_parts(2, 9, "preview");
    assert_eq!(toast_command(2, 9, "preview"), ToastCommand::Show { summary: summary.clone(), body: body.clone() });
    let (tx, rx) = std::sync::mpsc::channel();
    assert!(show_selection_toast(&tx, 2, 9, "preview"));
    assert_eq!(rx.recv().unwrap(), ToastCommand::Show { summary, body });
    drop(rx);
    assert!(!show_selection_toast(&tx, 0, 1, "x"));
}
