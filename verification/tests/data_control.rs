use cosmic_paste::data_control::{FlushStep, PendingSelection, SelectionTracker, SendStep};
use cosmic_paste::dbus::{ClipboardWriteRequest, SelfCopyGuard};
use cosmic_paste::item::text_checksum;
use cosmic_paste::monitor::SelectionSource;

fn tracker_with_text_offer(id: u64) -> SelectionTracker {
    let mut t = SelectionTracker::new();
    t.on_data_offer(id);
    t.on_offer_mime(id, "text/plain;charset=utf-8".to_owned());
    t
}

#[test]
fn selection_is_read_after_debounce() {
    let mut t = tracker_with_text_offer(1);
    t.on_selection(Some(1), 100);
    assert_eq!(t.flush(150, 75), FlushStep::Idle);
    match t.flush(175, 75) {
        FlushStep::Read { pending, mime } => {
            assert_eq!(pending.offer, 1);
            assert_eq!(pending.source, SelectionSource::Clipboard);
            assert_eq!(mime, Some("text/plain;charset=utf-8".to_owned()));
        }
        other => panic!("expected read, got {other:?}"),
    }
    assert!(t.pending.is_none());
}

#[test]
fn selection_without_text_waits_until_a_text_type_arrives() {
    let mut t = SelectionTracker::new();
    t.on_data_offer(2);
    t.on_offer_mime(2, "image/png".to_owned());
    t.on_selection(Some(2), 0);
    assert_eq!(t.flush(1000, 75), FlushStep::Idle);
    assert!(!t.pending.unwrap().has_text_mime);
    t.on_offer_mime(2, "UTF8_STRING".to_owned());
    assert!(t.pending.unwrap().has_text_mime);
    assert!(matches!(t.flush(1000, 75), FlushStep::Read { mime: Some(ref m), .. } if m == "UTF8_STRING"));
}

#[test]
fn same_offer_keeps_debounce_and_clear_drops_pending() {
    let mut t = tracker_with_text_offer(1);
    t.on_selection(Some(1), 100);
    t.on_selection(Some(1), 500);
    assert_eq!(t.pending.unwrap().changed_at_ms, 100);
    t.on_selection(None, 600);
    assert!(t.pending.is_none());
    t.on_primary_selection(Some(1), false, 700);
    assert!(t.pending.is_none());
    t.on_primary_selection(Some(1), true, 700);
    assert_eq!(t.pending.unwrap().source, SelectionSource::Primary);
}

#[test]
fn read_payload_becomes_event_unless_suppressed() {
    let mut t = SelectionTracker::new();
    let pending = PendingSelection { source: SelectionSource::Clipboard, offer: 1, changed_at_ms: 0, has_text_mime: false };
    let mut guard = SelfCopyGuard::new();
    assert!(t.after_read(pending, None, &mut guard, 9).is_none());
    assert!(t.pending.unwrap().has_text_mime);
    let mut t = SelectionTracker::new();
    assert!(t.after_read(pending, Some(vec![0xff]), &mut guard, 9).is_none());
    assert!(t.after_read(pending, Some(Vec::new()), &mut guard, 9).is_none());
    let event = t.after_read(pending, Some(b"hello".to_vec()), &mut guard, 9).unwrap();
    assert_eq!(event.mime_type, "text/plain");
    assert_eq!(event.payload, b"hello");
    assert_eq!(event.observed_at, 9);
    guard.arm(text_checksum("ours"));
    assert!(t.after_read(pending, Some(b"ours".to_vec()), &mut guard, 9).is_none());
    assert!(t.after_read(pending, Some(b"next".to_vec()), &mut guard, 9).is_some());
}

#[test]
fn writes_are_answered() {
    let mut t = SelectionTracker::new();
    let mut guard = SelfCopyGuard::new();
    let (request, reply) = ClipboardWriteRequest::new("copy".to_owned());
    assert!(t.on_write_request(request, 5, 0, true, false, &mut guard));
    assert!(guard.suppresses(0));
    assert!(t.has_write(5));
    assert_eq!(t.on_send(5, "text/plain"), SendStep::Write(b"copy".to_vec()));
    t.acknowledge(5);
    assert_eq!(reply.try_recv().unwrap(), Ok(()));
    t.after_transfer(5, Ok(()));
    assert!(!t.has_write(5));

    let (request, reply) = ClipboardWriteRequest::new("x".to_owned());
    assert!(!t.on_write_request(request, 6, 0, false, true, &mut guard));
    assert_eq!(reply.try_recv().unwrap(), Err("no Wayland seat available".to_owned()));

    let (request, reply) = ClipboardWriteRequest::new("y".to_owned());
    t.on_write_request(request, 7, 0, true, false, &mut guard);
    assert_eq!(t.on_send(7, "image/png"), SendStep::Refused);
    assert_eq!(reply.try_recv().unwrap(), Err("unexpected clipboard mime type: image/png".to_owned()));
    assert_eq!(t.on_send(7, "text/plain"), SendStep::Ignore);

    let (request, reply) = ClipboardWriteRequest::new("z".to_owned());
    t.on_write_request(request, 8, 0, true, false, &mut guard);
    t.on_cancelled(8);
    assert_eq!(reply.try_recv().unwrap(), Err("clipboard transfer cancelled".to_owned()));
}

#[test]
fn stale_writes_expire_after_timeout() {
    let mut t = SelectionTracker::new();
    let mut guard = SelfCopyGuard::new();
    for (source, at) in [(1u64, 0u64), (2, 4000), (3, 100)] {
        let (request, _reply) = ClipboardWriteRequest::new("w".to_owned());
        t.on_write_request(request, source, at, true, false, &mut guard);
    }
    assert_eq!(t.expire_stale(5050), vec![1]);
    assert_eq!(t.expire_stale(5200), vec![3]);
    assert!(t.has_write(2));
    assert!(!t.has_write(3));
}

#[test]
fn device_missing_and_replaced_writes_are_answered() {
    let mut t = SelectionTracker::new();
    let mut guard = SelfCopyGuard::new();
    let (request, reply) = ClipboardWriteRequest::new("a".to_owned());
    assert!(!t.on_write_request(request, 1, 0, false, false, &mut guard));
    assert_eq!(reply.try_recv().unwrap(), Err("data-control device unavailable".to_owned()));

    let (first, first_reply) = ClipboardWriteRequest::new("old".to_owned());
    t.on_write_request(first, 2, 0, true, false, &mut guard);
    let (second, second_reply) = ClipboardWriteRequest::new("new".to_owned());
    t.on_write_request(second, 2, 10, true, false, &mut guard);
    assert!(first_reply.try_recv().is_err());
    assert_eq!(t.on_send(2, "text/plain"), SendStep::Write(b"new".to_vec()));
    t.acknowledge(2);
    assert_eq!(second_reply.try_recv().unwrap(), Ok(()));
}
