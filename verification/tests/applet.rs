use cosmic_paste::applet::{
    estimated_popup_size, next_backoff_ms, popup_labels, signal_step, tooltip, AppletAction, AppletActivation,
    AppletMessage, AppletModel, DbusEvent, PopupContent, SignalStep,
};

fn history() -> Vec<(String, String)> {
    vec![("u1".to_owned(), "first\nentry".to_owned()), ("u2".to_owned(), "second".to_owned())]
}

#[test]
fn popup_labels_number_rows_from_one() {
    let labels = popup_labels(&history());
    assert_eq!(labels, vec!["1 \u{b7} first entry".to_owned(), "2 \u{b7} second".to_owned()]);
}

#[test]
fn tooltip_states() {
    assert_eq!(tooltip(true, &history(), 0, true), "Daemon unreachable");
    assert_eq!(tooltip(false, &Vec::new(), 0, true), "No history \u{2014} copy text to record");
    assert_eq!(tooltip(false, &history(), 0, false), "Paused \u{b7} 2 items");
    let tip = tooltip(false, &history(), 1, true);
    assert!(tip.starts_with("2/2|"));
    assert!(tip.contains("second"));
    let tip = tooltip(false, &history(), 5, true);
    assert!(tip.starts_with("6/2|"));
}

#[test]
fn popup_size_by_row_count() {
    assert_eq!(estimated_popup_size(0), None);
    assert_eq!(estimated_popup_size(1), Some((360, 48)));
    assert_eq!(estimated_popup_size(3), Some((360, 3 * 32 + 2 + 16)));
    assert_eq!(estimated_popup_size(11), Some((360, 336)));
}

#[test]
fn only_show_history_action_is_handled() {
    let (tx, rx) = std::sync::mpsc::sync_channel(1);
    let activation = AppletActivation::new(tx);
    assert!(!activation.activate_action("other"));
    assert!(rx.try_recv().is_err());
    assert!(activation.activate_action("show-history"));
    assert!(rx.try_recv().is_ok());
}


fn refreshed(n: usize, active_index: u32) -> AppletMessage {
    let history = (0..n).map(|i| (format!("u{i}"), format!("entry {i}"))).collect();
    AppletMessage::Dbus(DbusEvent::Refreshed { history, active_index, tracking: true })
}

#[test]
fn model_opens_popup_on_init_after_first_refresh() {
    let mut model = AppletModel::new(true);
    let action = model.update(refreshed(2, 0), 0);
    assert_eq!(action, AppletAction::OpenPopup { replace: None, size: Some((360, 81)), scroll_to: None });
    assert!(!model.open_on_init);
    assert_eq!(model.popup_labels, vec!["1 \u{b7} entry 0".to_owned(), "2 \u{b7} entry 1".to_owned()]);
    assert_eq!(model.update(refreshed(2, 1), 10), AppletAction::Nothing);
    assert_eq!(model.active_index, 1);
}

#[test]
fn model_toggle_select_and_close() {
    let mut model = AppletModel::new(false);
    model.update(refreshed(1, 0), 0);
    let open = model.update(AppletMessage::TogglePopup, 0);
    assert!(matches!(open, AppletAction::OpenPopup { replace: None, .. }));
    model.popup_opened(7);
    assert_eq!(model.update(AppletMessage::TogglePopup, 0), AppletAction::DestroyPopup(7));
    assert_eq!(model.popup, None);
    model.popup_opened(8);
    assert_eq!(model.update(AppletMessage::SelectIndex(0), 0), AppletAction::Select { index: 0, close: Some(8) });
    assert_eq!(model.popup, None);
    model.popup_opened(9);
    assert_eq!(model.update(AppletMessage::PopupClosed(3), 0), AppletAction::Nothing);
    assert_eq!(model.popup, Some(9));
    model.update(AppletMessage::PopupClosed(9), 0);
    assert_eq!(model.popup, None);
}

#[test]
fn model_debounces_show_history_and_scrolls_long_lists() {
    let mut model = AppletModel::new(false);
    model.update(refreshed(12, 11), 0);
    let first = model.update(AppletMessage::Dbus(DbusEvent::ShowHistory), 1000);
    assert_eq!(first, AppletAction::OpenPopup { replace: None, size: Some((360, 336)), scroll_to: Some(11 * 33) });
    assert_eq!(model.update(AppletMessage::Dbus(DbusEvent::ShowHistory), 1200), AppletAction::Nothing);
    assert!(matches!(model.update(AppletMessage::Dbus(DbusEvent::ShowHistory), 1300), AppletAction::OpenPopup { .. }));
    assert_eq!(model.popup_content(), PopupContent::Rows { active: 11, scrollable: true });
    model.update(AppletMessage::Dbus(DbusEvent::Disconnected), 0);
    assert_eq!(model.popup_content(), PopupContent::Unreachable);
    assert_eq!(model.tooltip(), "Daemon unreachable");
    model.update(AppletMessage::Dbus(DbusEvent::ActiveIndexChanged { active_index: 3 }), 0);
    assert!(!model.daemon_unreachable);
    assert_eq!(model.scroll_offset(), Some(3 * 33));
    let mut empty = AppletModel::new(false);
    assert_eq!(empty.popup_content(), PopupContent::Empty);
    assert_eq!(empty.update(AppletMessage::SelectDone, 0), AppletAction::Nothing);
}

#[test]
fn listener_helpers() {
    assert_eq!(signal_step(Some("Update")), SignalStep::Refresh);
    assert_eq!(signal_step(Some("ActiveIndexChanged")), SignalStep::ActiveIndex);
    assert_eq!(signal_step(Some("ShowHistory")), SignalStep::ShowHistory);
    assert_eq!(signal_step(Some("Other")), SignalStep::Ignore);
    assert_eq!(signal_step(None), SignalStep::Ignore);
    assert_eq!(next_backoff_ms(500), 1000);
    assert_eq!(next_backoff_ms(20_000), 30_000);
    assert_eq!(next_backoff_ms(30_000), 30_000);
    assert_eq!(next_backoff_ms(u64::MAX), 30_000);
}
