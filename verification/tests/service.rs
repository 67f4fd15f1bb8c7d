use cosmic_paste::dbus::{ElementValue, ServiceError};
use cosmic_paste::persistence::{DataPaths, HistoryStore, LoadHistoryOutcome, SessionState};
use cosmic_paste::history::History;
use cosmic_paste::service::{persist_error, BusSignal, DaemonState, PersistStep};

fn state() -> DaemonState {
    DaemonState::new_in_memory("/tmp")
}

fn update(action: &'static str, target: &str, index: u32) -> BusSignal {
    BusSignal::Update { action, target: target.to_owned(), index }
}

#[test]
fn get_active_index_defaults_to_zero() {
    let state = state();
    assert_eq!(state.read_active_index(), 0);
    assert_eq!(state.store().paths().base(), "/tmp/cosmic-paste-test");
    assert!(state.tracking);
    assert!(!state.applet_present);
}

#[test]
fn get_history_starts_empty() {
    assert!(state().get_history().is_empty());
}

#[test]
fn add_then_get_history_round_trip() {
    let mut state = state();
    let signals = state.add("hello dbus", 7).unwrap();
    let history = state.get_history();
    assert_eq!(history.len(), 1);
    assert_eq!(history[0].1, "hello dbus");
    assert_eq!(signals, vec![update("add", &history[0].0, 0), BusSignal::ActiveIndexChanged { index: 0, count: 1 }]);
    assert_eq!(state.get_element(&history[0].0), Ok(ElementValue::Text("hello dbus".to_owned())));
    assert_eq!(state.get_element_kind(&history[0].0), Ok("text"));
    assert_eq!(
        state.get_element_at_index(0),
        Ok((history[0].0.clone(), ElementValue::Text("hello dbus".to_owned())))
    );
}

#[test]
fn add_refused_while_paused_or_out_of_bounds() {
    let mut state = state();
    state.track(false);
    assert_eq!(
        state.add("x", 1),
        Err(ServiceError::Failed("clipboard tracking is disabled".to_owned()))
    );
    state.track(true);
    assert_eq!(state.add("", 1), Err(ServiceError::InvalidArgs("text size out of bounds".to_owned())));
    assert!(state.get_history().is_empty());
}

#[test]
fn client_select_moves_item_to_front() {
    let mut state = state();
    state.add("older entry", 1).unwrap();
    state.add("newer", 2).unwrap();
    let older = state.get_history()[1].0.clone();
    let selection = state.begin_select(&older).unwrap();
    assert_eq!(selection.index, 0);
    assert_eq!(selection.count, 2);
    assert_eq!(selection.value, ElementValue::Text("older entry".to_owned()));
    assert_eq!(selection.signals(), vec![update("select", &older, 0), BusSignal::ActiveIndexChanged { index: 0, count: 2 }]);
    let history = state.get_history();
    assert_eq!(history[0].0, older);
    assert_eq!(history[0].1, "older entry");
}

#[test]
fn failed_write_rolls_selection_back() {
    let mut state = state();
    state.add("one", 1).unwrap();
    state.add("two", 2).unwrap();
    let before = state.get_history();
    let selection = state.begin_select(&before[1].0).unwrap();
    assert_ne!(state.get_history(), before);
    state.rollback(selection.snapshot);
    assert_eq!(state.get_history(), before);
    assert_eq!(state.read_active_index(), 0);
}

#[test]
fn complete_select_keeps_or_rolls_back() {
    let mut state = state();
    state.add("one", 1).unwrap();
    state.add("two", 2).unwrap();
    let before = state.get_history();
    let selection = state.begin_select_at_offset(1).unwrap();
    let failed: Result<(String, Vec<BusSignal>), &str> = state.complete_select(selection, Err("write failed"));
    assert_eq!(failed, Err("write failed"));
    assert_eq!(state.read_active_index(), 0);
    assert_eq!(state.get_history(), before);

    let selection = state.begin_select_at_offset(1).unwrap();
    let done: Result<(String, Vec<BusSignal>), &str> = state.complete_select(selection, Ok(()));
    assert_eq!(
        done,
        Ok((before[1].0.clone(), vec![update("select", &before[1].0, 1), BusSignal::ActiveIndexChanged { index: 1, count: 2 }]))
    );
    assert_eq!(state.read_active_index(), 1);
}

#[test]
fn select_at_offset_moves_active_index_only() {
    let mut state = state();
    state.add("one", 1).unwrap();
    state.add("two", 2).unwrap();
    let before = state.get_history();
    let selection = state.begin_select_at_offset(1).unwrap();
    assert_eq!(selection.index, 1);
    assert_eq!(selection.target, before[1].0);
    assert_eq!(selection.value, ElementValue::Text("one".to_owned()));
    assert_eq!(state.read_active_index(), 1);
    assert_eq!(state.get_history(), before);
    assert_eq!(
        state.begin_select_at_offset(1).err(),
        Some(ServiceError::Failed("navigation boundary (index 1, len 2)".to_owned()))
    );
    state.rollback(selection.snapshot);
    assert_eq!(state.read_active_index(), 0);
}

#[test]
fn set_active_index_checks_range() {
    let mut state = state();
    assert_eq!(state.set_active_index(5), Ok(vec![BusSignal::ActiveIndexChanged { index: 5, count: 0 }]));
    state.add("one", 1).unwrap();
    state.add("two", 2).unwrap();
    assert_eq!(state.set_active_index(1), Ok(vec![BusSignal::ActiveIndexChanged { index: 1, count: 2 }]));
    assert_eq!(state.read_active_index(), 1);
    assert_eq!(
        state.set_active_index(2),
        Err(ServiceError::InvalidArgs("index 2 out of range for len 2".to_owned()))
    );
    assert_eq!(state.read_active_index(), 1);
}

#[test]
fn delete_reports_removed_entry_and_active_index() {
    let mut state = state();
    state.add("one", 1).unwrap();
    state.add("two", 2).unwrap();
    state.add("three", 3).unwrap();
    state.set_active_index(2).unwrap();
    let newest = state.get_history()[0].0.clone();
    let signals = state.delete(&newest).unwrap();
    assert_eq!(signals, vec![update("remove", &newest, 0), BusSignal::ActiveIndexChanged { index: 1, count: 2 }]);
    assert_eq!(
        state.delete(&newest),
        Err(ServiceError::InvalidArgs(format!("not found: {newest}")))
    );
    assert_eq!(state.delete("nope"), Err(ServiceError::InvalidArgs("invalid uuid: nope".to_owned())));
}

#[test]
fn empty_history_and_sizes_by_name() {
    let mut state = state();
    state.add("one", 1).unwrap();
    assert_eq!(state.get_history_name(), "history");
    assert_eq!(state.list_histories(), vec!["history".to_owned()]);
    assert_eq!(state.get_history_size("history"), Ok(1));
    assert_eq!(
        state.get_history_size("work"),
        Err(ServiceError::InvalidArgs("unknown history: work".to_owned()))
    );
    assert_eq!(
        state.empty_history("work"),
        Err(ServiceError::InvalidArgs("unknown history: work".to_owned()))
    );
    assert_eq!(
        state.empty_history("history"),
        Ok(vec![
            BusSignal::EmptyHistory { history: "history".to_owned() },
            BusSignal::ActiveIndexChanged { index: 0, count: 0 }
        ])
    );
    assert_eq!(state.get_history_size("history"), Ok(0));
}

#[test]
fn element_lookups_report_errors() {
    let mut state = state();
    state.add("one", 1).unwrap();
    let uuid = state.get_history()[0].0.clone();
    assert_eq!(
        state.get_element_at_index(3),
        Err(ServiceError::InvalidArgs("index 3 out of range".to_owned()))
    );
    let missing = "00000000-0000-0000-0000-000000000001";
    assert_eq!(state.get_element(missing), Err(ServiceError::InvalidArgs(format!("not found: {missing}"))));
    assert_eq!(
        state.get_elements(&vec![uuid.clone(), uuid.clone()]),
        Ok(vec![
            (uuid.clone(), ElementValue::Text("one".to_owned())),
            (uuid.clone(), ElementValue::Text("one".to_owned()))
        ])
    );
    assert_eq!(
        state.get_elements(&vec![uuid.clone(), "bad".to_owned(), missing.to_owned()]),
        Err(ServiceError::InvalidArgs("invalid uuid: bad".to_owned()))
    );
}

#[test]
fn show_history_needs_the_applet() {
    let mut state = state();
    assert_eq!(
        state.show_history(),
        Err(ServiceError::Failed(
            "applet not in panel \u{2014} add COSMIC Paste to the panel, or use `cosmic-paste history`".to_owned()
        ))
    );
    state.on_applet_state_changed(true);
    assert_eq!(state.show_history(), Ok(vec![BusSignal::ShowHistory]));
}

#[test]
fn load_default_restores_saved_active_index_when_in_range() {
    let store = HistoryStore::new(DataPaths::new("/data"));
    let mut history = History::with_defaults("work");
    history.ingest_text("a", None, 1);
    history.ingest_text("b", None, 2);
    let saved = SessionState { active_index: 1, current_history: "work".to_owned() };
    let state = DaemonState::load_default(store, saved, LoadHistoryOutcome::Loaded(history));
    assert_eq!(state.read_active_index(), 1);
    assert_eq!(state.session_state(), SessionState { active_index: 1, current_history: "work".to_owned() });

    let store = HistoryStore::new(DataPaths::new("/data"));
    let saved = SessionState { active_index: 4, current_history: "gone".to_owned() };
    let state = DaemonState::load_default(
        store,
        saved,
        LoadHistoryOutcome::EmptyAfterCorruption { name: "gone".to_owned() },
    );
    assert_eq!(state.read_active_index(), 0);
    assert_eq!(state.get_history_name(), "gone");
    assert!(state.get_history().is_empty());
}

#[test]
fn persist_errors_name_the_step() {
    assert_eq!(
        persist_error(PersistStep::History, "disk full"),
        ServiceError::Failed("failed to persist history: disk full".to_owned())
    );
    assert_eq!(
        persist_error(PersistStep::Reexecute, "x"),
        ServiceError::Failed("failed to flush state before reexecute: x".to_owned())
    );
}
