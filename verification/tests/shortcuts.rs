use cosmic_paste::shortcuts::{
    collect_bindings, shortcut_action, ShortcutAction, SELECT_NEXT_ID, SELECT_PREVIOUS_ID, SHOW_HISTORY_ID,
};

#[test]
fn skips_empty_accelerators() {
    let bindings = collect_bindings("", "<Ctrl>F11", "");
    assert_eq!(bindings.len(), 1);
    assert_eq!(bindings[0].id, SELECT_PREVIOUS_ID);
}

#[test]
fn keeps_all_bindings_in_order() {
    let bindings = collect_bindings("<Ctrl>H", "<Ctrl>Up", "<Ctrl>Down");
    let ids: Vec<&str> = bindings.iter().map(|b| b.id).collect();
    assert_eq!(ids, vec![SHOW_HISTORY_ID, SELECT_PREVIOUS_ID, SELECT_NEXT_ID]);
    assert_eq!(bindings[2].accel, "<Ctrl>Down");
    assert!(collect_bindings("", "", "").is_empty());
}

#[test]
fn shortcut_ids_map_to_actions() {
    assert_eq!(shortcut_action(SHOW_HISTORY_ID), ShortcutAction::ShowHistory);
    assert_eq!(shortcut_action(SELECT_PREVIOUS_ID), ShortcutAction::SelectAtOffset(-1));
    assert_eq!(shortcut_action(SELECT_NEXT_ID), ShortcutAction::SelectAtOffset(1));
    assert_eq!(shortcut_action("launch-ui"), ShortcutAction::Ignore);
}
