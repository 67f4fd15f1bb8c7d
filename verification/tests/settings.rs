use cosmic_paste::settings::{Settings, ShortcutSettings};

#[test]
fn default_navigation_wrap_is_clamp() {
    assert!(!Settings::default().navigation_wrap);
}

#[test]
fn history_policies_map_from_settings() {
    let settings = Settings { max_history_size: 42, max_memory_usage_mb: 7, ..Settings::default() };
    let policies = settings.history_policies();
    assert_eq!(policies.max_history_size, 42);
    assert_eq!(policies.max_memory_usage_bytes, 7 * 1024 * 1024);
}

#[test]
fn quick_select_shortcuts_disabled_by_default() {
    let shortcuts = Settings::default().shortcuts;
    assert!(shortcuts.quick_select_0.is_empty());
    assert!(shortcuts.quick_select_9.is_empty());
}

#[test]
fn default_settings_values() {
    let s = Settings::default();
    assert_eq!(s.history_name, "history");
    assert_eq!(s.max_history_size, 100);
    assert_eq!(s.max_memory_usage_mb, 30);
    assert_eq!(s.element_size, 72);
    assert_eq!(s.max_displayed_history_size, 100);
    let p = s.history_policies();
    assert_eq!(p.max_memory_usage_bytes, 30 * 1024 * 1024);
    assert_eq!(p.element_display_size, 72);
    let b = ShortcutSettings::default_bindings();
    assert_eq!(b.show_history, "<Ctrl>F11");
    assert_eq!(b.select_previous, "<Ctrl>F9");
    assert_eq!(b.select_next, "<Ctrl>F10");
}

#[test]
fn load_uses_stored_fallback_or_defaults() {
    assert_eq!(Settings::load(None), Settings::default());
    let stored = Settings { max_history_size: 7, ..Settings::default() };
    assert_eq!(Settings::load(Some(Ok(stored.clone()))), stored);
    let fallback = Settings { navigation_wrap: true, ..Settings::default() };
    assert_eq!(Settings::load(Some(Err(fallback.clone()))), fallback);
}
