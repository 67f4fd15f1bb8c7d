use cosmic_paste::monitor::reload_monitor_config;
use cosmic_paste::dbus::SelfCopyGuard;
use cosmic_paste::monitor::{MonitorConfig, MonitorGuard, DEFAULT_DEBOUNCE_MS};

#[test]
fn suppresses_stale_clipboard_until_expected_write_lands() {
    let mut guard = SelfCopyGuard::new();
    let expected = [7u8; 32];
    let stale = [3u8; 32];
    guard.arm(expected);
    assert!(guard.should_suppress_ingest(stale));
    assert!(guard.should_suppress_ingest(expected));
    guard.clear_if_matched(expected);
    assert!(!guard.should_suppress_ingest(stale));
}

#[test]
fn does_not_suppress_when_unarmed() {
    let guard = SelfCopyGuard::new();
    assert!(!guard.should_suppress_ingest([1u8; 32]));
    assert!(!guard.suppresses(0));
}

#[test]
fn cleared_guard_stops_suppressing() {
    let mut guard = SelfCopyGuard::new();
    guard.arm([7u8; 32]);
    guard.clear_if_matched([7u8; 32]);
    assert!(!guard.suppresses(0));
}

#[test]
fn clear_with_other_fingerprint_keeps_guard_armed() {
    let mut guard = SelfCopyGuard::new();
    guard.arm([7u8; 32]);
    guard.clear_if_matched([8u8; 32]);
    assert!(guard.suppresses(0));
    assert!(guard.suppresses(5_250_000_000));
    assert!(!guard.suppresses(5_250_000_001));
}

#[test]
fn ignores_matching_fingerprint_inside_window() {
    let mut guard = MonitorGuard::new();
    let fp = [7u8; 32];
    guard.arm(fp);
    assert!(guard.should_ignore(fp));
}

#[test]
fn does_not_ignore_unarmed_fingerprint() {
    let guard = MonitorGuard::new();
    assert!(!guard.should_ignore([1u8; 32]));
}

#[test]
fn monitor_guard_ignores_only_the_armed_fingerprint_in_time() {
    let mut guard = MonitorGuard::new();
    guard.arm([7u8; 32]);
    assert!(!guard.should_ignore([6u8; 32]));
    assert!(guard.ignores([7u8; 32], 0));
    assert!(guard.ignores([7u8; 32], 500_000_000));
    assert!(!guard.ignores([7u8; 32], 500_000_001));
    assert!(!guard.ignores([6u8; 32], 0));
}

#[test]
fn default_debounce_is_75ms() {
    assert_eq!(MonitorConfig::default().debounce_ms, 75);
    assert_eq!(DEFAULT_DEBOUNCE_MS, 75);
    assert!(!MonitorConfig::default().watch_primary);
}

#[test]
fn reload_updates_watch_primary_only_when_its_key_changed() {
    let config = MonitorConfig::default();
    let r = reload_monitor_config(config, &vec!["primary_to_history".to_owned()], true);
    assert!(r.watch_primary);
    assert_eq!(r.debounce_ms, 75);
    let r = reload_monitor_config(config, &vec!["max_history_size".to_owned()], true);
    assert!(!r.watch_primary);
}
