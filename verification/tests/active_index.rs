use cosmic_paste::active_index::ActiveIndexState;
use cosmic_paste::error::Error;

#[test]
fn ingest_and_select_reset_to_zero() {
    let mut state = ActiveIndexState::default();
    state.set_active_index(3, 10).unwrap();
    state.on_external_ingest();
    assert_eq!(state.active_index(), 0);

    state.set_active_index(2, 10).unwrap();
    state.on_select();
    assert_eq!(state.active_index(), 0);
}

#[test]
fn clamp_at_older_boundary() {
    let mut state = ActiveIndexState::default();
    state.set_active_index(2, 3).unwrap();
    let err = state.select_at_offset(3, 1).unwrap_err();
    assert_eq!(err, Error::NavigationBoundary { index: 2, len: 3 });
}

#[test]
fn clamp_at_newer_boundary() {
    let mut state = ActiveIndexState::default();
    let err = state.select_at_offset(3, -1).unwrap_err();
    assert_eq!(err, Error::NavigationBoundary { index: 0, len: 3 });
}

#[test]
fn wrap_when_enabled() {
    let mut state = ActiveIndexState::new(true);
    state.set_active_index(2, 3).unwrap();
    assert_eq!(state.select_at_offset(3, 1).unwrap(), 0);
    assert_eq!(state.select_at_offset(3, -1).unwrap(), 2);
}

#[test]
fn delete_before_active_shifts_index() {
    let mut state = ActiveIndexState::default();
    state.set_active_index(2, 5).unwrap();
    state.on_delete(1, 4);
    assert_eq!(state.active_index(), 1);
}

#[test]
fn delete_active_clamps_index() {
    let mut state = ActiveIndexState::default();
    state.set_active_index(2, 5).unwrap();
    state.on_delete(2, 4);
    assert_eq!(state.active_index(), 2);
}

#[test]
fn delete_last_active_entry_moves_to_new_last() {
    let mut state = ActiveIndexState::default();
    state.set_active_index(4, 5).unwrap();
    state.on_delete(4, 4);
    assert_eq!(state.active_index(), 3);
    state.on_delete(0, 0);
    assert_eq!(state.active_index(), 0);
}

#[test]
fn set_active_index_rejects_out_of_range_and_accepts_empty() {
    let mut state = ActiveIndexState::default();
    state.set_active_index(1, 3).unwrap();
    assert_eq!(
        state.set_active_index(3, 3),
        Err(Error::ActiveIndexOutOfRange { index: 3, len: 3 })
    );
    assert_eq!(state.active_index(), 1);
    assert_eq!(state.set_active_index(7, 0), Ok(0));
    assert_eq!(state.active_index(), 0);
}

#[test]
fn select_at_offset_on_empty_history_fails() {
    let mut state = ActiveIndexState::new(true);
    assert_eq!(state.select_at_offset(0, 1), Err(Error::EmptyHistory));
}

#[test]
fn navigation_round_trip_returns_to_start() {
    for wrap in [false, true] {
        let mut state = ActiveIndexState::new(wrap);
        state.set_active_index(1, 4).unwrap();
        let moved = state.select_at_offset(4, 2).unwrap();
        assert_eq!(moved, 3);
        assert_eq!(state.select_at_offset(4, -2).unwrap(), 1);
    }
    let mut state = ActiveIndexState::new(true);
    state.set_active_index(3, 4).unwrap();
    assert_eq!(state.select_at_offset(4, 6).unwrap(), 1);
    assert_eq!(state.select_at_offset(4, -6).unwrap(), 3);
}

#[test]
fn wrapping_offsets_stay_in_range() {
    let mut state = ActiveIndexState::new(true);
    for offset in [-13, -4, -1, 0, 1, 5, 11] {
        let index = state.select_at_offset(5, offset).unwrap();
        assert!(index < 5);
    }
}

#[test]
fn offset_range_check_matches_i32_arithmetic() {
    let mut state = ActiveIndexState::new(false);
    assert!(state.offset_in_range(3, 1));
    assert!(state.offset_in_range(3, i32::MIN));
    state.set_active_index(2, 3).unwrap();
    assert!(!state.offset_in_range(3, i32::MAX));
    assert!(state.offset_in_range(3, i32::MAX - 2));
    let wrapping = ActiveIndexState::new(true);
    assert!(!wrapping.offset_in_range(1usize << 32, 1));
    assert!(wrapping.offset_in_range(0, 1));
}
