use cosmic_paste::trigger::{socket_path, trigger_path};

#[test]
fn trigger_paths_live_under_runtime_dir() {
    assert_eq!(trigger_path(Some("/run/user/1000")), Some("/run/user/1000/cosmic-paste/show-history".to_owned()));
    assert_eq!(socket_path(Some("/run/user/1000/")), Some("/run/user/1000/cosmic-paste/show-history.sock".to_owned()));
    assert_eq!(trigger_path(None), None);
    assert_eq!(socket_path(None), None);
}
