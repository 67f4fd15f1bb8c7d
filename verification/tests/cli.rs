use cosmic_paste::cli::{
    format_history_listing, is_daemon_unavailable, method_error, BusErrorKind, navigation_error, parse_index_arg, select_error, str_contains,
    CliError, HistoryArgs, EXIT_DAEMON, EXIT_NOT_FOUND, EXIT_USAGE,
};

fn entries() -> Vec<(String, String)> {
    vec![("u1".to_owned(), "newest".to_owned()), ("u2".to_owned(), "older".to_owned())]
}

fn args() -> HistoryArgs {
    HistoryArgs { use_index: false, reverse: false, oneline: false, raw: false, zero: false }
}

#[test]
fn listing_default_shows_uuid_and_display() {
    let (out, print) = format_history_listing(&entries(), args());
    assert_eq!(out, "u1\tnewest\nu2\tolder");
    assert!(print);
}

#[test]
fn listing_variants() {
    let (out, _) = format_history_listing(&entries(), HistoryArgs { use_index: true, reverse: true, ..args() });
    assert_eq!(out, "0\tu2\tolder\n1\tu1\tnewest");
    let (out, _) = format_history_listing(&entries(), HistoryArgs { use_index: true, oneline: true, ..args() });
    assert_eq!(out, "0: newest\n1: older");
    let (out, _) = format_history_listing(&entries(), HistoryArgs { zero: true, ..args() });
    assert_eq!(out, "newest\0older");
    let (out, print) = format_history_listing(&Vec::new(), HistoryArgs { zero: true, ..args() });
    assert_eq!(out, "");
    assert!(!print);
    let (_, print) = format_history_listing(&Vec::new(), args());
    assert!(print);
}

#[test]
fn error_classes() {
    assert_eq!(method_error(true, "x".to_owned()).code, EXIT_DAEMON);
    assert_eq!(method_error(false, "x".to_owned()).code, EXIT_USAGE);
    assert_eq!(select_error(false, "not found: abc".to_owned()).code, EXIT_NOT_FOUND);
    assert_eq!(select_error(false, "invalid uuid: x".to_owned()).code, EXIT_USAGE);
    assert_eq!(navigation_error(false, "navigation boundary (index 0, len 1)".to_owned()).code, EXIT_NOT_FOUND);
    assert_eq!(navigation_error(false, "history is empty".to_owned()).code, EXIT_NOT_FOUND);
    assert_eq!(navigation_error(true, "history is empty".to_owned()).code, EXIT_DAEMON);
    assert_eq!(CliError::not_found("m".to_owned()).code(), EXIT_NOT_FOUND);
    assert!(str_contains("abcabd", "abd"));
    assert!(!str_contains("ab", "abc"));
}

#[test]
fn index_argument_parsing() {
    assert_eq!(parse_index_arg("0"), Some(0));
    assert_eq!(parse_index_arg("+12"), Some(12));
    assert_eq!(parse_index_arg(&usize::MAX.to_string()), Some(usize::MAX));
    assert_eq!(parse_index_arg("18446744073709551616"), None);
    assert_eq!(parse_index_arg("-1"), None);
    assert_eq!(parse_index_arg(""), None);
    assert_eq!(parse_index_arg("+"), None);
    assert_eq!(parse_index_arg("1a"), None);
}

#[test]
fn unavailable_daemon_kinds() {
    assert!(is_daemon_unavailable(BusErrorKind::InputOutput));
    assert!(is_daemon_unavailable(BusErrorKind::ServiceUnknown));
    assert!(is_daemon_unavailable(BusErrorKind::NameHasNoOwner));
    assert!(is_daemon_unavailable(BusErrorKind::NoReply));
    assert!(!is_daemon_unavailable(BusErrorKind::Other));
}
