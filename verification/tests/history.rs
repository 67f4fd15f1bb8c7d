use cosmic_paste::error::Error;
use cosmic_paste::history::{History, HistoryPolicies, IngestOutcome};
use cosmic_paste::item::{HistoryItem, ItemKind, RichPayload};

fn sample_policies() -> HistoryPolicies {
    HistoryPolicies {
        max_history_size: 5,
        max_memory_usage_bytes: 1024,
        max_text_item_size: 256,
        min_text_item_size: 1,
        growing_lines: false,
        trim_items: false,
        element_display_size: 20,
    }
}

#[test]
fn ingest_adds_newest_at_front() {
    let mut history = History::new("history", sample_policies());
    assert!(matches!(history.ingest_text("alpha", None, 1), IngestOutcome::Added));
    assert!(matches!(history.ingest_text("beta", None, 2), IngestOutcome::Added));
    assert_eq!(history.get(0).unwrap().plain_text(), Some("beta"));
    assert_eq!(history.get(1).unwrap().plain_text(), Some("alpha"));
}

#[test]
fn duplicate_moves_existing_to_front() {
    let mut history = History::new("history", sample_policies());
    history.ingest_text("alpha", None, 1);
    history.ingest_text("beta", None, 2);
    let outcome = history.ingest_text("alpha", None, 3);
    assert!(matches!(outcome, IngestOutcome::MovedExisting { .. }));
    assert_eq!(history.len(), 2);
    assert_eq!(history.get(0).unwrap().plain_text(), Some("alpha"));
}

#[test]
fn growing_lines_replaces_prefix_entry() {
    let mut policies = sample_policies();
    policies.growing_lines = true;
    let mut history = History::new("history", policies);
    history.ingest_text("foo", None, 1);
    let outcome = history.ingest_text("foo bar", None, 2);
    assert!(matches!(outcome, IngestOutcome::ReplacedGrowingLine { .. }));
    assert_eq!(history.len(), 1);
    assert_eq!(history.get(0).unwrap().plain_text(), Some("foo bar"));
}

#[test]
fn rejects_text_outside_bounds() {
    let mut policies = sample_policies();
    policies.min_text_item_size = 3;
    let mut history = History::new("history", policies);
    assert!(matches!(history.ingest_text("ab", None, 1), IngestOutcome::RejectedTextSize));
}

#[test]
fn trim_items_before_ingest() {
    let mut policies = sample_policies();
    policies.trim_items = true;
    let mut history = History::new("history", policies);
    history.ingest_text("  spaced  ", None, 1);
    assert_eq!(history.get(0).unwrap().plain_text(), Some("spaced"));
}

#[test]
fn pop_removes_newest_entry() {
    let mut history = History::new("history", sample_policies());
    history.ingest_text("alpha", None, 1);
    history.ingest_text("beta", None, 2);
    let popped = history.pop().unwrap();
    assert_eq!(popped.plain_text(), Some("beta"));
    assert_eq!(history.get(0).unwrap().plain_text(), Some("alpha"));
}

#[test]
fn history_select_moves_item_to_front() {
    let mut history = History::new("history", sample_policies());
    history.ingest_text("alpha", None, 1);
    history.ingest_text("beta", None, 2);
    let uuid = history.get(1).unwrap().uuid;
    assert_eq!(history.select(uuid).unwrap(), 0);
    assert_eq!(history.get(0).unwrap().plain_text(), Some("alpha"));
}

#[test]
fn enforces_max_history_size() {
    let mut policies = sample_policies();
    policies.max_history_size = 2;
    let mut history = History::new("history", policies);
    history.ingest_text("one", None, 1);
    history.ingest_text("two", None, 2);
    history.ingest_text("three", None, 3);
    assert_eq!(history.len(), 2);
    assert_eq!(history.get(0).unwrap().plain_text(), Some("three"));
    assert_eq!(history.get(1).unwrap().plain_text(), Some("two"));
}

#[test]
fn enforces_memory_budget() {
    let mut policies = sample_policies();
    policies.max_history_size = 100;
    policies.max_memory_usage_bytes = 5;
    let mut history = History::new("history", policies);
    history.ingest_text("12345", None, 1);
    history.ingest_text("67890", None, 2);
    assert_eq!(history.len(), 1);
    assert_eq!(history.get(0).unwrap().plain_text(), Some("67890"));
}

#[test]
fn byte_total_tracks_items_through_operations() {
    let mut history = History::new("history", sample_policies());
    history.ingest_text(
        "rich",
        Some(RichPayload { html: Some("<b>rich</b>".to_owned()), xml: Some("x".to_owned()) }),
        1,
    );
    assert_eq!(history.byte_total(), 4 + 11 + 1);
    history.ingest_text("héllo", None, 2);
    assert_eq!(history.byte_total(), 16 + 6);
    history.pop();
    assert_eq!(history.byte_total(), 16);
    history.empty();
    assert_eq!(history.byte_total(), 0);
    assert!(history.is_empty());
}

#[test]
fn added_item_display_uses_policy_width() {
    let mut history = History::new("history", sample_policies());
    history.ingest_text("abcdefghijklmnopqrstuvwxyz", None, 7);
    let item = history.get(0).unwrap();
    assert_eq!(item.display, "abcdefghijklmnopqrst\u{2026}");
    assert_eq!(item.created_at, 7);
    assert_eq!(item.byte_size, 26);
    assert!(item.password_name.is_none());
}

#[test]
fn reingest_of_same_text_keeps_entry() {
    let mut history = History::new("history", sample_policies());
    history.ingest_text("same", None, 1);
    let uuid = history.get(0).unwrap().uuid;
    assert_eq!(history.ingest_text("same", None, 2), IngestOutcome::MovedExisting { uuid });
    assert_eq!(history.len(), 1);
}

#[test]
fn growing_lines_keeps_identifier_and_needs_longer_prefix_match() {
    let mut policies = sample_policies();
    policies.growing_lines = true;
    let mut history = History::new("history", policies);
    history.ingest_text("foo", None, 1);
    let uuid = history.get(0).unwrap().uuid;
    assert_eq!(
        history.ingest_text("foobar", None, 2),
        IngestOutcome::ReplacedGrowingLine { uuid }
    );
    assert_eq!(history.byte_total(), 6);
    assert_eq!(history.ingest_text("bar", None, 3), IngestOutcome::Added);
    assert_eq!(history.len(), 2);
}

#[test]
fn empty_and_too_long_text_is_rejected() {
    let mut policies = sample_policies();
    policies.max_text_item_size = 4;
    policies.trim_items = true;
    let mut history = History::new("history", policies);
    assert_eq!(history.ingest_text("   ", None, 1), IngestOutcome::RejectedTextSize);
    assert_eq!(history.ingest_text("hello", None, 1), IngestOutcome::RejectedTextSize);
    assert_eq!(history.ingest_text(" hell ", None, 1), IngestOutcome::Added);
}

#[test]
fn delete_and_select_unknown_item_report_not_found() {
    let mut history = History::new("history", sample_policies());
    history.ingest_text("one", None, 1);
    history.ingest_text("two", None, 2);
    let uuid = history.get(1).unwrap().uuid;
    assert_eq!(history.find_index(uuid), Some(1));
    let (item, index) = history.delete(uuid).unwrap();
    assert_eq!(index, 1);
    assert_eq!(item.plain_text(), Some("one"));
    assert_eq!(history.delete(uuid).unwrap_err(), Error::NotFound(uuid));
    assert_eq!(history.select(uuid), Err(Error::NotFound(uuid)));
    assert_eq!(history.find_index(uuid), None);
}

#[test]
fn set_policies_trims_oldest_entries() {
    let mut history = History::new("history", sample_policies());
    for (i, text) in ["a", "b", "c", "d"].iter().enumerate() {
        history.ingest_text(text, None, i as u64);
    }
    let mut policies = sample_policies();
    policies.max_history_size = 2;
    history.set_policies(policies);
    assert_eq!(history.len(), 2);
    assert_eq!(history.get(0).unwrap().plain_text(), Some("d"));
    assert_eq!(history.get(1).unwrap().plain_text(), Some("c"));
    assert_eq!(history.byte_total(), 2);
}

#[test]
fn from_persisted_recalculates_byte_total() {
    let items = vec![
        HistoryItem::new_text("one".to_owned(), None, 1),
        HistoryItem {
            uuid: 9,
            kind: ItemKind::Password { name: "pw".to_owned() },
            display: "pw".to_owned(),
            created_at: 2,
            byte_size: 40,
            password_name: Some("pw".to_owned()),
        },
    ];
    let history = History::from_persisted("work", HistoryPolicies::default(), items);
    assert_eq!(history.name(), "work");
    assert_eq!(history.byte_total(), 43);
    assert!(history.get(1).unwrap().is_password());
    assert_eq!(history.get(1).unwrap().plain_text(), None);
}

#[test]
fn default_policies_values() {
    let p = HistoryPolicies::default();
    assert_eq!(p.max_history_size, 100);
    assert_eq!(p.max_memory_usage_bytes, 30 * 1024 * 1024);
    assert_eq!(p.max_text_item_size, 1_048_575);
    assert_eq!(p.min_text_item_size, 1);
    assert_eq!(p.element_display_size, 60);
}

#[test]
fn repeated_ingests_keep_texts_unique_and_within_limits() {
    let policies = HistoryPolicies { max_history_size: 3, max_memory_usage_bytes: 12, ..sample_policies() };
    let mut history = History::new("history", policies);
    for (i, text) in ["aa", "bbb", "aa", "cccc", "bbb", "dd", "aa"].iter().enumerate() {
        history.ingest_text(text, None, i as u64);
        let texts: Vec<&str> = history.items().iter().filter_map(|item| item.plain_text()).collect();
        for (a, x) in texts.iter().enumerate() {
            for y in &texts[a + 1..] {
                assert_ne!(x, y);
            }
        }
        assert!(history.len() <= 3);
        let sum: u64 = history.items().iter().map(|item| item.byte_size).sum();
        assert_eq!(history.byte_total(), sum);
        assert!(sum <= 12);
    }
    assert_eq!(history.get(0).unwrap().plain_text(), Some("aa"));
}
