use dikt::clock::{now_millis, reading_millis};
use dikt::dbus::live_preedit::LivePreeditStore;
use dikt::dbus::pending_commit::{unreadable_stats_json, PendingCommitStore};
use dikt::dbus::transcript::{
    common_prefix_chars, longest_suffix_prefix_chars, merge_live_transcript,
};

#[test]
fn pending_commit_store_take_for_session_claim_consumes_exact_match() {
    let mut store = PendingCommitStore::default();
    store.store(42, "claim-a".to_string(), "hello".to_string());
    store.store(43, "claim-b".to_string(), "world".to_string());

    let (ok_first, text_first) = store.take_for_session(42, "claim-a");
    assert!(ok_first);
    assert_eq!(text_first, "hello");

    let (ok_second, text_second) = store.take_for_session(43, "claim-b");
    assert!(ok_second);
    assert_eq!(text_second, "world");
}

#[test]
fn pending_commit_store_rejects_wrong_claim() {
    let mut store = PendingCommitStore::default();
    store.store(61, "claim-ok".to_string(), "payload".to_string());

    let (ok, text) = store.take_for_session(61, "claim-wrong");
    assert!(!ok);
    assert!(text.is_empty());
    let (ok_again, text_again) = store.take_for_session(61, "claim-ok");
    assert!(ok_again);
    assert_eq!(text_again, "payload");
}

#[test]
fn pending_commit_store_stats_reports_oldest_age() {
    let mut store = PendingCommitStore::default();
    store.store_at(99, "claim-99".to_string(), "payload".to_string(), 1_000);
    let parsed: serde_json::Value =
        serde_json::from_str(&store.stats_json_at(1_002)).expect("valid stats json");
    let queue_len = parsed.get("queue_len").and_then(|v| v.as_u64()).unwrap_or(0);
    let oldest_age_ms = parsed.get("oldest_age_ms").and_then(|v| v.as_u64()).unwrap_or(0);
    assert_eq!(queue_len, 1);
    assert!(oldest_age_ms > 0);
    assert_eq!(oldest_age_ms, 2);
}

#[test]
fn pending_commit_store_keeps_independent_queue_order() {
    let mut store = PendingCommitStore::default();
    store.store(10, "claim-10".to_string(), "first".to_string());
    store.store(11, "claim-11".to_string(), "second".to_string());
    store.store(12, "claim-12".to_string(), "third".to_string());

    let first = store.take_for_session(10, "claim-10");
    let second = store.take_for_session(11, "claim-11");
    let third = store.take_for_session(12, "claim-12");

    assert_eq!(first, (true, "first".to_string()));
    assert_eq!(second, (true, "second".to_string()));
    assert_eq!(third, (true, "third".to_string()));
}

#[test]
fn live_preedit_store_tracks_latest_per_session() {
    let mut store = LivePreeditStore::default();
    store.set(42, 1, "alpha".to_string());
    store.set(42, 2, "bravo".to_string());

    let (revision, visible, text) = store.get_for_session(42);
    assert_eq!(revision, 2);
    assert!(visible);
    assert_eq!(text, "bravo");
}

#[test]
fn live_preedit_store_keeps_session_isolation() {
    let mut store = LivePreeditStore::default();
    store.set(21, 7, "left".to_string());
    store.set(22, 9, "right".to_string());

    let left = store.get_for_session(21);
    let right = store.get_for_session(22);
    assert_eq!(left.0, 7);
    assert!(left.1);
    assert_eq!(left.2, "left");
    assert_eq!(right.0, 9);
    assert!(right.1);
    assert_eq!(right.2, "right");
}

#[test]
fn live_preedit_store_clear_hides_entry() {
    let mut store = LivePreeditStore::default();
    store.set(101, 3, "hello".to_string());
    store.clear(101, 4);

    let (revision, visible, text) = store.get_for_session(101);
    assert_eq!(revision, 4);
    assert!(!visible);
    assert!(text.is_empty());
}

#[test]
fn merge_live_transcript_appends_shifted_tail_without_losing_prefix() {
    let accumulated = "hello world";
    let prev = "hello world";
    let next = "world again";
    let merged = merge_live_transcript(accumulated, prev, next);
    assert_eq!(merged, "hello world again");
}

#[test]
fn merge_live_transcript_replaces_tail_on_correction() {
    let accumulated = "hello wurld";
    let prev = "hello wurld";
    let next = "hello world";
    let merged = merge_live_transcript(accumulated, prev, next);
    assert_eq!(merged, "hello world");
}

#[test]
fn common_prefix_counts_characters() {
    assert_eq!(common_prefix_chars("", "abc"), 0);
    assert_eq!(common_prefix_chars("abc", "abd"), 2);
    assert_eq!(common_prefix_chars("naïve", "naïf"), 3);
    assert_eq!(common_prefix_chars("same", "same"), 4);
}

#[test]
fn longest_overlap_counts_characters() {
    assert_eq!(longest_suffix_prefix_chars("hello world", "world again"), 5);
    assert_eq!(longest_suffix_prefix_chars("aaa", "aaaa"), 3);
    assert_eq!(longest_suffix_prefix_chars("abc", "xyz"), 0);
    assert_eq!(longest_suffix_prefix_chars("größe", "ßen"), 2);
    assert_eq!(longest_suffix_prefix_chars("groß", "ßen"), 1);
}

#[test]
fn merging_keeps_what_was_heard_before_the_window() {
    let first = merge_live_transcript("", "", "one two three");
    assert_eq!(first, "one two three");
    let second = merge_live_transcript(&first, "one two three", "two three four");
    assert_eq!(second, "one two three four");
    let third = merge_live_transcript(&second, "two three four", "two three four");
    assert_eq!(third, "one two three four");
    assert!(third.ends_with("two three four"));
}

#[test]
fn text_is_taken_once() {
    let mut store = PendingCommitStore::default();
    store.store(5, "t".to_string(), "hello".to_string());
    assert_eq!(store.take_for_session(5, "t"), (true, "hello".to_string()));
    assert_eq!(store.take_for_session(5, "t"), (false, String::new()));
}

#[test]
fn a_full_queue_drops_its_oldest_text() {
    let mut store = PendingCommitStore::default();
    for i in 0..300u64 {
        store.store_at(i + 1, "t".to_string(), "text".to_string(), i);
    }
    assert!(store.dropped_count() > 0);
    assert_eq!(store.take_for_session(1, "t"), (false, String::new()));
    assert_eq!(store.take_for_session(300, "t"), (true, "text".to_string()));
}

#[test]
fn statistics_of_a_store() {
    let mut store = PendingCommitStore::default();
    store.store_at(7, "a".to_string(), "x".to_string(), 100);
    store.store_at(7, "a".to_string(), "y".to_string(), 150);
    store.store_at(8, "b".to_string(), "z".to_string(), 200);
    let stats: serde_json::Value = serde_json::from_str(&store.stats_json_at(400)).unwrap();
    assert_eq!(stats["queue_len"].as_u64(), Some(3));
    assert_eq!(stats["oldest_age_ms"].as_u64(), Some(300));
    assert_eq!(stats["targets"]["7"].as_u64(), Some(2));
    assert_eq!(stats["targets"]["8"].as_u64(), Some(1));
    let unreadable: serde_json::Value = serde_json::from_str(&unreadable_stats_json(9)).unwrap();
    assert_eq!(unreadable["queue_len"].as_u64(), Some(0));
    assert_eq!(unreadable["dropped_count"].as_u64(), Some(9));
    assert_eq!(unreadable["error"].as_str(), Some("lock_poisoned"));
    assert!(unreadable["targets"].as_object().unwrap().is_empty());
}

#[test]
fn statistics_read_the_clock_themselves() {
    let mut store = PendingCommitStore::default();
    store.store_at(99, "claim-99".to_string(), "payload".to_string(), 1_000);
    let before = now_millis();
    let stats: serde_json::Value =
        serde_json::from_str(&store.stats_json()).expect("valid stats json");
    assert_eq!(stats["queue_len"].as_u64(), Some(1));
    let age = stats["oldest_age_ms"].as_u64().unwrap();
    assert!(before - 1_000 <= age && age <= now_millis() - 1_000);
    assert_eq!(stats["targets"]["99"].as_u64(), Some(1));
}

#[test]
fn an_unknown_session_has_no_preview() {
    let store = LivePreeditStore::default();
    assert_eq!(store.get_for_session(1), (0, false, String::new()));
}

#[test]
fn clock_readings_are_reduced_to_64_bits() {
    assert_eq!(reading_millis(None), 0);
    assert_eq!(reading_millis(Some(1_700_000_000_123)), 1_700_000_000_123);
    assert_eq!(reading_millis(Some(u64::MAX as u128)), u64::MAX);
    assert_eq!(reading_millis(Some(u64::MAX as u128 + 8)), 7);
}

#[test]
fn clock_counts_from_the_epoch() {
    let before = std::time::SystemTime::now()
        .duration_since(std::time::UNIX_EPOCH)
        .unwrap()
        .as_millis();
    let now = now_millis() as u128;
    let after = std::time::SystemTime::now()
        .duration_since(std::time::UNIX_EPOCH)
        .unwrap()
        .as_millis();
    assert!(before <= now && now <= after);
}

#[test]
fn a_growing_window_takes_the_place_of_the_shorter_one() {
    let (base, one, two, three) = ("before ", "a", "a b", "a b c");
    let so_far = format!("{base}{one}");
    let grown = merge_live_transcript(&so_far, one, two);
    assert_eq!(grown, "before a b");
    assert_eq!(merge_live_transcript(&grown, two, three), "before a b c");
    assert_eq!(merge_live_transcript(&so_far, one, three), "before a b c");
    assert_eq!(common_prefix_chars(two, three), common_prefix_chars(three, two));
}
