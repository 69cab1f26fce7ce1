use rust_pubsub_client::idempotence::IdempotenceFilter;
use std::sync::{Arc, Mutex};

#[test]
fn idempotence_test_idempotence_filter() {
    let mut filter = IdempotenceFilter::new(3);

    assert!(filter.should_process(Some("id1")));
    assert!(!filter.should_process(Some("id1")));
    assert!(filter.should_process(Some("id2")));
    assert!(filter.should_process(Some("id3")));
    assert!(filter.should_process(Some("id4")));
    assert!(filter.should_process(Some("id1")));
}

#[test]
fn test_none_message_id() {
    let mut filter = IdempotenceFilter::new(10);
    assert!(filter.should_process(None));
    assert!(filter.should_process(None));
}

#[test]
fn test_idempotence_basic() {
    let mut filter = IdempotenceFilter::new(100);

    assert!(filter.should_process(Some("id1")));
    assert!(!filter.should_process(Some("id1")));
    assert!(filter.should_process(Some("id2")));
}

#[test]
fn test_idempotence_capacity() {
    let mut filter = IdempotenceFilter::new(3);

    assert!(filter.should_process(Some("id1")));
    assert!(filter.should_process(Some("id2")));
    assert!(filter.should_process(Some("id3")));
    assert!(filter.should_process(Some("id4")));

    assert!(filter.should_process(Some("id1")));
    assert!(!filter.should_process(Some("id4")));
}

#[test]
fn test_idempotence_none() {
    let mut filter = IdempotenceFilter::new(10);

    assert!(filter.should_process(None));
    assert!(filter.should_process(None));
}

#[test]
fn test_idempotence_reset() {
    let mut filter = IdempotenceFilter::new(10);

    assert!(filter.should_process(Some("id1")));
    assert!(!filter.should_process(Some("id1")));

    filter.reset();

    assert!(filter.should_process(Some("id1")));
    assert_eq!(filter.len(), 1);
}

#[test]
fn test_idempotence_concurrent() {
    let filter = Arc::new(Mutex::new(IdempotenceFilter::new(1000)));

    for i in 0..10 {
        for j in 0..100 {
            let id = format!("thread_{}_msg_{}", i, j);
            filter.lock().unwrap().should_process(Some(&id));
        }
    }

    assert_eq!(filter.lock().unwrap().len(), 1000);
}

#[test]
fn none_id_leaves_window_unchanged() {
    let mut filter = IdempotenceFilter::new(2);
    assert!(filter.is_empty());
    assert!(filter.should_process(None));
    assert!(filter.is_empty());
    assert!(filter.should_process(Some("a")));
    assert!(filter.should_process(None));
    assert_eq!(filter.len(), 1);
}

#[test]
fn refused_id_does_not_refresh_its_place() {
    let mut filter = IdempotenceFilter::new(2);
    assert!(filter.should_process(Some("a")));
    assert!(filter.should_process(Some("b")));
    assert!(!filter.should_process(Some("a")));
    assert!(filter.should_process(Some("c")));
    assert!(filter.should_process(Some("a")));
    assert!(!filter.should_process(Some("c")));
    assert_eq!(filter.len(), 2);
}

#[test]
fn zero_capacity_keeps_newest_id() {
    let mut filter = IdempotenceFilter::new(0);
    assert!(filter.should_process(Some("a")));
    assert!(!filter.should_process(Some("a")));
    assert!(filter.should_process(Some("b")));
    assert_eq!(filter.len(), 1);
    assert!(filter.should_process(Some("a")));
}

#[test]
fn fresh_ids_evicted_first_in_first_out() {
    let mut filter = IdempotenceFilter::new(3);
    for id in ["a", "b", "c", "d", "e"] {
        assert!(filter.should_process(Some(id)));
    }
    assert_eq!(filter.len(), 3);
    assert!(!filter.should_process(Some("c")));
    assert!(!filter.should_process(Some("d")));
    assert!(!filter.should_process(Some("e")));
    assert!(filter.should_process(Some("b")));
}

#[test]
fn reset_empties_filter() {
    let mut filter = IdempotenceFilter::new(5);
    assert!(filter.should_process(Some("x")));
    assert!(!filter.is_empty());
    filter.reset();
    assert!(filter.is_empty());
    assert_eq!(filter.len(), 0);
}

#[test]
fn len_counts_ids_accepted_since_reset() {
    let mut filter = IdempotenceFilter::new(3);
    let mut accepted = 0;
    for id in ["a", "b", "a", "c"] {
        if filter.should_process(Some(id)) {
            accepted += 1;
        }
    }
    assert_eq!(accepted, 3);
    assert_eq!(filter.len(), 3);
    filter.reset();
    assert!(filter.should_process(Some("x")));
    assert!(filter.should_process(None));
    assert_eq!(filter.len(), 1);
    for id in ["y", "z", "w", "v"] {
        assert!(filter.should_process(Some(id)));
    }
    assert_eq!(filter.len(), 3);
}

#[test]
fn ids_compared_by_full_text() {
    let mut filter = IdempotenceFilter::new(4);
    assert!(filter.should_process(Some("é")));
    assert!(filter.should_process(Some("e")));
    assert!(filter.should_process(Some("ée")));
    assert!(!filter.should_process(Some("é")));
    assert!(filter.should_process(Some("")));
    assert!(!filter.should_process(Some("")));
}
