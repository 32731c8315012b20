use alloy_gc::metrics::{
    increment, record_final, record_post_collection, CollectionEvent, Metric, Metrics,
    MetricsRecord,
};

#[test]
fn new_metrics_are_zero() {
    let m = Metrics::new();
    assert_eq!(m.finalizers_registered, 0);
    assert_eq!(m.finalizers_elidable, 0);
    assert_eq!(m.finalizers_completed, 0);
    assert_eq!(m.barriers_visited, 0);
    assert_eq!(m.allocated_gc, 0);
    assert_eq!(m.allocated_arc, 0);
    assert_eq!(m.allocated_rc, 0);
    assert_eq!(m.allocated_boxed, 0);
}

#[test]
fn each_metric_raises_its_counter() {
    let mut m = Metrics::new();
    increment(&mut m, 3, Metric::AllocationsGc);
    increment(&mut m, 5, Metric::AllocationsBox);
    increment(&mut m, 2, Metric::FinalizersRegistered);
    increment(&mut m, 1, Metric::FinalizersRun);
    increment(&mut m, 4, Metric::FinalizersElided);
    assert_eq!(m.allocated_gc, 3);
    assert_eq!(m.allocated_boxed, 5);
    assert_eq!(m.finalizers_registered, 2);
    // Elided finalizers count as completed ones.
    assert_eq!(m.finalizers_completed, 5);
    assert_eq!(m.finalizers_elidable, 0);
    assert_eq!(m.barriers_visited, 0);
}

#[test]
fn arc_and_rc_allocations_are_reclassified_from_boxed() {
    let mut m = Metrics::new();
    increment(&mut m, 1, Metric::AllocationsBox);
    increment(&mut m, 1, Metric::AllocationsBox);
    increment(&mut m, 1, Metric::AllocationsBox);
    increment(&mut m, 1, Metric::AllocationsArc);
    increment(&mut m, 1, Metric::AllocationsRc);
    assert_eq!(m.allocated_boxed, 1);
    assert_eq!(m.allocated_arc, 1);
    assert_eq!(m.allocated_rc, 1);
}

#[test]
fn counters_wrap_around() {
    let mut m = Metrics::new();
    increment(&mut m, 7, Metric::AllocationsRc);
    assert_eq!(m.allocated_boxed, u64::MAX - 6);
    assert_eq!(m.allocated_rc, 7);
    increment(&mut m, 7, Metric::AllocationsBox);
    assert_eq!(m.allocated_boxed, 0);
    let mut m = Metrics::new();
    increment(&mut m, u64::MAX, Metric::AllocationsGc);
    increment(&mut m, 2, Metric::AllocationsGc);
    assert_eq!(m.allocated_gc, 1);
}

#[test]
fn increments_commute_on_concrete_values() {
    let mut a = Metrics::new();
    increment(&mut a, 9, Metric::AllocationsArc);
    increment(&mut a, 4, Metric::AllocationsBox);
    let mut b = Metrics::new();
    increment(&mut b, 4, Metric::AllocationsBox);
    increment(&mut b, 9, Metric::AllocationsArc);
    assert_eq!(a, b);
}

#[test]
fn capture_orders_the_log_values() {
    let mut m = Metrics::new();
    m.increment(1, Metric::FinalizersRun);
    m.increment(2, Metric::FinalizersRegistered);
    m.increment(3, Metric::AllocationsGc);
    m.increment(9, Metric::AllocationsBox);
    m.increment(4, Metric::AllocationsArc);
    m.increment(5, Metric::AllocationsRc);
    let r = m.capture(false);
    assert_eq!(
        r,
        MetricsRecord {
            finalizers_completed: 1,
            finalizers_registered: 2,
            allocated_gc: 3,
            allocated_arc: 4,
            allocated_rc: 5,
            allocated_boxed: 0,
            is_last: 0,
        }
    );
    assert_eq!(record_final(&m).is_last, 1);
    assert_eq!(record_final(&m).allocated_gc, 3);
}

#[test]
fn only_the_end_of_a_collection_is_recorded() {
    let mut m = Metrics::new();
    m.increment(6, Metric::AllocationsGc);
    let r = record_post_collection(&m, CollectionEvent::End).unwrap();
    assert_eq!(r.allocated_gc, 6);
    assert_eq!(r.is_last, 0);
    assert_eq!(record_post_collection(&m, CollectionEvent::Start), None);
    assert_eq!(record_post_collection(&m, CollectionEvent::ReclaimEnd), None);
    assert_eq!(record_post_collection(&m, CollectionEvent::ThreadSuspended), None);
}

#[test]
fn totals_over_a_sequence_of_increments() {
    let mut m = Metrics::new();
    let events = [
        (10, Metric::AllocationsBox),
        (4, Metric::AllocationsArc),
        (1, Metric::AllocationsRc),
        (3, Metric::FinalizersRun),
        (2, Metric::FinalizersElided),
        (7, Metric::FinalizersRegistered),
        (5, Metric::AllocationsGc),
    ];
    for (amount, metric) in events {
        increment(&mut m, amount, metric);
    }
    assert_eq!(m.allocated_boxed, 10 - 4 - 1);
    assert_eq!(m.allocated_arc, 4);
    assert_eq!(m.allocated_rc, 1);
    assert_eq!(m.finalizers_completed, 5);
    assert_eq!(m.finalizers_registered, 7);
    assert_eq!(m.allocated_gc, 5);
    assert_eq!(m.finalizers_elidable, 0);
    assert_eq!(m.barriers_visited, 0);
}

#[test]
fn reference_counted_allocations_keep_the_boxed_sum() {
    let mut m = Metrics::new();
    increment(&mut m, 6, Metric::AllocationsBox);
    increment(&mut m, 2, Metric::AllocationsArc);
    increment(&mut m, 3, Metric::AllocationsRc);
    increment(&mut m, 4, Metric::AllocationsGc);
    let sum = m.allocated_arc.wrapping_add(m.allocated_rc).wrapping_add(m.allocated_boxed);
    assert_eq!(sum, 6);
    assert_eq!(m.allocated_gc, 4);
    // Reclassifying more than was counted as boxed wraps the boxed counter,
    // and the sum still gives the boxed total.
    let mut m = Metrics::new();
    increment(&mut m, 5, Metric::AllocationsArc);
    assert_eq!(m.allocated_boxed, u64::MAX - 4);
    let sum = m.allocated_arc.wrapping_add(m.allocated_rc).wrapping_add(m.allocated_boxed);
    assert_eq!(sum, 0);
}
