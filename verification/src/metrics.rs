//! Counters that the collector keeps about allocations and finalizers.

use vstd::prelude::*;

verus! {

/// What an allocation or finalizer event counts towards.
#[derive(Clone, Copy, Debug, PartialEq, Eq, Structural)]
pub enum Metric {
    AllocationsArc,
    AllocationsGc,
    AllocationsRc,
    AllocationsBox,
    FinalizersRun,
    FinalizersElided,
    FinalizersRegistered,
}

/// Number of distinct values a 64-bit counter can hold.
pub open spec fn counter_modulus() -> int {
    0x1_0000_0000_0000_0000
}

/// A counter that is raised by `amount`, wrapping around on overflow.
pub open spec fn counter_add(counter: u64, amount: u64) -> u64 {
    ((counter + amount) % counter_modulus()) as u64
}

/// A counter that is lowered by `amount`, wrapping around on underflow.
pub open spec fn counter_sub(counter: u64, amount: u64) -> u64 {
    ((counter - amount + counter_modulus()) % counter_modulus()) as u64
}

/// The collector's counters. Every counter wraps around on overflow.
#[derive(Clone, Copy, Debug, PartialEq, Eq, Structural)]
pub struct Metrics {
    pub finalizers_registered: u64,
    pub finalizers_elidable: u64,
    pub finalizers_completed: u64,
    pub barriers_visited: u64,
    pub allocated_gc: u64,
    pub allocated_arc: u64,
    pub allocated_rc: u64,
    pub allocated_boxed: u64,
}

/// The values handed to the collector's metric log, in the order the log
/// expects them.
#[derive(Clone, Copy, Debug, PartialEq, Eq, Structural)]
pub struct MetricsRecord {
    pub finalizers_completed: u64,
    pub finalizers_registered: u64,
    pub allocated_gc: u64,
    pub allocated_arc: u64,
    pub allocated_rc: u64,
    pub allocated_boxed: u64,
    pub is_last: i32,
}

/// The counters after one `increment` of `metric` by `amount`.
pub open spec fn incremented(m: Metrics, amount: u64, metric: Metric) -> Metrics {
    match metric {
        Metric::AllocationsArc => Metrics {
            allocated_boxed: counter_sub(m.allocated_boxed, amount),
            allocated_arc: counter_add(m.allocated_arc, amount),
            ..m
        },
        Metric::AllocationsRc => Metrics {
            allocated_boxed: counter_sub(m.allocated_boxed, amount),
            allocated_rc: counter_add(m.allocated_rc, amount),
            ..m
        },
        Metric::AllocationsBox => Metrics {
            allocated_boxed: counter_add(m.allocated_boxed, amount),
            ..m
        },
        Metric::AllocationsGc => Metrics { allocated_gc: counter_add(m.allocated_gc, amount), ..m },
        Metric::FinalizersRun => Metrics {
            finalizers_completed: counter_add(m.finalizers_completed, amount),
            ..m
        },
        Metric::FinalizersElided => Metrics {
            finalizers_completed: counter_add(m.finalizers_completed, amount),
            ..m
        },
        Metric::FinalizersRegistered => Metrics {
            finalizers_registered: counter_add(m.finalizers_registered, amount),
            ..m
        },
    }
}

/// The `Arc`, `Rc` and boxed allocation counters added together, wrapped to
/// the counter range: every allocation counted through the boxed counter.
pub open spec fn allocation_sum(m: Metrics) -> u64 {
    ((m.allocated_arc + m.allocated_rc + m.allocated_boxed) % counter_modulus()) as u64
}

/// The record that a capture of `m` hands to the metric log.
pub open spec fn record_of(m: Metrics, is_last: bool) -> MetricsRecord {
    MetricsRecord {
        finalizers_completed: m.finalizers_completed,
        finalizers_registered: m.finalizers_registered,
        allocated_gc: m.allocated_gc,
        allocated_arc: m.allocated_arc,
        allocated_rc: m.allocated_rc,
        allocated_boxed: m.allocated_boxed,
        is_last: if is_last { 1 } else { 0 },
    }
}

fn wrapping_add_u64(counter: u64, amount: u64) -> (r: u64)
    ensures
        r == counter_add(counter, amount),
{
    counter.wrapping_add(amount)
}

fn wrapping_sub_u64(counter: u64, amount: u64) -> (r: u64)
    ensures
        r == counter_sub(counter, amount),
{
    counter.wrapping_sub(amount)
}

impl Metrics {
    /// All counters at zero.
    pub fn new() -> (m: Self)
        ensures
            m == (Metrics {
                finalizers_registered: 0,
                finalizers_elidable: 0,
                finalizers_completed: 0,
                barriers_visited: 0,
                allocated_gc: 0,
                allocated_arc: 0,
                allocated_rc: 0,
                allocated_boxed: 0,
            }),
    {
        Metrics {
            finalizers_registered: 0,
            finalizers_elidable: 0,
            finalizers_completed: 0,
            barriers_visited: 0,
            allocated_gc: 0,
            allocated_arc: 0,
            allocated_rc: 0,
            allocated_boxed: 0,
        }
    }

    /// Counts `amount` events of kind `metric`. An `Arc` or `Rc` allocation
    /// was first counted as a boxed allocation, so it is moved from the boxed
    /// counter to its own.
    pub fn increment(&mut self, amount: u64, metric: Metric)
        ensures
            *final(self) == incremented(*old(self), amount, metric),
            allocation_sum(*final(self)) == if metric == Metric::AllocationsBox {
                counter_add(allocation_sum(*old(self)), amount)
            } else {
                allocation_sum(*old(self))
            },
    {
        proof {
            lemma_allocation_sum_step(*self, amount, metric);
        }
        match metric {
            Metric::AllocationsArc => {
                self.allocated_boxed = wrapping_sub_u64(self.allocated_boxed, amount);
                self.allocated_arc = wrapping_add_u64(self.allocated_arc, amount);
            },
            Metric::AllocationsRc => {
                self.allocated_boxed = wrapping_sub_u64(self.allocated_boxed, amount);
                self.allocated_rc = wrapping_add_u64(self.allocated_rc, amount);
            },
            Metric::AllocationsBox => {
                self.allocated_boxed = wrapping_add_u64(self.allocated_boxed, amount);
            },
            Metric::AllocationsGc => {
                self.allocated_gc = wrapping_add_u64(self.allocated_gc, amount);
            },
            Metric::FinalizersRun => {
                self.finalizers_completed = wrapping_add_u64(self.finalizers_completed, amount);
            },
            Metric::FinalizersElided => {
                self.finalizers_completed = wrapping_add_u64(self.finalizers_completed, amount);
            },
            Metric::FinalizersRegistered => {
                self.finalizers_registered = wrapping_add_u64(self.finalizers_registered, amount);
            },
        }
    }

    /// The record for the metric log; `is_last` marks the final capture.
    pub fn capture(&self, is_last: bool) -> (r: MetricsRecord)
        ensures
            r == record_of(*self, is_last),
    {
        MetricsRecord {
            finalizers_completed: self.finalizers_completed,
            finalizers_registered: self.finalizers_registered,
            allocated_gc: self.allocated_gc,
            allocated_arc: self.allocated_arc,
            allocated_rc: self.allocated_rc,
            allocated_boxed: self.allocated_boxed,
            is_last: if is_last { 1 } else { 0 },
        }
    }
}

/// Counts `amount` events of kind `metric` in `metrics`.
pub fn increment(metrics: &mut Metrics, amount: u64, metric: Metric)
    ensures
        *final(metrics) == incremented(*old(metrics), amount, metric),
        allocation_sum(*final(metrics)) == if metric == Metric::AllocationsBox {
            counter_add(allocation_sum(*old(metrics)), amount)
        } else {
            allocation_sum(*old(metrics))
        },
{
    metrics.increment(amount, metric);
}

/// The last capture of the counters, taken when the program ends.
pub fn record_final(metrics: &Metrics) -> (r: MetricsRecord)
    ensures
        r == record_of(*metrics, true),
{
    metrics.capture(true)
}

/// The events the collector reports about a collection, in the order of its
/// event numbering.
#[derive(Clone, Copy, Debug, PartialEq, Eq, Structural)]
pub enum CollectionEvent {
    Start,
    MarkStart,
    MarkEnd,
    ReclaimStart,
    ReclaimEnd,
    End,
    PreStopWorld,
    PostStopWorld,
    PreStartWorld,
    PostStartWorld,
    ThreadSuspended,
    ThreadUnsuspended,
}

/// What to log when the collector reports `event`: a capture of the
/// counters, not the last one, once a collection has ended; nothing
/// otherwise.
pub fn record_post_collection(metrics: &Metrics, event: CollectionEvent) -> (r: Option<MetricsRecord>)
    ensures
        r == if event == CollectionEvent::End {
            Some(record_of(*metrics, false))
        } else {
            None::<MetricsRecord>
        },
{
    match event {
        CollectionEvent::End => Some(metrics.capture(false)),
        _ => None,
    }
}

/// An `Arc` (or `Rc`) allocation is counted first as a boxed allocation and
/// then reclassified: the two increments by the same amount leave the boxed
/// counter as it was and raise the `Arc` (or `Rc`) counter by that amount.
pub proof fn lemma_reclassified_allocation(m: Metrics, amount: u64, metric: Metric)
    requires
        metric == Metric::AllocationsArc || metric == Metric::AllocationsRc,
    ensures
        ({
            let after = incremented(incremented(m, amount, Metric::AllocationsBox), amount, metric);
            &&& after.allocated_boxed == m.allocated_boxed
            &&& metric == Metric::AllocationsArc ==> after.allocated_arc == counter_add(
                m.allocated_arc,
                amount,
            ) && after.allocated_rc == m.allocated_rc
            &&& metric == Metric::AllocationsRc ==> after.allocated_rc == counter_add(
                m.allocated_rc,
                amount,
            ) && after.allocated_arc == m.allocated_arc
        }),
{
    let md = counter_modulus();
    let bx = m.allocated_boxed as int;
    let a = amount as int;
    lemma_mod_absorb(bx + a, md - a);
    assert((bx + a) + (md - a) == md + bx);
    vstd::arithmetic::div_mod::lemma_mod_add_multiples_vanish(bx, md);
    vstd::arithmetic::div_mod::lemma_small_mod(bx as nat, md as nat);
}

/// Increments commute: two increments give the same counters in either
/// order.
pub proof fn lemma_increments_commute(m: Metrics, a: u64, x: Metric, b: u64, y: Metric)
    ensures
        incremented(incremented(m, a, x), b, y) == incremented(incremented(m, b, y), a, x),
{
    assert forall|c: u64, p: u64, q: u64|
        counter_add(counter_add(c, p), q) == counter_add(counter_add(c, q), p)
            && counter_sub(counter_sub(c, p), q) == counter_sub(counter_sub(c, q), p)
            && counter_add(counter_sub(c, p), q) == counter_sub(counter_add(c, q), p) by {
        lemma_wrapping_commute(c, p, q);
    }
}

proof fn lemma_mod_absorb(x: int, y: int)
    ensures
        ((x % counter_modulus()) + y) % counter_modulus() == (x + y) % counter_modulus(),
{
    let m = counter_modulus();
    vstd::arithmetic::div_mod::lemma_add_mod_noop(x % m, y, m);
    vstd::arithmetic::div_mod::lemma_mod_twice(x, m);
    vstd::arithmetic::div_mod::lemma_add_mod_noop(x, y, m);
}

/// Only a boxed allocation changes the sum of the `Arc`, `Rc` and boxed
/// counters, and it raises the sum by its amount; an `Arc` or `Rc` allocation
/// moves its amount between the counters and leaves the sum as it was.
pub proof fn lemma_allocation_sum_step(m: Metrics, amount: u64, metric: Metric)
    ensures
        allocation_sum(incremented(m, amount, metric)) == if metric == Metric::AllocationsBox {
            counter_add(allocation_sum(m), amount)
        } else {
            allocation_sum(m)
        },
{
    let md = counter_modulus();
    let arc = m.allocated_arc as int;
    let rc = m.allocated_rc as int;
    let bx = m.allocated_boxed as int;
    let a = amount as int;
    match metric {
        Metric::AllocationsArc => {
            lemma_mod_absorb(bx - a + md, (arc + a) % md + rc);
            lemma_mod_absorb(arc + a, bx - a + md + rc);
            vstd::arithmetic::div_mod::lemma_mod_add_multiples_vanish(arc + rc + bx, md);
            assert((arc + a) + (bx - a + md + rc) == md + (arc + rc + bx));
        },
        Metric::AllocationsRc => {
            lemma_mod_absorb(bx - a + md, (rc + a) % md + arc);
            lemma_mod_absorb(rc + a, bx - a + md + arc);
            vstd::arithmetic::div_mod::lemma_mod_add_multiples_vanish(arc + rc + bx, md);
            assert((rc + a) + (bx - a + md + arc) == md + (arc + rc + bx));
        },
        Metric::AllocationsBox => {
            lemma_mod_absorb(bx + a, arc + rc);
            lemma_mod_absorb(arc + rc + bx, a);
        },
        _ => {},
    }
}

proof fn lemma_wrapping_commute(c: u64, p: u64, q: u64)
    ensures
        counter_add(counter_add(c, p), q) == counter_add(counter_add(c, q), p),
        counter_sub(counter_sub(c, p), q) == counter_sub(counter_sub(c, q), p),
        counter_add(counter_sub(c, p), q) == counter_sub(counter_add(c, q), p),
{
    let m = counter_modulus();
    lemma_mod_absorb(c + p, q as int);
    lemma_mod_absorb(c + q, p as int);
    assert(counter_add(counter_add(c, p), q) == counter_add(counter_add(c, q), p));
    lemma_mod_absorb(c - p + m, m - q);
    lemma_mod_absorb(c - q + m, m - p);
    assert((c - p + m) + (m - q) == (c - q + m) + (m - p));
    assert(counter_sub(counter_sub(c, p), q) == counter_sub(counter_sub(c, q), p));
    lemma_mod_absorb(c - p + m, q as int);
    lemma_mod_absorb(c + q, m - p);
    assert(counter_add(counter_sub(c, p), q) == counter_sub(counter_add(c, q), p));
}

/// No increment changes the elidable-finalizer or visited-barrier counters.
pub proof fn lemma_increment_keeps_unrelated(m: Metrics, amount: u64, metric: Metric)
    ensures
        incremented(m, amount, metric).finalizers_elidable == m.finalizers_elidable,
        incremented(m, amount, metric).barriers_visited == m.barriers_visited,
{
}

/// All counters at zero.
pub open spec fn zero_metrics() -> Metrics {
    Metrics {
        finalizers_registered: 0,
        finalizers_elidable: 0,
        finalizers_completed: 0,
        barriers_visited: 0,
        allocated_gc: 0,
        allocated_arc: 0,
        allocated_rc: 0,
        allocated_boxed: 0,
    }
}

/// The counters after the increments `evs`, each an amount and a metric,
/// in order.
pub open spec fn increments_applied(m: Metrics, evs: Seq<(u64, Metric)>) -> Metrics
    decreases evs.len(),
{
    if evs.len() == 0 {
        m
    } else {
        incremented(increments_applied(m, evs.drop_last()), evs.last().0, evs.last().1)
    }
}

/// The sum of the amounts of the increments of `metric` among `evs`.
pub open spec fn amount_total(evs: Seq<(u64, Metric)>, metric: Metric) -> int
    decreases evs.len(),
{
    if evs.len() == 0 {
        0
    } else {
        amount_total(evs.drop_last(), metric) + if evs.last().1 == metric {
            evs.last().0 as int
        } else {
            0
        }
    }
}

/// A value taken modulo the counter range, as a counter.
pub open spec fn wrapped(x: int) -> u64 {
    (x % counter_modulus()) as u64
}

proof fn lemma_add_step(x: int, a: u64)
    ensures
        counter_add(wrapped(x), a) == wrapped(x + a),
{
    lemma_mod_absorb(x, a as int);
}

proof fn lemma_sub_step(x: int, a: u64)
    ensures
        counter_sub(wrapped(x), a) == wrapped(x - a),
{
    let m = counter_modulus();
    lemma_mod_absorb(x, m - a);
    vstd::arithmetic::div_mod::lemma_mod_add_multiples_vanish(x - a, m);
    assert(x + (m - a) == m + (x - a));
}

/// From all counters at zero, any sequence of increments leaves each counter
/// at the total of the amounts counted towards it, wrapped to the counter
/// range: `Arc` and `Rc` amounts are taken out of the boxed count, run and
/// elided finalizers both count as completed, and the elidable-finalizer and
/// barrier counters stay at zero.
pub proof fn lemma_totals_from_zero(evs: Seq<(u64, Metric)>)
    ensures
        ({
            let r = increments_applied(zero_metrics(), evs);
            &&& r.allocated_gc == wrapped(amount_total(evs, Metric::AllocationsGc))
            &&& r.allocated_arc == wrapped(amount_total(evs, Metric::AllocationsArc))
            &&& r.allocated_rc == wrapped(amount_total(evs, Metric::AllocationsRc))
            &&& r.allocated_boxed == wrapped(
                amount_total(evs, Metric::AllocationsBox) - amount_total(evs, Metric::AllocationsArc)
                    - amount_total(evs, Metric::AllocationsRc),
            )
            &&& r.finalizers_completed == wrapped(
                amount_total(evs, Metric::FinalizersRun) + amount_total(evs, Metric::FinalizersElided),
            )
            &&& r.finalizers_registered == wrapped(amount_total(evs, Metric::FinalizersRegistered))
            &&& r.finalizers_elidable == 0
            &&& r.barriers_visited == 0
            &&& allocation_sum(r) == wrapped(amount_total(evs, Metric::AllocationsBox))
        }),
    decreases evs.len(),
{
    if evs.len() > 0 {
        let prev = evs.drop_last();
        lemma_totals_from_zero(prev);
        let (a, metric) = evs.last();
        let gc = amount_total(prev, Metric::AllocationsGc);
        let arc = amount_total(prev, Metric::AllocationsArc);
        let rc = amount_total(prev, Metric::AllocationsRc);
        let bx = amount_total(prev, Metric::AllocationsBox);
        let run = amount_total(prev, Metric::FinalizersRun);
        let eli = amount_total(prev, Metric::FinalizersElided);
        let reg = amount_total(prev, Metric::FinalizersRegistered);
        lemma_add_step(gc, a);
        lemma_add_step(arc, a);
        lemma_add_step(rc, a);
        lemma_add_step(bx - arc - rc, a);
        lemma_sub_step(bx - arc - rc, a);
        lemma_add_step(run + eli, a);
        lemma_add_step(reg, a);
        lemma_allocation_sum_step(increments_applied(zero_metrics(), prev), a, metric);
        lemma_add_step(bx, a);
    } else {
        assert(wrapped(0) == 0);
    }
}

} // verus!
