//! Per-function statistics on the smart pointers a program declares.
//!
//! For every function body outside the standard library, the compiler can
//! count the user variables of each smart pointer type and append a line to
//! a CSV log. The counting and the wording of the log lines live here; the
//! compiler queries, the environment and the file are outside.

use vstd::prelude::*;
use crate::text::{decimal, push_decimal};

verus! {

/// The smart pointer types that are counted.
#[derive(Clone, Copy, Debug, PartialEq, Eq, Structural)]
pub enum SmartPointer {
    /// The collected pointer type; `needs_finalizer` holds when the value it
    /// points to needs a finalizer.
    Gc { needs_finalizer: bool },
    Rc,
    Arc,
    RcWeak,
    ArcWeak,
    /// Any other struct, enum or union.
    OtherAdt,
}

/// A local of a function body: whether the user wrote it, and, when its type
/// is a struct, enum or union, which of the counted types it is.
#[derive(Clone, Copy, Debug, PartialEq, Eq, Structural)]
pub struct StatLocal {
    pub is_user_variable: bool,
    pub adt: Option<SmartPointer>,
}

/// The counts for one function body.
#[derive(Clone, Copy, Debug, PartialEq, Eq, Structural)]
pub struct GcStats {
    pub num_gcs: u64,
    pub num_rcs: u64,
    pub num_weaks: u64,
    pub num_arcs: u64,
    pub num_arcweaks: u64,
    /// The `Gc` variables whose referent needs a finalizer.
    pub num_elidable_finalizers: u64,
}

/// Whether a local counts towards `kind`.
pub open spec fn counts_as(l: StatLocal, kind: SmartPointer) -> bool {
    &&& l.is_user_variable
    &&& l.adt == Some(kind)
}

/// How many of `locals[1..n]` satisfy `pred`; the first local, the return
/// place, is never counted.
pub open spec fn count_locals(locals: Seq<StatLocal>, n: int, pred: spec_fn(StatLocal) -> bool) -> nat
    decreases n,
{
    if n <= 1 {
        0
    } else {
        count_locals(locals, n - 1, pred) + if pred(locals[n - 1]) {
            1nat
        } else {
            0nat
        }
    }
}

pub open spec fn is_gc_local(l: StatLocal) -> bool {
    l.is_user_variable && l.adt matches Some(SmartPointer::Gc { .. })
}

pub open spec fn is_finalized_gc_local(l: StatLocal) -> bool {
    l.is_user_variable && l.adt == Some(SmartPointer::Gc { needs_finalizer: true })
}

/// The counts for the first `n` locals.
pub open spec fn stats_of(locals: Seq<StatLocal>, n: int) -> GcStats {
    GcStats {
        num_gcs: count_locals(locals, n, |l: StatLocal| is_gc_local(l)) as u64,
        num_rcs: count_locals(locals, n, |l: StatLocal| counts_as(l, SmartPointer::Rc)) as u64,
        num_weaks: count_locals(locals, n, |l: StatLocal| counts_as(l, SmartPointer::RcWeak)) as u64,
        num_arcs: count_locals(locals, n, |l: StatLocal| counts_as(l, SmartPointer::Arc)) as u64,
        num_arcweaks: count_locals(locals, n, |l: StatLocal| counts_as(l, SmartPointer::ArcWeak))
            as u64,
        num_elidable_finalizers: count_locals(locals, n, |l: StatLocal| is_finalized_gc_local(l))
            as u64,
    }
}

proof fn lemma_count_bounded(locals: Seq<StatLocal>, n: int, pred: spec_fn(StatLocal) -> bool)
    ensures
        count_locals(locals, n, pred) <= if n > 0 {
            n
        } else {
            0
        },
    decreases n,
{
    if n > 1 {
        lemma_count_bounded(locals, n - 1, pred);
    }
}

/// Counts the user variables of each smart pointer type among the locals of
/// a body, skipping the return place.
pub fn tally_locals(locals: &Vec<StatLocal>) -> (stats: GcStats)
    ensures
        stats == stats_of(locals@, locals@.len() as int),
{
    let mut stats = GcStats {
        num_gcs: 0,
        num_rcs: 0,
        num_weaks: 0,
        num_arcs: 0,
        num_arcweaks: 0,
        num_elidable_finalizers: 0,
    };
    let mut i: usize = 1;
    if locals.len() == 0 {
        return stats;
    }
    while i < locals.len()
        invariant
            1 <= i <= locals@.len(),
            stats == stats_of(locals@, i as int),
        decreases locals@.len() - i,
    {
        proof {
            lemma_count_bounded(locals@, i as int, |l: StatLocal| is_gc_local(l));
            lemma_count_bounded(locals@, i as int, |l: StatLocal| counts_as(l, SmartPointer::Rc));
            lemma_count_bounded(locals@, i as int, |l: StatLocal| counts_as(l, SmartPointer::RcWeak));
            lemma_count_bounded(locals@, i as int, |l: StatLocal| counts_as(l, SmartPointer::Arc));
            lemma_count_bounded(
                locals@,
                i as int,
                |l: StatLocal| counts_as(l, SmartPointer::ArcWeak),
            );
            lemma_count_bounded(locals@, i as int, |l: StatLocal| is_finalized_gc_local(l));
        }
        let l = locals[i];
        if l.is_user_variable {
            match l.adt {
                Some(SmartPointer::Gc { needs_finalizer }) => {
                    if needs_finalizer {
                        stats.num_elidable_finalizers = stats.num_elidable_finalizers + 1;
                    }
                    stats.num_gcs = stats.num_gcs + 1;
                },
                Some(SmartPointer::Rc) => {
                    stats.num_rcs = stats.num_rcs + 1;
                },
                Some(SmartPointer::Arc) => {
                    stats.num_arcs = stats.num_arcs + 1;
                },
                Some(SmartPointer::RcWeak) => {
                    stats.num_weaks = stats.num_weaks + 1;
                },
                Some(SmartPointer::ArcWeak) => {
                    stats.num_arcweaks = stats.num_arcweaks + 1;
                },
                _ => {},
            }
        }
        i = i + 1;
    }
    stats
}

/// Whether a definition of crate `krate` belongs to the standard library:
/// its crate is that of `Rc` (alloc), `RefCell` (core) or `Mutex` (std),
/// where the compiler knows those items.
pub fn in_std_lib(krate: u32, rc_krate: Option<u32>, refcell_krate: Option<u32>, mutex_krate: Option<
    u32,
>) -> (r: bool)
    ensures
        r == (rc_krate == Some(krate) || refcell_krate == Some(krate) || mutex_krate == Some(krate)),
{
    let alloc_crate = match rc_krate {
        Some(k) => k == krate,
        None => false,
    };
    let core_crate = match refcell_krate {
        Some(k) => k == krate,
        None => false,
    };
    let std_crate = match mutex_krate {
        Some(k) => k == krate,
        None => false,
    };
    alloc_crate || std_crate || core_crate
}

/// The header line of the statistics log.
pub open spec fn stats_header() -> Seq<char> {
    "fn,num_gcs,num_rcs,num_arcs,num_weaks,num_arcweaks,num_elidable_finalizers\n"@
}

/// The log line for the body of function `fn_path`.
pub open spec fn stats_line(fn_path: Seq<char>, s: GcStats) -> Seq<char> {
    fn_path + ","@ + decimal(s.num_gcs as nat) + ","@ + decimal(s.num_rcs as nat) + ","@ + decimal(
        s.num_arcs as nat,
    ) + ","@ + decimal(s.num_weaks as nat) + ","@ + decimal(s.num_arcweaks as nat) + ","@
        + decimal(s.num_elidable_finalizers as nat) + "\n"@
}

/// What to append to the statistics log for the body of function `fn_path`:
/// the header first when the log is still empty, then the body's line.
pub fn stats_log_text(fn_path: &str, stats: GcStats, log_is_empty: bool) -> (s: String)
    ensures
        s@ == (if log_is_empty {
            stats_header()
        } else {
            Seq::empty()
        }) + stats_line(fn_path@, stats),
{
    let mut s = String::new();
    if log_is_empty {
        s.append("fn,num_gcs,num_rcs,num_arcs,num_weaks,num_arcweaks,num_elidable_finalizers\n");
    }
    let ghost start = s@;
    s.append(fn_path);
    s.append(",");
    push_decimal(&mut s, stats.num_gcs);
    s.append(",");
    push_decimal(&mut s, stats.num_rcs);
    s.append(",");
    push_decimal(&mut s, stats.num_arcs);
    s.append(",");
    push_decimal(&mut s, stats.num_weaks);
    s.append(",");
    push_decimal(&mut s, stats.num_arcweaks);
    s.append(",");
    push_decimal(&mut s, stats.num_elidable_finalizers);
    s.append("\n");
    assert(s@ =~= start + stats_line(fn_path@, stats));
    s
}

/// What to append to the statistics log for one function body: nothing for
/// a body of the standard library; otherwise the body's counts, preceded by
/// the header when the log is still empty.
pub fn gc_stats_log_entry(
    fn_path: &str,
    locals: &Vec<StatLocal>,
    body_in_std_lib: bool,
    log_is_empty: bool,
) -> (r: Option<String>)
    ensures
        body_in_std_lib ==> r is None,
        !body_in_std_lib ==> (r matches Some(s) && s@ == (if log_is_empty {
            stats_header()
        } else {
            Seq::empty()
        }) + stats_line(fn_path@, stats_of(locals@, locals@.len() as int))),
{
    if body_in_std_lib {
        return None;
    }
    let stats = tally_locals(locals);
    Some(stats_log_text(fn_path, stats, log_is_empty))
}

proof fn lemma_count_prefix(
    locals: Seq<StatLocal>,
    l: StatLocal,
    n: int,
    pred: spec_fn(StatLocal) -> bool,
)
    requires
        n <= locals.len(),
    ensures
        count_locals(locals.push(l), n, pred) == count_locals(locals, n, pred),
    decreases n,
{
    if n > 1 {
        lemma_count_prefix(locals, l, n - 1, pred);
        assert(locals.push(l)[n - 1] == locals[n - 1]);
    }
}

/// The return place is never counted: a body with only that local has all
/// counts at zero.
pub proof fn lemma_return_place_not_counted(l: StatLocal)
    ensures
        stats_of(seq![l], 1) == (GcStats {
            num_gcs: 0,
            num_rcs: 0,
            num_weaks: 0,
            num_arcs: 0,
            num_arcweaks: 0,
            num_elidable_finalizers: 0,
        }),
{
}

/// Only variables the user wrote are counted: one more local that the
/// compiler introduced leaves every count as it was, whatever its type.
pub proof fn lemma_temporaries_not_counted(locals: Seq<StatLocal>, l: StatLocal)
    requires
        locals.len() >= 1,
        !l.is_user_variable,
    ensures
        stats_of(locals.push(l), locals.len() + 1int) == stats_of(locals, locals.len() as int),
{
    let n = locals.len() as int;
    lemma_count_prefix(locals, l, n, |x: StatLocal| is_gc_local(x));
    lemma_count_prefix(locals, l, n, |x: StatLocal| counts_as(x, SmartPointer::Rc));
    lemma_count_prefix(locals, l, n, |x: StatLocal| counts_as(x, SmartPointer::RcWeak));
    lemma_count_prefix(locals, l, n, |x: StatLocal| counts_as(x, SmartPointer::Arc));
    lemma_count_prefix(locals, l, n, |x: StatLocal| counts_as(x, SmartPointer::ArcWeak));
    lemma_count_prefix(locals, l, n, |x: StatLocal| is_finalized_gc_local(x));
    assert(locals.push(l)[n] == l);
}

/// One more user variable raises by one the count of its smart pointer kind
/// (a `Gc` of any referent counts as a `Gc`, and also as an elidable
/// finalizer when its referent needs a finalizer) and leaves the other
/// counts as they were; a user variable of any other type changes nothing.
pub proof fn lemma_user_variable_counted(locals: Seq<StatLocal>, l: StatLocal)
    requires
        locals.len() >= 1,
        locals.len() < u64::MAX,
        l.is_user_variable,
    ensures
        ({
            let before = stats_of(locals, locals.len() as int);
            let after = stats_of(locals.push(l), locals.len() + 1int);
            &&& after.num_gcs == before.num_gcs + if l.adt matches Some(SmartPointer::Gc { .. }) {
                1int
            } else {
                0int
            }
            &&& after.num_elidable_finalizers == before.num_elidable_finalizers + if l.adt == Some(
                SmartPointer::Gc { needs_finalizer: true },
            ) {
                1int
            } else {
                0int
            }
            &&& after.num_rcs == before.num_rcs + if l.adt == Some(SmartPointer::Rc) {
                1int
            } else {
                0int
            }
            &&& after.num_arcs == before.num_arcs + if l.adt == Some(SmartPointer::Arc) {
                1int
            } else {
                0int
            }
            &&& after.num_weaks == before.num_weaks + if l.adt == Some(SmartPointer::RcWeak) {
                1int
            } else {
                0int
            }
            &&& after.num_arcweaks == before.num_arcweaks + if l.adt == Some(SmartPointer::ArcWeak) {
                1int
            } else {
                0int
            }
        }),
{
    let n = locals.len() as int;
    let p1 = |x: StatLocal| is_gc_local(x);
    let p2 = |x: StatLocal| counts_as(x, SmartPointer::Rc);
    let p3 = |x: StatLocal| counts_as(x, SmartPointer::RcWeak);
    let p4 = |x: StatLocal| counts_as(x, SmartPointer::Arc);
    let p5 = |x: StatLocal| counts_as(x, SmartPointer::ArcWeak);
    let p6 = |x: StatLocal| is_finalized_gc_local(x);
    lemma_count_prefix(locals, l, n, p1);
    lemma_count_prefix(locals, l, n, p2);
    lemma_count_prefix(locals, l, n, p3);
    lemma_count_prefix(locals, l, n, p4);
    lemma_count_prefix(locals, l, n, p5);
    lemma_count_prefix(locals, l, n, p6);
    lemma_count_bounded(locals, n, p1);
    lemma_count_bounded(locals, n, p2);
    lemma_count_bounded(locals, n, p3);
    lemma_count_bounded(locals, n, p4);
    lemma_count_bounded(locals, n, p5);
    lemma_count_bounded(locals, n, p6);
    assert(locals.push(l)[n] == l);
}

} // verus!
