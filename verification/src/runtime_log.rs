//! The summary a program writes at exit about its collector, and the exit
//! code of the program's `main`.

use vstd::prelude::*;
use crate::text::{bool_text, decimal, push_bool, push_decimal};

verus! {

/// What the runtime knows about the collector when the program ends.
#[derive(Clone, Copy, Debug, PartialEq, Eq, Structural)]
pub struct RuntimeStats {
    pub elision_enabled: bool,
    pub prem_enabled: bool,
    pub premopt_enabled: bool,
    pub num_finalizers_registered: u64,
    pub num_finalizers_completed: u64,
    pub num_finalizers_elidable: u64,
    pub num_barriers_visited: u64,
    pub num_allocated_gc: u64,
    pub num_allocated_boxed: u64,
    pub num_allocated_rc: u64,
    pub num_allocated_arc: u64,
    pub num_cycles: u64,
}

/// The header line of the summary.
pub open spec fn summary_header() -> Seq<char> {
    "elision enabled,premature finalizer prevention enabled,premopt enabled,finalizers registered,finalizers completed,barriers visited,Gc allocated,Box allocated,Rc allocated,Arc allocated,STW pauses"@
}

/// The values line of the summary. It has one more column than the header:
/// the elidable finalizers come between the completed finalizers and the
/// visited barriers.
pub open spec fn summary_values(s: RuntimeStats) -> Seq<char> {
    summary_flags(s) + summary_finalizer_counts(s) + summary_allocation_counts(s)
}

pub open spec fn summary_flags(s: RuntimeStats) -> Seq<char> {
    bool_text(s.elision_enabled) + ","@ + bool_text(s.prem_enabled) + ","@ + bool_text(
        s.premopt_enabled,
    ) + ","@
}

pub open spec fn summary_finalizer_counts(s: RuntimeStats) -> Seq<char> {
    decimal(s.num_finalizers_registered as nat) + ","@ + decimal(s.num_finalizers_completed as nat)
        + ","@ + decimal(s.num_finalizers_elidable as nat) + ","@ + decimal(
        s.num_barriers_visited as nat,
    ) + ","@
}

pub open spec fn summary_allocation_counts(s: RuntimeStats) -> Seq<char> {
    decimal(s.num_allocated_gc as nat) + ","@ + decimal(s.num_allocated_boxed as nat) + ","@
        + decimal(s.num_allocated_rc as nat) + ","@ + decimal(s.num_allocated_arc as nat) + ","@
        + decimal(s.num_cycles as nat) + "\n"@
}

fn push_flags(s: &mut String, stats: RuntimeStats)
    ensures
        final(s)@ == old(s)@ + summary_flags(stats),
{
    push_bool(s, stats.elision_enabled);
    s.append(",");
    push_bool(s, stats.prem_enabled);
    s.append(",");
    push_bool(s, stats.premopt_enabled);
    s.append(",");
    assert(s@ =~= old(s)@ + summary_flags(stats));
}

fn push_finalizer_counts(s: &mut String, stats: RuntimeStats)
    ensures
        final(s)@ == old(s)@ + summary_finalizer_counts(stats),
{
    push_decimal(s, stats.num_finalizers_registered);
    s.append(",");
    push_decimal(s, stats.num_finalizers_completed);
    s.append(",");
    push_decimal(s, stats.num_finalizers_elidable);
    s.append(",");
    push_decimal(s, stats.num_barriers_visited);
    s.append(",");
    assert(s@ =~= old(s)@ + summary_finalizer_counts(stats));
}

fn push_allocation_counts(s: &mut String, stats: RuntimeStats)
    ensures
        final(s)@ == old(s)@ + summary_allocation_counts(stats),
{
    push_decimal(s, stats.num_allocated_gc);
    s.append(",");
    push_decimal(s, stats.num_allocated_boxed);
    s.append(",");
    push_decimal(s, stats.num_allocated_rc);
    s.append(",");
    push_decimal(s, stats.num_allocated_arc);
    s.append(",");
    push_decimal(s, stats.num_cycles);
    s.append("\n");
    assert(s@ =~= old(s)@ + summary_allocation_counts(stats));
}

/// The text appended to the statistics file at exit: the header, a line
/// break, and the values line.
pub fn log_stats_text(stats: RuntimeStats) -> (s: String)
    ensures
        s@ == summary_header() + "\n"@ + summary_values(stats),
{
    let mut s = String::from_str(
        "elision enabled,premature finalizer prevention enabled,premopt enabled,finalizers registered,finalizers completed,barriers visited,Gc allocated,Box allocated,Rc allocated,Arc allocated,STW pauses",
    );
    s.append("\n");
    let ghost start = s@;
    push_flags(&mut s, stats);
    push_finalizer_counts(&mut s, stats);
    push_allocation_counts(&mut s, stats);
    assert(s@ =~= start + summary_values(stats));
    s
}

/// The exit code of a program whose `main` returned `Some(code)`, or
/// panicked (`None`): a panicking `main` exits with 101.
pub fn main_exit_code(main_result: Option<i32>) -> (code: isize)
    ensures
        code == match main_result {
            Some(c) => c as int,
            None => 101,
        },
{
    match main_result {
        Some(c) => c as isize,
        None => 101,
    }
}

} // verus!
