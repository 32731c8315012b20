//! Verified core of a conservative garbage-collector integration: allocation
//! planning, metric counters, runtime statistics records, and the decision
//! logic of the compiler passes that keep finalizers sound.

pub mod metrics;
pub mod packed_layout;
pub mod keep_alive;
pub mod remove_drops;
pub mod finalizer_safety;
pub mod finalizer_check;
pub mod collectable;
pub mod collect_fixtures;
pub mod text;
pub mod gc_stats;
pub mod runtime_log;
pub mod alloc_plan;
pub mod ub_checks;
pub mod gc_layout;
pub mod bdwgc_build;
pub mod gc_types;
pub mod heap_lint;
