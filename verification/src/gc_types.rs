//! Small types of the collector's public interface.

use vstd::prelude::*;
use vstd::std_specs::cmp::{PartialEqSpec, PartialEqSpecImpl};

verus! {

/// Marks a type whose drop method may be skipped when a collected value of
/// that type is finalized, because none of its components needs dropping.
/// Implementing it is a promise: skipping the drop method must not lose
/// anything that matters.
pub trait DropMethodFinalizerElidable {}

/// A wrapper that keeps `T` from being finalized when it is collected.
///
/// This serves where `DropMethodFinalizerElidable` cannot be implemented for
/// `T` itself. If the wrapper is a field of another type that is finalized,
/// `T` is still finalized with it.
#[derive(Debug, Clone)]
pub struct NonFinalizable<T>(T);

impl<T> NonFinalizable<T> {
    pub closed spec fn inner(&self) -> T {
        self.0
    }

    /// Wraps a value so that it is not finalized.
    pub fn new(value: T) -> (r: NonFinalizable<T>)
        ensures
            r.inner() == value,
    {
        NonFinalizable(value)
    }

    /// The wrapped value.
    pub fn deref(&self) -> (r: &T)
        ensures
            *r == self.inner(),
    {
        &self.0
    }

    /// The wrapped value, for changing it.
    pub fn deref_mut(&mut self) -> (r: &mut T)
        ensures
            *r == old(self).inner(),
            final(self).inner() == *final(r),
    {
        &mut self.0
    }
}

impl<T: PartialEq> PartialEq for NonFinalizable<T> {
    /// Two wrappers are equal when the values they wrap are.
    fn eq(&self, other: &Self) -> (r: bool) {
        self.0 == other.0
    }
}

impl<T: PartialEq + Eq> Eq for NonFinalizable<T> {

}

impl<T: PartialEq> PartialEqSpecImpl for NonFinalizable<T> {
    open spec fn obeys_eq_spec() -> bool {
        T::obeys_eq_spec()
    }

    open spec fn eq_spec(&self, other: &Self) -> bool {
        self.inner().eq_spec(&other.inner())
    }
}

/// Two wrappers compare equal exactly when the values they wrap compare
/// equal, and comparing them follows the wrapped type's equality whenever
/// that type's does.
pub proof fn lemma_wrapper_eq<T: PartialEq>(x: NonFinalizable<T>, y: NonFinalizable<T>)
    ensures
        PartialEqSpec::eq_spec(&x, &y) <==> PartialEqSpec::eq_spec(&x.inner(), &y.inner()),
        <NonFinalizable<T> as PartialEqSpec>::obeys_eq_spec() == <T as PartialEqSpec>::obeys_eq_spec(),
{
}

/// Statistics the collector reports about its heap.
#[derive(Clone, Copy, Debug, PartialEq, Eq, Structural)]
pub struct ProfileStats {
    /// Heap size in bytes (including area unmapped to OS).
    pub heapsize_full: usize,
    /// Total bytes contained in free and unmapped blocks.
    pub free_bytes_full: usize,
    /// Amount of memory unmapped to OS.
    pub unmapped_bytes: usize,
    /// Number of bytes allocated since the recent collection.
    pub bytes_allocd_since_gc: usize,
    /// Number of bytes allocated before the recent collection.
    /// The value may wrap.
    pub allocd_bytes_before_gc: usize,
    /// Number of bytes not considered candidates for garbage collection.
    pub non_gc_bytes: usize,
    /// Garbage collection cycle number.
    /// The value may wrap.
    pub gc_no: usize,
    /// Number of marker threads (excluding the initiating one).
    pub markers_m1: usize,
    /// Approximate number of reclaimed bytes after recent collection.
    pub bytes_reclaimed_since_gc: usize,
    /// Approximate number of bytes reclaimed before the recent collection.
    /// The value may wrap.
    pub reclaimed_bytes_before_gc: usize,
    /// Number of bytes freed explicitly since the recent GC.
    pub expl_freed_bytes_since_gc: usize,
}

pub open spec fn zero_profile_stats() -> ProfileStats {
    ProfileStats {
        heapsize_full: 0,
        free_bytes_full: 0,
        unmapped_bytes: 0,
        bytes_allocd_since_gc: 0,
        allocd_bytes_before_gc: 0,
        non_gc_bytes: 0,
        gc_no: 0,
        markers_m1: 0,
        bytes_reclaimed_since_gc: 0,
        reclaimed_bytes_before_gc: 0,
        expl_freed_bytes_since_gc: 0,
    }
}

impl Default for ProfileStats {
    /// All statistics at zero.
    fn default() -> (s: Self)
        ensures
            s == zero_profile_stats(),
    {
        ProfileStats {
            heapsize_full: 0,
            free_bytes_full: 0,
            unmapped_bytes: 0,
            bytes_allocd_since_gc: 0,
            allocd_bytes_before_gc: 0,
            non_gc_bytes: 0,
            gc_no: 0,
            markers_m1: 0,
            bytes_reclaimed_since_gc: 0,
            reclaimed_bytes_before_gc: 0,
            expl_freed_bytes_since_gc: 0,
        }
    }
}

} // verus!
