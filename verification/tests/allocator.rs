use alloy_gc::alloc_plan::{
    gc_malloc_plan, gc_realloc_plan, memalign_result, AllocError, AllocatePlan, GcAllocator,
    Layout, MallocPlan, MemoryBlock, ReallocPlan,
};

// A type with a 1024-byte alignment holding one byte, and one with a
// 16-byte alignment holding four words.
const S_SIZE: usize = 1024;
const S_ALIGN: usize = 1024;
const T_SIZE: usize = 32;
const T_ALIGN: usize = 16;

/// The alignment the collector guarantees for memory served by a plan.
fn guaranteed_alignment(plan: AllocatePlan) -> usize {
    match plan {
        AllocatePlan::Malloc(MallocPlan::Memalign { align, .. }) => align,
        AllocatePlan::Malloc(MallocPlan::Malloc { .. }) => alloy_gc::alloc_plan::MIN_ALIGN,
        AllocatePlan::Dangling { addr } => addr,
    }
}

#[test]
fn large_alignment() {
    let s = Layout::from_size_align(S_SIZE, S_ALIGN).unwrap();
    let plan = GcAllocator.allocate_plan(s);
    assert_eq!(plan, AllocatePlan::Malloc(MallocPlan::Memalign { align: 1024, size: 1024 }));
    // Memory served this way is aligned as the type asks.
    assert_eq!(guaranteed_alignment(plan) % S_ALIGN, 0);
    // A null result is refused, so the pointer handed out is never null.
    assert_eq!(GcAllocator.allocate_result(s, 0), Err(AllocError));

    let t = Layout::from_size_align(T_SIZE, T_ALIGN).unwrap();
    let plan = GcAllocator.allocate_plan(t);
    assert_eq!(plan, AllocatePlan::Malloc(MallocPlan::Memalign { align: 16, size: 32 }));
    assert_eq!(guaranteed_alignment(plan) % T_ALIGN, 0);
    assert_eq!(GcAllocator.allocate_result(t, 0), Err(AllocError));
}

#[test]
fn bdwgc_issue_589() {
    // 512 bytes aligned to 64 go through the aligned entry point.
    let layout = Layout::from_size_align(512, 64).unwrap();
    assert_eq!(gc_malloc_plan(layout), MallocPlan::Memalign { align: 64, size: 512 });
}

#[test]
fn small_alignment_uses_plain_entry_point() {
    let layout = Layout::from_size_align(24, 8).unwrap();
    assert_eq!(gc_malloc_plan(layout), MallocPlan::Malloc { size: 24 });
}

#[test]
fn alignment_above_size_uses_aligned_entry_point() {
    // A 4-byte value aligned to 8: the alignment exceeds the size.
    let layout = Layout::from_size_align(4, 8).unwrap();
    assert_eq!(gc_malloc_plan(layout), MallocPlan::Memalign { align: 8, size: 4 });
    // A 1-byte value aligned to 2 gets at least word alignment.
    let layout = Layout::from_size_align(1, 2).unwrap();
    assert_eq!(gc_malloc_plan(layout), MallocPlan::Memalign { align: 8, size: 1 });
}

#[test]
fn invalid_layouts_are_refused() {
    assert!(Layout::from_size_align(8, 0).is_none());
    assert!(Layout::from_size_align(8, 3).is_none());
    assert!(Layout::from_size_align(isize::MAX as usize, 2).is_none());
    assert!(Layout::from_size_align(isize::MAX as usize, 1).is_some());
    let l = Layout::from_size_align(10, 4).unwrap();
    assert_eq!(l.size(), 10);
    assert_eq!(l.align(), 4);
}

#[test]
fn memalign_failure_gives_null() {
    assert_eq!(memalign_result(12, 0x2000), 0);
    assert_eq!(memalign_result(0, 0x2000), 0x2000);
}

#[test]
fn realloc_in_place_or_moved() {
    let old = Layout::from_size_align(16, 8).unwrap();
    assert_eq!(gc_realloc_plan(old, 64), ReallocPlan::Resize { new_size: 64 });
    let old = Layout::from_size_align(256, 64).unwrap();
    assert_eq!(
        gc_realloc_plan(old, 100),
        ReallocPlan::Move { alloc: MallocPlan::Memalign { align: 64, size: 100 }, copy_len: 100 }
    );
    assert_eq!(
        gc_realloc_plan(old, 512),
        ReallocPlan::Move { alloc: MallocPlan::Memalign { align: 64, size: 512 }, copy_len: 256 }
    );
    // Shrinking below the alignment moves the block.
    let old = Layout::from_size_align(8, 8).unwrap();
    assert_eq!(
        gc_realloc_plan(old, 4),
        ReallocPlan::Move { alloc: MallocPlan::Memalign { align: 8, size: 4 }, copy_len: 4 }
    );
}

#[test]
fn zero_sized_allocation_is_dangling() {
    let l = Layout::from_size_align(0, 32).unwrap();
    assert_eq!(GcAllocator.allocate_plan(l), AllocatePlan::Dangling { addr: 32 });
    assert_eq!(GcAllocator.allocate_result(l, 32), Ok(MemoryBlock { addr: 32, len: 0 }));
}

#[test]
fn failed_allocation_is_an_error() {
    let l = Layout::from_size_align(100, 8).unwrap();
    assert_eq!(GcAllocator.allocate_result(l, 0), Err(AllocError));
    assert_eq!(GcAllocator.allocate_result(l, 0x40), Ok(MemoryBlock { addr: 0x40, len: 100 }));
}
