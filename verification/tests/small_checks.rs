use alloy_gc::heap_lint::{check_expr, ExprShape};
use alloy_gc::gc_layout::alloc_gc_layout;
use alloy_gc::ub_checks::{
    check_language_ub, is_aligned_and_not_null, is_nonoverlapping, is_valid_allocation_size,
    EvalContext,
};

#[test]
fn language_checks_run_only_natively() {
    assert!(check_language_ub(true, EvalContext::Runtime { interpreted: false }));
    assert!(!check_language_ub(true, EvalContext::Runtime { interpreted: true }));
    assert!(!check_language_ub(true, EvalContext::CompileTime));
    assert!(!check_language_ub(false, EvalContext::Runtime { interpreted: false }));
}

#[test]
fn alignment_and_null() {
    assert!(is_aligned_and_not_null(0x1000, 8));
    assert!(!is_aligned_and_not_null(0, 8));
    assert!(!is_aligned_and_not_null(0x1004, 8));
    assert!(is_aligned_and_not_null(3, 1));
}

#[test]
fn allocation_sizes() {
    assert!(is_valid_allocation_size(0, usize::MAX));
    assert!(is_valid_allocation_size(8, (isize::MAX as usize) / 8));
    assert!(!is_valid_allocation_size(8, (isize::MAX as usize) / 8 + 1));
    assert!(is_valid_allocation_size(1, isize::MAX as usize));
    assert!(!is_valid_allocation_size(1, isize::MAX as usize + 1));
}

#[test]
fn overlapping_regions() {
    let rt = EvalContext::Runtime { interpreted: false };
    assert!(is_nonoverlapping(100, 116, 4, 4, rt));
    assert!(!is_nonoverlapping(100, 115, 4, 4, rt));
    assert!(!is_nonoverlapping(115, 100, 4, 4, rt));
    assert!(is_nonoverlapping(116, 100, 4, 4, rt));
    assert!(is_nonoverlapping(100, 100, 0, 4, rt));
    assert!(is_nonoverlapping(100, 100, 4, 4, EvalContext::CompileTime));
}

#[test]
fn gc_layout_constant() {
    let bytes = alloc_gc_layout(0x0102_0304_0506_0708, 5);
    assert_eq!(
        bytes,
        vec![8, 7, 6, 5, 4, 3, 2, 1, 5, 0, 0, 0, 0, 0, 0, 0]
    );
    let mut a = [0u8; 8];
    a.copy_from_slice(&bytes[0..8]);
    assert_eq!(u64::from_le_bytes(a), 0x0102_0304_0506_0708);
}

#[test]
fn allocations_with_other_allocators_are_reported() {
    // Rc::new_in(123, System)
    assert!(check_expr(ExprShape::CallOfPath { callee_allocates_in: Some(true), allocator_is_gc: false }));
    // Rc::new_in(123, GcAllocator)
    assert!(!check_expr(ExprShape::CallOfPath { callee_allocates_in: Some(true), allocator_is_gc: true }));
    assert!(!check_expr(ExprShape::CallOfPath { callee_allocates_in: Some(false), allocator_is_gc: false }));
    assert!(!check_expr(ExprShape::CallOfPath { callee_allocates_in: None, allocator_is_gc: false }));
    assert!(!check_expr(ExprShape::Other));
}
