//! Checks of the preconditions of unsafe operations on raw memory, made on
//! addresses and sizes.

use vstd::prelude::*;
use crate::alloc_plan::{is_pow2, isize_max};

verus! {

/// Where a check runs: during constant evaluation, or at run time, possibly
/// under an interpreter that checks undefined behaviour itself.
#[derive(Clone, Copy, Debug, PartialEq, Eq, Structural)]
pub enum EvalContext {
    CompileTime,
    Runtime { interpreted: bool },
}

/// Whether violations of the language's rules are checked: only when checks
/// are enabled, and only at run time outside an interpreter, which has
/// better checks of its own.
pub fn check_language_ub(ub_checks: bool, ctx: EvalContext) -> (r: bool)
    ensures
        r == (ub_checks && ctx == EvalContext::Runtime { interpreted: false }),
{
    ub_checks && match ctx {
        EvalContext::CompileTime => false,
        EvalContext::Runtime { interpreted } => !interpreted,
    }
}

/// Whether the address is non-null and a multiple of `align`.
pub fn is_aligned_and_not_null(addr: usize, align: usize) -> (r: bool)
    requires
        is_pow2(align as int),
    ensures
        r == (addr != 0 && addr % align == 0),
{
    addr != 0 && addr % align == 0
}

/// Whether `len` elements of `size` bytes each may be allocated: their total
/// size must not exceed the largest `isize`.
pub fn is_valid_allocation_size(size: usize, len: usize) -> (r: bool)
    ensures
        r == (size == 0 || len <= isize_max() / (size as int)),
{
    let max_len = if size == 0 {
        usize::MAX
    } else {
        (isize::MAX as usize) / size
    };
    len <= max_len
}

/// The distance between two addresses.
pub open spec fn distance(a: usize, b: usize) -> int {
    if a >= b {
        a - b
    } else {
        b - a
    }
}

/// Whether the regions of `count` elements of `size` bytes at `src` and at
/// `dst` do not overlap. During constant evaluation the check cannot be made
/// and passes.
pub fn is_nonoverlapping(src: usize, dst: usize, size: usize, count: usize, ctx: EvalContext) -> (r:
    bool)
    requires
        ctx is CompileTime || size * count <= usize::MAX,
    ensures
        r == match ctx {
            EvalContext::CompileTime => true,
            EvalContext::Runtime { .. } => distance(src, dst) >= size * count,
        },
{
    match ctx {
        EvalContext::CompileTime => true,
        EvalContext::Runtime { .. } => {
            let total = size * count;
            let diff = if src >= dst {
                src - dst
            } else {
                dst - src
            };
            diff >= total
        },
    }
}

/// For elements of non-zero size, an allocation size is valid exactly when
/// the total number of bytes does not exceed the largest `isize`.
pub proof fn lemma_valid_allocation_size_is_total_bound(size: usize, len: usize)
    requires
        size > 0,
    ensures
        (len <= isize_max() / (size as int)) <==> (len * size <= isize_max()),
{
    let m = isize_max();
    let q = m / (size as int);
    vstd::arithmetic::div_mod::lemma_fundamental_div_mod(m, size as int);
    if len <= q {
        assert(len * size <= q * size) by (nonlinear_arith)
            requires
                len <= q,
                size > 0,
        ;
        assert(q * size <= m) by (nonlinear_arith)
            requires
                m == size * q + m % (size as int),
                0 <= m % (size as int),
        ;
    } else {
        assert(len * size >= (q + 1) * size) by (nonlinear_arith)
            requires
                len >= q + 1,
                size > 0,
        ;
        assert((q + 1) * size > m) by (nonlinear_arith)
            requires
                m == size * q + m % (size as int),
                m % (size as int) < size,
        ;
    }
}

/// Whether two regions overlap does not depend on which one is the source.
pub proof fn lemma_nonoverlapping_symmetric(src: usize, dst: usize)
    ensures
        distance(src, dst) == distance(dst, src),
{
}

} // verus!
