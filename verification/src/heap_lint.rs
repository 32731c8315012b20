//! Every heap allocation must go through the collector's allocator, so that
//! the collector can trace what it holds. A call of a function that allocates
//! with a caller-chosen allocator is reported unless the allocator it is
//! given is the collector's own.

use vstd::prelude::*;

verus! {

/// The shape of an expression, as far as the lint reads it.
#[derive(Clone, Copy, Debug, PartialEq, Eq, Structural)]
pub enum ExprShape {
    /// A call whose callee is a path. `callee_allocates_in` is `None` when
    /// the path names no definition, and otherwise tells whether the
    /// definition is marked as allocating with a given allocator;
    /// `allocator_is_gc` tells whether the allocator the call passes is the
    /// collector's.
    CallOfPath { callee_allocates_in: Option<bool>, allocator_is_gc: bool },
    /// Any other expression.
    Other,
}

/// Whether the expression is reported as an allocation the collector cannot
/// track: a call of a function that allocates with the allocator it is given,
/// when that allocator is not the collector's.
pub fn check_expr(expr: ExprShape) -> (r: bool)
    ensures
        r == (expr matches ExprShape::CallOfPath { callee_allocates_in, allocator_is_gc }
            && callee_allocates_in == Some(true) && !allocator_is_gc),
{
    match expr {
        ExprShape::CallOfPath { callee_allocates_in, allocator_is_gc } => match callee_allocates_in {
            Some(marked) => marked && !allocator_is_gc,
            None => false,
        },
        ExprShape::Other => false,
    }
}

} // verus!
