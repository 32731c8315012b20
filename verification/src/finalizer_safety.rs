//! Finalizer safety analysis.
//!
//! Collected objects are finalized on a separate thread, so the drop methods
//! that run as finalizers must only touch values that are `Send`, `Sync` and
//! safe to use in a finalizer, and must not follow references whose lifetime
//! may have ended. When a value is handed to a constructor of the collected
//! pointer type (an entry point of the analysis), every drop method in its
//! drop glue is checked.
//!
//! Types are given as a table: each entry records what the trait solver knows
//! of one type, and the entries that make up a compound type come after it in
//! the table. A drop method is given as the sequence of events a visit of its
//! body reports: the projections its statements take and the calls its
//! terminators make.

use vstd::prelude::*;

verus! {

/// A program point inside a drop method: a basic block and a statement index.
#[derive(Clone, Copy, Debug, PartialEq, Eq, Structural)]
pub struct Location {
    pub block: usize,
    pub statement: usize,
}

/// One step of a projection, with the type it lets the analysis read.
#[derive(Clone, Copy, Debug, PartialEq, Eq, Structural)]
pub enum ProjElem {
    /// A field of the given type.
    Field { ty: usize },
    /// An element of an array or slice (by index, constant index or
    /// subslice), where `base` is the type indexed into.
    Indexed { base: usize },
    /// Any other projection, such as a dereference or a downcast.
    Other,
}

/// What a visit of a drop method's body reports, in order.
#[derive(Clone, Debug)]
pub enum DropEvent {
    /// A place with projections used by a statement at `location`.
    Projection { location: Location, span: u64, elems: Vec<ProjElem> },
    /// A call made by a terminator, with the types of its arguments.
    /// `callee_visible` holds when the analysis can see the definition of the
    /// called function; a call into a function it cannot see may do anything.
    Call { arg_tys: Vec<usize>, callee_visible: bool },
}

/// The body of a drop method.
#[derive(Clone, Debug)]
pub struct DropMethod {
    pub span: u64,
    /// The types of the method's own arguments.
    pub args: Vec<usize>,
    pub events: Vec<DropEvent>,
}

#[derive(Clone, Debug)]
pub enum FsaTyKind {
    /// Booleans, numbers, characters, raw pointers, function items and
    /// pointers, string slices, foreign and erroneous types.
    Scalar,
    /// A reference.
    Ref,
    /// A trait object.
    Dynamic,
    Slice { elem: usize },
    Array { elem: usize },
    Tuple { fields: Vec<usize> },
    /// A struct, enum or union. `fields` are the types of all its fields,
    /// `drop_method` its drop method where it has one.
    Adt {
        is_copy: bool,
        is_box: bool,
        in_std_lib: bool,
        drop_method: Option<DropMethod>,
        fields: Vec<usize>,
    },
    /// Any other type.
    Other,
}

/// One entry of the type table.
#[derive(Clone, Debug)]
pub struct FsaTy {
    pub kind: FsaTyKind,
    pub is_send: bool,
    pub is_sync: bool,
    pub is_finalizer_safe: bool,
    pub needs_finalizer: bool,
    pub is_finalize_unchecked: bool,
    pub is_gc: bool,
}

/// Why a drop method cannot be run as a finalizer.
#[derive(Clone, Copy, Debug, PartialEq, Eq, Structural)]
pub enum FinalizerError {
    /// Uses a value that is not `Send` and `Sync`.
    NotSendAndSync(u64),
    /// Uses a value of a type that is not safe in a finalizer.
    NotFinalizerSafe(usize, u64),
    /// Reads through a reference.
    UnsoundReference(usize, u64),
    /// Drops a trait object, whose drop method is unknown.
    UnknownTraitObject,
    /// Calls a function the analysis cannot see into.
    MissingFnDef,
    /// Drop glue of a standard library type that failed the check.
    UnsoundExternalDropGlue(u64),
}

// ---------------------------------------------------------------------------
// Checking one drop method
// ---------------------------------------------------------------------------
/// The type a projection step lets the analysis read, if any.
pub open spec fn extracted_ty(table: Seq<FsaTy>, e: ProjElem) -> Option<usize> {
    match e {
        ProjElem::Field { ty } => Some(ty),
        ProjElem::Indexed { base } => match table[base as int].kind {
            FsaTyKind::Slice { elem } => Some(elem),
            FsaTyKind::Array { elem } => Some(elem),
            _ => None,
        },
        ProjElem::Other => None,
    }
}

/// The error, if any, of reading a value of type `t` in a finalizer.
pub open spec fn violation(table: Seq<FsaTy>, t: usize, span: u64) -> Option<FinalizerError> {
    let n = table[t as int];
    if !n.is_send || !n.is_sync {
        Some(FinalizerError::NotSendAndSync(span))
    } else if n.kind is Ref {
        Some(FinalizerError::UnsoundReference(t, span))
    } else if !n.is_finalizer_safe {
        Some(FinalizerError::NotFinalizerSafe(t, span))
    } else {
        None
    }
}

/// The first error among the projection steps `elems[i..]`.
pub open spec fn projection_error(table: Seq<FsaTy>, elems: Seq<ProjElem>, span: u64, i: int) -> Option<
    FinalizerError,
>
    decreases elems.len() - i,
{
    if i < 0 || i >= elems.len() {
        None
    } else {
        match extracted_ty(table, elems[i]) {
            Some(t) => match violation(table, t, span) {
                Some(e) => Some(e),
                None => projection_error(table, elems, span, i + 1),
            },
            None => projection_error(table, elems, span, i + 1),
        }
    }
}

/// How many of the first `j` call arguments have type `a`.
pub open spec fn count_eq(call: Seq<usize>, a: usize, j: int) -> nat
    decreases j,
{
    if j <= 0 {
        0
    } else {
        count_eq(call, a, j - 1) + if call[j - 1] == a {
            1nat
        } else {
            0nat
        }
    }
}

/// How many pairs of one of the first `i` method arguments and one call
/// argument have the same type.
pub open spec fn count_pairs(args: Seq<usize>, call: Seq<usize>, i: int) -> nat
    decreases i,
{
    if i <= 0 {
        0
    } else {
        count_pairs(args, call, i - 1) + count_eq(call, args[i - 1], call.len() as int)
    }
}

/// How many missing-definition errors a call reports: one when the analysis
/// cannot see the called function, and one for each pair of a method
/// argument and a call argument of the same type, since the analysis does
/// not follow the method's own values into other functions.
pub open spec fn call_errors(args: Seq<usize>, call: Seq<usize>, callee_visible: bool) -> nat {
    (if callee_visible {
        0nat
    } else {
        1nat
    }) + count_pairs(args, call, args.len() as int)
}

/// `k` copies of the missing-definition error.
pub open spec fn missing_defs(k: nat) -> Seq<FinalizerError> {
    Seq::new(k, |i: int| FinalizerError::MissingFnDef)
}

/// Errors found so far, and the locations that already have an error.
pub struct ScanState {
    pub errors: Seq<FinalizerError>,
    pub locations: Seq<Location>,
}

/// The state after recording error `e` at `location`: an error is recorded
/// only for a location that has none yet.
pub open spec fn error_pushed(st: ScanState, location: Location, e: FinalizerError) -> ScanState {
    if st.locations.contains(location) {
        st
    } else {
        ScanState { errors: st.errors.push(e), locations: st.locations.push(location) }
    }
}

/// Records error `error` at `location` unless that location already has an
/// error: then the first error there stands and nothing changes.
pub fn push_error(
    errors: &mut Vec<FinalizerError>,
    locations: &mut Vec<Location>,
    location: Location,
    error: FinalizerError,
)
    ensures
        (ScanState { errors: final(errors)@, locations: final(locations)@ }) == error_pushed(
            ScanState { errors: old(errors)@, locations: old(locations)@ },
            location,
            error,
        ),
{
    if !contains_location(locations, location) {
        errors.push(error);
        locations.push(location);
    }
}

/// Recording two errors at one location keeps only the first: after the
/// first, the second changes nothing.
pub proof fn lemma_push_error_first_wins(
    st: ScanState,
    location: Location,
    e1: FinalizerError,
    e2: FinalizerError,
)
    ensures
        error_pushed(error_pushed(st, location, e1), location, e2) == error_pushed(st, location, e1),
        !st.locations.contains(location) ==> error_pushed(st, location, e1).errors == st.errors.push(
            e1,
        ),
        st.locations.contains(location) ==> error_pushed(st, location, e1) == st,
{
    let once = error_pushed(st, location, e1);
    if !st.locations.contains(location) {
        assert(once.locations[once.locations.len() - 1] == location);
    }
}

/// The scan state after one more event.
pub open spec fn scan_step(table: Seq<FsaTy>, args: Seq<usize>, st: ScanState, ev: DropEvent) -> ScanState {
    match ev {
        DropEvent::Projection { location, span, elems } => match projection_error(
            table,
            elems@,
            span,
            0,
        ) {
            Some(e) => error_pushed(st, location, e),
            None => st,
        },
        DropEvent::Call { arg_tys, callee_visible } => ScanState {
            errors: st.errors + missing_defs(call_errors(args, arg_tys@, callee_visible)),
            ..st
        },
    }
}

/// The scan state after the first `n` events.
pub open spec fn scan_run(table: Seq<FsaTy>, args: Seq<usize>, events: Seq<DropEvent>, n: int) -> ScanState
    decreases n,
{
    if n <= 0 {
        ScanState { errors: Seq::empty(), locations: Seq::empty() }
    } else {
        scan_step(table, args, scan_run(table, args, events, n - 1), events[n - 1])
    }
}

/// The errors found in a drop method.
pub open spec fn drop_method_errors(table: Seq<FsaTy>, dm: DropMethod) -> Seq<FinalizerError> {
    scan_run(table, dm.args@, dm.events@, dm.events@.len() as int).errors
}

/// Whether every type a drop method names is in the table.
pub open spec fn drop_method_in_range(table: Seq<FsaTy>, dm: DropMethod) -> bool {
    &&& forall|i: int| 0 <= i < dm.args@.len() ==> #[trigger] dm.args@[i] < table.len()
    &&& forall|e: int|
        0 <= e < dm.events@.len() ==> match #[trigger] dm.events@[e] {
            DropEvent::Projection { elems, .. } => forall|k: int|
                0 <= k < elems@.len() ==> match #[trigger] elems@[k] {
                    ProjElem::Field { ty } => ty < table.len(),
                    ProjElem::Indexed { base } => base < table.len(),
                    ProjElem::Other => true,
                },
            DropEvent::Call { arg_tys, .. } => forall|k: int|
                0 <= k < arg_tys@.len() ==> #[trigger] arg_tys@[k] < table.len(),
        }
}

/// Whether every element type of an array or slice is in the table.
pub open spec fn elements_in_range(table: Seq<FsaTy>) -> bool {
    forall|t: int|
        0 <= t < table.len() ==> match #[trigger] table[t].kind {
            FsaTyKind::Slice { elem } => elem < table.len(),
            FsaTyKind::Array { elem } => elem < table.len(),
            _ => true,
        }
}

fn contains_location(locs: &Vec<Location>, l: Location) -> (r: bool)
    ensures
        r == locs@.contains(l),
{
    let mut i: usize = 0;
    while i < locs.len()
        invariant
            i <= locs@.len(),
            forall|k: int| 0 <= k < i ==> locs@[k] != l,
        decreases locs@.len() - i,
    {
        let x = locs[i];
        if x.block == l.block && x.statement == l.statement {
            assert(locs@[i as int] == l);
            return true;
        }
        i = i + 1;
    }
    false
}

fn extract_projection_ty(table: &Vec<FsaTy>, e: ProjElem) -> (r: Option<usize>)
    requires
        match e {
            ProjElem::Indexed { base } => base < table@.len(),
            _ => true,
        },
    ensures
        r == extracted_ty(table@, e),
{
    match e {
        ProjElem::Field { ty } => Some(ty),
        ProjElem::Indexed { base } => match &table[base].kind {
            FsaTyKind::Slice { elem } => Some(*elem),
            FsaTyKind::Array { elem } => Some(*elem),
            _ => None,
        },
        ProjElem::Other => None,
    }
}

fn check_projection(table: &Vec<FsaTy>, elems: &Vec<ProjElem>, span: u64) -> (r: Option<FinalizerError>)
    requires
        elements_in_range(table@),
        forall|k: int|
            0 <= k < elems@.len() ==> match #[trigger] elems@[k] {
                ProjElem::Field { ty } => ty < table@.len(),
                ProjElem::Indexed { base } => base < table@.len(),
                ProjElem::Other => true,
            },
    ensures
        r == projection_error(table@, elems@, span, 0),
{
    let mut i: usize = 0;
    while i < elems.len()
        invariant
            i <= elems@.len(),
            elements_in_range(table@),
            forall|k: int|
                0 <= k < elems@.len() ==> match #[trigger] elems@[k] {
                    ProjElem::Field { ty } => ty < table@.len(),
                    ProjElem::Indexed { base } => base < table@.len(),
                    ProjElem::Other => true,
                },
            projection_error(table@, elems@, span, 0) == projection_error(
                table@,
                elems@,
                span,
                i as int,
            ),
        decreases elems@.len() - i,
    {
        let e = elems[i];
        assert(match elems@[i as int] {
            ProjElem::Field { ty } => ty < table@.len(),
            ProjElem::Indexed { base } => base < table@.len(),
            ProjElem::Other => true,
        });
        match extract_projection_ty(table, e) {
            Some(t) => {
                assert(t < table@.len()) by {
                    match e {
                        ProjElem::Indexed { base } => {
                            assert(match table@[base as int].kind {
                                FsaTyKind::Slice { elem } => elem < table@.len(),
                                FsaTyKind::Array { elem } => elem < table@.len(),
                                _ => true,
                            });
                        },
                        _ => {},
                    }
                }
                let n = &table[t];
                if !n.is_send || !n.is_sync {
                    return Some(FinalizerError::NotSendAndSync(span));
                }
                let is_ref = match n.kind {
                    FsaTyKind::Ref => true,
                    _ => false,
                };
                if is_ref {
                    return Some(FinalizerError::UnsoundReference(t, span));
                }
                if !n.is_finalizer_safe {
                    return Some(FinalizerError::NotFinalizerSafe(t, span));
                }
            },
            None => {},
        }
        i = i + 1;
    }
    None
}

fn push_missing_defs(
    errors: &mut Vec<FinalizerError>,
    args: &Vec<usize>,
    call: &Vec<usize>,
    callee_visible: bool,
)
    ensures
        final(errors)@ == old(errors)@ + missing_defs(call_errors(args@, call@, callee_visible)),
{
    let ghost start = errors@;
    if !callee_visible {
        errors.push(FinalizerError::MissingFnDef);
    }
    let ghost base = errors@;
    let ghost unseen: nat = if callee_visible {
        0
    } else {
        1
    };
    assert(base =~= start + missing_defs(unseen));
    let mut i: usize = 0;
    while i < args.len()
        invariant
            i <= args@.len(),
            errors@ == base + missing_defs(count_pairs(args@, call@, i as int)),
        decreases args@.len() - i,
    {
        let recv = args[i];
        let mut j: usize = 0;
        while j < call.len()
            invariant
                i < args@.len(),
                recv == args@[i as int],
                j <= call@.len(),
                errors@ == base + missing_defs(
                    count_pairs(args@, call@, i as int) + count_eq(call@, recv, j as int),
                ),
            decreases call@.len() - j,
        {
            if call[j] == recv {
                let ghost k = count_pairs(args@, call@, i as int) + count_eq(call@, recv, j as int);
                errors.push(FinalizerError::MissingFnDef);
                assert(missing_defs(k).push(FinalizerError::MissingFnDef) =~= missing_defs(k + 1));
                assert(errors@ =~= base + missing_defs(k + 1));
            }
            j = j + 1;
        }
        i = i + 1;
    }
    let ghost pairs = count_pairs(args@, call@, args@.len() as int);
    assert(missing_defs(unseen) + missing_defs(pairs) =~= missing_defs(unseen + pairs));
    assert(errors@ =~= start + missing_defs(call_errors(args@, call@, callee_visible)));
}

/// Checks the body of one drop method; returns every error found, in the
/// order found. A projection reports at most one error, and a location at
/// most one projection error; a call reports one error when the called
/// function cannot be seen into, and one for each pair of a method argument
/// and a call argument of the same type.
pub fn check_drop_method(table: &Vec<FsaTy>, dm: &DropMethod) -> (r: Result<(), Vec<FinalizerError>>)
    requires
        elements_in_range(table@),
        drop_method_in_range(table@, *dm),
    ensures
        match r {
            Ok(()) => drop_method_errors(table@, *dm).len() == 0,
            Err(errs) => errs@ == drop_method_errors(table@, *dm) && errs@.len() > 0,
        },
{
    let mut errors: Vec<FinalizerError> = Vec::new();
    let mut locs: Vec<Location> = Vec::new();
    let mut i: usize = 0;
    while i < dm.events.len()
        invariant
            i <= dm.events@.len(),
            elements_in_range(table@),
            drop_method_in_range(table@, *dm),
            errors@ == scan_run(table@, dm.args@, dm.events@, i as int).errors,
            locs@ == scan_run(table@, dm.args@, dm.events@, i as int).locations,
        decreases dm.events@.len() - i,
    {
        let ev = &dm.events[i];
        assert(match dm.events@[i as int] {
            DropEvent::Projection { elems, .. } => forall|k: int|
                0 <= k < elems@.len() ==> match #[trigger] elems@[k] {
                    ProjElem::Field { ty } => ty < table@.len(),
                    ProjElem::Indexed { base } => base < table@.len(),
                    ProjElem::Other => true,
                },
            DropEvent::Call { arg_tys, .. } => forall|k: int|
                0 <= k < arg_tys@.len() ==> #[trigger] arg_tys@[k] < table@.len(),
        });
        match ev {
            DropEvent::Projection { location, span, elems } => {
                match check_projection(table, elems, *span) {
                    Some(e) => {
                        push_error(&mut errors, &mut locs, *location, e);
                    },
                    None => {},
                }
            },
            DropEvent::Call { arg_tys, callee_visible } => {
                push_missing_defs(&mut errors, &dm.args, arg_tys, *callee_visible);
            },
        }
        i = i + 1;
    }
    if errors.len() == 0 {
        Ok(())
    } else {
        Err(errors)
    }
}

// ---------------------------------------------------------------------------
// Walking the drop glue of a type
// ---------------------------------------------------------------------------
/// The errors that visiting type `t` itself reports, before its components
/// are visited.
pub open spec fn own_errors(table: Seq<FsaTy>, t: int) -> Seq<FinalizerError> {
    match table[t].kind {
        FsaTyKind::Dynamic => seq![FinalizerError::UnknownTraitObject],
        FsaTyKind::Adt { is_copy, is_box, in_std_lib, drop_method, fields } => if is_copy {
            Seq::empty()
        } else {
            let boxed = if is_box {
                seq![FinalizerError::MissingFnDef]
            } else {
                Seq::empty()
            };
            match drop_method {
                None => boxed,
                Some(dm) => {
                    let errs = drop_method_errors(table, dm);
                    if errs.len() == 0 {
                        boxed
                    } else if in_std_lib {
                        boxed.push(FinalizerError::UnsoundExternalDropGlue(dm.span))
                    } else {
                        boxed + errs
                    }
                },
            }
        },
        _ => Seq::empty(),
    }
}

/// The component types that visiting type `t` puts on the work stack, in
/// the order they are pushed. The fields of a standard library type whose
/// drop method failed the check are not visited.
pub open spec fn pushed_children(table: Seq<FsaTy>, t: int) -> Seq<usize> {
    match table[t].kind {
        FsaTyKind::Slice { elem } => seq![elem],
        FsaTyKind::Array { elem } => seq![elem],
        FsaTyKind::Tuple { fields } => fields@,
        FsaTyKind::Adt { is_copy, in_std_lib, drop_method, fields, .. } => if is_copy {
            Seq::empty()
        } else {
            match drop_method {
                Some(dm) => if drop_method_errors(table, dm).len() != 0 && in_std_lib {
                    Seq::empty()
                } else {
                    fields@
                },
                None => fields@,
            }
        },
        _ => Seq::empty(),
    }
}

/// Every error found in the drop glue of type `t`, in the order a depth-first
/// walk with a work stack finds them: the type's own errors, then those of
/// its components, the last pushed first.
pub open spec fn glue_errors(table: Seq<FsaTy>, t: int) -> Seq<FinalizerError>
    decreases table.len() - t, 1int, 0int,
{
    if !(0 <= t < table.len()) {
        Seq::empty()
    } else {
        own_errors(table, t) + glue_errors_list(table, t, pushed_children(table, t))
    }
}

/// The errors of the drop glue of the types in `cs`, the last first.
pub open spec fn glue_errors_list(table: Seq<FsaTy>, parent: int, cs: Seq<usize>) -> Seq<
    FinalizerError,
>
    decreases table.len() - parent, 0int, cs.len(),
{
    if cs.len() == 0 {
        Seq::empty()
    } else if parent < cs.last() < table.len() {
        glue_errors(table, cs.last() as int) + glue_errors_list(table, parent, cs.drop_last())
    } else {
        glue_errors_list(table, parent, cs.drop_last())
    }
}

/// The number of visits the walk makes below and at type `t`.
pub open spec fn glue_size(table: Seq<FsaTy>, t: int) -> nat
    decreases table.len() - t, 1int, 0int,
{
    if !(0 <= t < table.len()) {
        0
    } else {
        1 + glue_size_list(table, t, pushed_children(table, t))
    }
}

pub open spec fn glue_size_list(table: Seq<FsaTy>, parent: int, cs: Seq<usize>) -> nat
    decreases table.len() - parent, 0int, cs.len(),
{
    if cs.len() == 0 {
        0
    } else if parent < cs.last() < table.len() {
        glue_size(table, cs.last() as int) + glue_size_list(table, parent, cs.drop_last())
    } else {
        glue_size_list(table, parent, cs.drop_last())
    }
}

/// The errors still to be found from a work stack, the top first.
pub open spec fn stack_errors(table: Seq<FsaTy>, s: Seq<usize>) -> Seq<FinalizerError>
    decreases s.len(),
{
    if s.len() == 0 {
        Seq::empty()
    } else {
        glue_errors(table, s.last() as int) + stack_errors(table, s.drop_last())
    }
}

pub open spec fn stack_size(table: Seq<FsaTy>, s: Seq<usize>) -> nat
    decreases s.len(),
{
    if s.len() == 0 {
        0
    } else {
        glue_size(table, s.last() as int) + stack_size(table, s.drop_last())
    }
}

/// Whether the type table is fit for the analysis: components come after
/// the types they belong to, and every type named is in the table.
pub open spec fn fsa_table_wf(table: Seq<FsaTy>) -> bool {
    &&& elements_in_range(table)
    &&& forall|t: int, i: int|
        0 <= t < table.len() && 0 <= i < pushed_children(table, t).len() ==> t
            < #[trigger] pushed_children(table, t)[i] < table.len()
    &&& forall|t: int|
        0 <= t < table.len() ==> match #[trigger] table[t].kind {
            FsaTyKind::Adt { drop_method, .. } => match drop_method {
                Some(dm) => drop_method_in_range(table, dm),
                None => true,
            },
            _ => true,
        }
}

/// The errors reported for a value of type `t` handed to an entry point: none
/// when the type needs no finalizer, opts out of the check, or is `Send`,
/// `Sync` and safe in a finalizer as a whole; otherwise those of its drop
/// glue.
pub open spec fn drop_glue_errors(table: Seq<FsaTy>, t: int) -> Seq<FinalizerError> {
    let n = table[t];
    if !n.needs_finalizer || n.is_finalize_unchecked {
        Seq::empty()
    } else if n.is_send && n.is_sync && n.is_finalizer_safe {
        Seq::empty()
    } else {
        glue_errors(table, t)
    }
}

proof fn lemma_stack_push_all(table: Seq<FsaTy>, parent: int, base: Seq<usize>, cs: Seq<usize>)
    requires
        forall|i: int| 0 <= i < cs.len() ==> parent < #[trigger] cs[i] < table.len(),
    ensures
        stack_errors(table, base + cs) == glue_errors_list(table, parent, cs) + stack_errors(
            table,
            base,
        ),
        stack_size(table, base + cs) == glue_size_list(table, parent, cs) + stack_size(table, base),
    decreases cs.len(),
{
    if cs.len() == 0 {
        assert(base + cs =~= base);
    } else {
        let s = base + cs;
        assert(s.drop_last() =~= base + cs.drop_last());
        assert(s.last() == cs.last());
        lemma_stack_push_all(table, parent, base, cs.drop_last());
        assert(stack_errors(table, s) =~= glue_errors_list(table, parent, cs) + stack_errors(
            table,
            base,
        ));
    }
}

fn copy_ids(v: &Vec<usize>) -> (r: Vec<usize>)
    ensures
        r@ == v@,
{
    let mut r: Vec<usize> = Vec::new();
    let mut i: usize = 0;
    while i < v.len()
        invariant
            i <= v@.len(),
            r@ == v@.subrange(0, i as int),
        decreases v@.len() - i,
    {
        r.push(v[i]);
        i = i + 1;
        assert(r@ =~= v@.subrange(0, i as int));
    }
    assert(r@ =~= v@);
    r
}

fn push_all(stack: &mut Vec<usize>, cs: &Vec<usize>)
    ensures
        final(stack)@ == old(stack)@ + cs@,
{
    let ghost base = stack@;
    let mut i: usize = 0;
    while i < cs.len()
        invariant
            i <= cs@.len(),
            stack@ == base + cs@.subrange(0, i as int),
        decreases cs@.len() - i,
    {
        stack.push(cs[i]);
        i = i + 1;
        assert(stack@ =~= base + cs@.subrange(0, i as int));
    }
    assert(cs@.subrange(0, cs@.len() as int) =~= cs@);
}

/// Visits type `t`: returns its own errors and the components to visit.
fn visit_ty(table: &Vec<FsaTy>, t: usize) -> (r: (Vec<FinalizerError>, Vec<usize>))
    requires
        fsa_table_wf(table@),
        t < table@.len(),
    ensures
        r.0@ == own_errors(table@, t as int),
        r.1@ == pushed_children(table@, t as int),
{
    let mut own: Vec<FinalizerError> = Vec::new();
    match &table[t].kind {
        FsaTyKind::Dynamic => {
            own.push(FinalizerError::UnknownTraitObject);
            assert(own@ =~= seq![FinalizerError::UnknownTraitObject]);
            (own, Vec::new())
        },
        FsaTyKind::Slice { elem } => {
            let mut cs: Vec<usize> = Vec::new();
            cs.push(*elem);
            assert(cs@ =~= seq![*elem]);
            (own, cs)
        },
        FsaTyKind::Array { elem } => {
            let mut cs: Vec<usize> = Vec::new();
            cs.push(*elem);
            assert(cs@ =~= seq![*elem]);
            (own, cs)
        },
        FsaTyKind::Tuple { fields } => (own, copy_ids(fields)),
        FsaTyKind::Adt { is_copy, is_box, in_std_lib, drop_method, fields } => {
            if *is_copy {
                return (own, Vec::new());
            }
            if *is_box {
                own.push(FinalizerError::MissingFnDef);
            }
            let ghost boxed = own@;
            assert(boxed =~= if *is_box {
                seq![FinalizerError::MissingFnDef]
            } else {
                Seq::empty()
            });
            match drop_method {
                None => (own, copy_ids(fields)),
                Some(dm) => {
                    assert(match table@[t as int].kind {
                        FsaTyKind::Adt { drop_method, .. } => match drop_method {
                            Some(dm) => drop_method_in_range(table@, dm),
                            None => true,
                        },
                        _ => true,
                    });
                    match check_drop_method(table, dm) {
                        Ok(()) => (own, copy_ids(fields)),
                        Err(mut errs) => {
                            if *in_std_lib {
                                own.push(FinalizerError::UnsoundExternalDropGlue(dm.span));
                                (own, Vec::new())
                            } else {
                                own.append(&mut errs);
                                (own, copy_ids(fields))
                            }
                        },
                    }
                },
            }
        },
        _ => (own, Vec::new()),
    }
}

/// The drop-glue check for a value of type `arg_ty` handed to an entry
/// point: returns every error found, in the order a depth-first walk of the
/// drop glue with a work stack finds them.
pub fn check_drop_glue(table: &Vec<FsaTy>, arg_ty: usize) -> (r: Vec<FinalizerError>)
    requires
        fsa_table_wf(table@),
        arg_ty < table@.len(),
    ensures
        r@ == drop_glue_errors(table@, arg_ty as int),
{
    let root = &table[arg_ty];
    if !root.needs_finalizer || root.is_finalize_unchecked {
        return Vec::new();
    }
    if root.is_send && root.is_sync && root.is_finalizer_safe {
        return Vec::new();
    }
    let mut errors: Vec<FinalizerError> = Vec::new();
    let mut tys: Vec<usize> = Vec::new();
    tys.push(arg_ty);
    proof {
        assert(tys@.drop_last() =~= Seq::<usize>::empty());
        assert(tys@.last() == arg_ty);
        assert(stack_errors(table@, tys@.drop_last()) =~= Seq::<FinalizerError>::empty());
        assert(stack_errors(table@, tys@) =~= glue_errors(table@, arg_ty as int));
    }
    while tys.len() > 0
        invariant
            fsa_table_wf(table@),
            forall|i: int| 0 <= i < tys@.len() ==> #[trigger] tys@[i] < table@.len(),
            errors@ + stack_errors(table@, tys@) == glue_errors(table@, arg_ty as int),
        decreases stack_size(table@, tys@),
    {
        let ghost before = tys@;
        let t = tys.pop().unwrap();
        assert(tys@ == before.drop_last());
        let (mut own, children) = visit_ty(table, t);
        proof {
            assert forall|i: int| 0 <= i < children@.len() implies (t as int) < #[trigger] children@[i]
                < table@.len() by {
                assert(t < pushed_children(table@, t as int)[i] < table@.len());
            }
            lemma_stack_push_all(table@, t as int, tys@, children@);
        }
        let ghost e0 = errors@;
        errors.append(&mut own);
        push_all(&mut tys, &children);
        proof {
            assert(errors@ + stack_errors(table@, tys@) =~= e0 + stack_errors(table@, before));
        }
    }
    errors
}

/// A location gets at most one projection error: the locations recorded
/// with errors while checking a drop method are all distinct.
pub proof fn lemma_one_error_per_location(
    table: Seq<FsaTy>,
    args: Seq<usize>,
    events: Seq<DropEvent>,
    n: int,
)
    ensures
        scan_run(table, args, events, n).locations.no_duplicates(),
    decreases n,
{
    if n > 0 {
        lemma_one_error_per_location(table, args, events, n - 1);
        let st = scan_run(table, args, events, n - 1);
        let next = scan_run(table, args, events, n);
        match events[n - 1] {
            DropEvent::Projection { location, .. } => {
                if next.locations != st.locations {
                    assert(!st.locations.contains(location));
                    assert(next.locations == st.locations.push(location));
                    assert forall|i: int, j: int|
                        0 <= i < next.locations.len() && 0 <= j < next.locations.len() && i != j
                            implies next.locations[i] != next.locations[j] by {
                        if i == st.locations.len() as int {
                            assert(next.locations[j] == st.locations[j]);
                        } else if j == st.locations.len() as int {
                            assert(next.locations[i] == st.locations[i]);
                        }
                    }
                }
            },
            _ => {},
        }
    }
}

/// A value whose type needs no finalizer, or that opts out of the check, or
/// whose type is `Send`, `Sync` and safe in a finalizer as a whole, is never
/// refused.
pub proof fn lemma_safe_values_accepted(table: Seq<FsaTy>, t: int)
    requires
        0 <= t < table.len(),
        !table[t].needs_finalizer || table[t].is_finalize_unchecked || (table[t].is_send
            && table[t].is_sync && table[t].is_finalizer_safe),
    ensures
        drop_glue_errors(table, t).len() == 0,
{
}

proof fn lemma_glue_list_contains(
    table: Seq<FsaTy>,
    parent: int,
    cs: Seq<usize>,
    i: int,
    e: FinalizerError,
)
    requires
        forall|k: int| 0 <= k < cs.len() ==> parent < #[trigger] cs[k] < table.len(),
        0 <= i < cs.len(),
        glue_errors(table, cs[i] as int).contains(e),
    ensures
        glue_errors_list(table, parent, cs).contains(e),
    decreases cs.len(),
{
    let last = glue_errors(table, cs.last() as int);
    let rest = glue_errors_list(table, parent, cs.drop_last());
    assert(glue_errors_list(table, parent, cs) == last + rest);
    if i == cs.len() - 1 {
        let idx = choose|j: int| 0 <= j < last.len() && last[j] == e;
        assert((last + rest)[idx] == e);
    } else {
        assert(cs.drop_last()[i] == cs[i]);
        lemma_glue_list_contains(table, parent, cs.drop_last(), i, e);
        let idx = choose|j: int| 0 <= j < rest.len() && rest[j] == e;
        assert((last + rest)[last.len() + idx] == e);
    }
}

/// Every error in the drop glue of a component that the walk visits is an
/// error of the whole type: a type is refused whenever one of its visited
/// components is.
pub proof fn lemma_component_errors_reported(table: Seq<FsaTy>, t: int, i: int, e: FinalizerError)
    requires
        fsa_table_wf(table),
        0 <= t < table.len(),
        0 <= i < pushed_children(table, t).len(),
        glue_errors(table, pushed_children(table, t)[i] as int).contains(e),
    ensures
        glue_errors(table, t).contains(e),
{
    let cs = pushed_children(table, t);
    assert forall|k: int| 0 <= k < cs.len() implies t < #[trigger] cs[k] < table.len() by {}
    lemma_glue_list_contains(table, t, cs, i, e);
    let own = own_errors(table, t);
    let rest = glue_errors_list(table, t, cs);
    let idx = choose|j: int| 0 <= j < rest.len() && rest[j] == e;
    assert(glue_errors(table, t) == own + rest);
    assert((own + rest)[own.len() + idx] == e);
}

/// The scan only ever adds: the errors and error locations after `m` events
/// begin those after any later number `n` of events.
pub proof fn lemma_scan_only_adds(
    table: Seq<FsaTy>,
    args: Seq<usize>,
    events: Seq<DropEvent>,
    m: int,
    n: int,
)
    requires
        0 <= m <= n,
    ensures
        scan_run(table, args, events, m).errors.len() <= scan_run(table, args, events, n).errors.len(),
        scan_run(table, args, events, m).errors == scan_run(table, args, events, n).errors.subrange(
            0,
            scan_run(table, args, events, m).errors.len() as int,
        ),
        scan_run(table, args, events, m).locations.len() <= scan_run(
            table,
            args,
            events,
            n,
        ).locations.len(),
        scan_run(table, args, events, m).locations == scan_run(
            table,
            args,
            events,
            n,
        ).locations.subrange(0, scan_run(table, args, events, m).locations.len() as int),
    decreases n - m,
{
    if m < n {
        lemma_scan_only_adds(table, args, events, m, n - 1);
        let a = scan_run(table, args, events, m);
        let b = scan_run(table, args, events, n - 1);
        let c = scan_run(table, args, events, n);
        assert(b.errors.len() <= c.errors.len());
        assert(b.errors =~= c.errors.subrange(0, b.errors.len() as int));
        assert(b.locations =~= c.locations.subrange(0, b.locations.len() as int));
        assert(a.errors =~= c.errors.subrange(0, a.errors.len() as int));
        assert(a.locations =~= c.locations.subrange(0, a.locations.len() as int));
    }
}

/// The first projection error at a location wins: once a location has an
/// error, a later projection at the same location adds nothing.
pub proof fn lemma_first_error_wins(
    table: Seq<FsaTy>,
    args: Seq<usize>,
    events: Seq<DropEvent>,
    m: int,
    n: int,
    location: Location,
)
    requires
        0 <= m <= n < events.len(),
        scan_run(table, args, events, m).locations.contains(location),
        events[n] matches DropEvent::Projection { location: l, .. } && l == location,
    ensures
        scan_run(table, args, events, n + 1) == scan_run(table, args, events, n),
{
    lemma_scan_only_adds(table, args, events, m, n);
    let a = scan_run(table, args, events, m).locations;
    let b = scan_run(table, args, events, n).locations;
    let idx = choose|j: int| 0 <= j < a.len() && a[j] == location;
    assert(b[idx] == a[idx]);
    assert(b.contains(location));
}

/// Reading a value in a finalizer requires its type to be both `Send` and
/// `Sync`: a value that lacks either is refused with a not-`Send`-and-`Sync`
/// error at the span of the read, before any other check on it.
pub proof fn lemma_unshared_value_refused(table: Seq<FsaTy>, t: usize, span: u64)
    requires
        !table[t as int].is_send || !table[t as int].is_sync,
    ensures
        violation(table, t, span) == Some(FinalizerError::NotSendAndSync(span)),
{
}

/// A projection whose first step reads a field of a type that is not both
/// `Send` and `Sync` reports the not-`Send`-and-`Sync` error at its span.
pub proof fn lemma_unshared_field_projection(
    table: Seq<FsaTy>,
    elems: Seq<ProjElem>,
    span: u64,
    t: usize,
)
    requires
        elems.len() > 0,
        elems[0] == (ProjElem::Field { ty: t }),
        !table[t as int].is_send || !table[t as int].is_sync,
    ensures
        projection_error(table, elems, span, 0) == Some(FinalizerError::NotSendAndSync(span)),
{
}

/// A drop method that, at a location without an earlier error, reads a field
/// of a type that is not both `Send` and `Sync` is refused: its errors
/// include the not-`Send`-and-`Sync` error at the span of that read.
pub proof fn lemma_unshared_read_refuses_drop_method(
    table: Seq<FsaTy>,
    dm: DropMethod,
    k: int,
    t: usize,
)
    requires
        0 <= k < dm.events@.len(),
        dm.events@[k] matches DropEvent::Projection { location, elems, .. } && elems@.len() > 0
            && elems@[0] == (ProjElem::Field { ty: t }) && !scan_run(
            table,
            dm.args@,
            dm.events@,
            k,
        ).locations.contains(location),
        !table[t as int].is_send || !table[t as int].is_sync,
    ensures
        dm.events@[k] matches DropEvent::Projection { span, .. } && drop_method_errors(
            table,
            dm,
        ).contains(FinalizerError::NotSendAndSync(span)),
{
    let args = dm.args@;
    let events = dm.events@;
    match events[k] {
        DropEvent::Projection { location, span, elems } => {
            lemma_unshared_field_projection(table, elems@, span, t);
            let before = scan_run(table, args, events, k);
            let after = scan_run(table, args, events, k + 1);
            assert(after == error_pushed(before, location, FinalizerError::NotSendAndSync(span)));
            assert(after.errors == before.errors.push(FinalizerError::NotSendAndSync(span)));
            lemma_scan_only_adds(table, args, events, k + 1, events.len() as int);
            let all = scan_run(table, args, events, events.len() as int).errors;
            assert(all[before.errors.len() as int] == after.errors[before.errors.len() as int]);
        },
        _ => {},
    }
}

proof fn lemma_glue_list_reaches(
    table: Seq<FsaTy>,
    parent: int,
    cs: Seq<usize>,
    i: int,
    e: FinalizerError,
)
    requires
        0 <= i < cs.len(),
        parent < cs[i] < table.len(),
        glue_errors(table, cs[i] as int).contains(e),
    ensures
        glue_errors_list(table, parent, cs).contains(e),
    decreases cs.len(),
{
    let rest = glue_errors_list(table, parent, cs.drop_last());
    if i == cs.len() - 1 {
        let last = glue_errors(table, cs.last() as int);
        assert(glue_errors_list(table, parent, cs) == last + rest);
        let idx = choose|j: int| 0 <= j < last.len() && last[j] == e;
        assert((last + rest)[idx] == e);
    } else {
        assert(cs.drop_last()[i] == cs[i]);
        lemma_glue_list_reaches(table, parent, cs.drop_last(), i, e);
        let idx = choose|j: int| 0 <= j < rest.len() && rest[j] == e;
        if parent < cs.last() < table.len() {
            let last = glue_errors(table, cs.last() as int);
            assert(glue_errors_list(table, parent, cs) == last + rest);
            assert((last + rest)[last.len() + idx] == e);
        } else {
            assert(glue_errors_list(table, parent, cs) == rest);
        }
    }
}

/// The drop glue of a struct, enum or union that is not `Copy` includes the
/// drop glue of every one of its fields, whether or not it has a drop method
/// of its own and whether or not that method passes; the one exception is a
/// standard library type whose drop method fails, whose fields are not
/// looked into. So every error of a field's drop glue is an error of the
/// whole type.
pub proof fn lemma_field_glue_reported(table: Seq<FsaTy>, t: int, i: int, e: FinalizerError)
    requires
        0 <= t < table.len(),
        table[t].kind matches FsaTyKind::Adt { is_copy, in_std_lib, drop_method, fields, .. } && !is_copy
            && 0 <= i < fields@.len() && t < fields@[i] < table.len() && glue_errors(
            table,
            fields@[i] as int,
        ).contains(e) && (in_std_lib ==> match drop_method {
            Some(dm) => drop_method_errors(table, dm).len() == 0,
            None => true,
        }),
    ensures
        glue_errors(table, t).contains(e),
{
    match table[t].kind {
        FsaTyKind::Adt { fields, .. } => {
            let cs = pushed_children(table, t);
            assert(cs == fields@);
            lemma_glue_list_reaches(table, t, cs, i, e);
            let own = own_errors(table, t);
            let rest = glue_errors_list(table, t, cs);
            let idx = choose|j: int| 0 <= j < rest.len() && rest[j] == e;
            assert(glue_errors(table, t) == own + rest);
            assert((own + rest)[own.len() + idx] == e);
        },
        _ => {},
    }
}

/// A value whose type is `Send` and `Sync` is still refused when it is a
/// reference (its referent may be gone) or when its type is not safe to use
/// in a finalizer; otherwise reading it is accepted.
pub proof fn lemma_shared_value_checks(table: Seq<FsaTy>, t: usize, span: u64)
    requires
        table[t as int].is_send,
        table[t as int].is_sync,
    ensures
        table[t as int].kind is Ref ==> violation(table, t, span) == Some(
            FinalizerError::UnsoundReference(t, span),
        ),
        !(table[t as int].kind is Ref) && !table[t as int].is_finalizer_safe ==> violation(
            table,
            t,
            span,
        ) == Some(FinalizerError::NotFinalizerSafe(t, span)),
        !(table[t as int].kind is Ref) && table[t as int].is_finalizer_safe ==> violation(
            table,
            t,
            span,
        ) is None,
{
}

/// A projection reports an error exactly when one of the types its steps
/// read is refused; the error it reports is that of the first such step.
pub proof fn lemma_projection_reports_first_refused_step(
    table: Seq<FsaTy>,
    elems: Seq<ProjElem>,
    span: u64,
    i: int,
)
    requires
        0 <= i,
    ensures
        projection_error(table, elems, span, i) is None <==> forall|j: int|
            i <= j < elems.len() ==> match #[trigger] extracted_ty(table, elems[j]) {
                Some(t) => violation(table, t, span) is None,
                None => true,
            },
        projection_error(table, elems, span, i) matches Some(e) ==> exists|j: int|
            i <= j < elems.len() && (#[trigger] extracted_ty(table, elems[j]) matches Some(t)
                && violation(table, t, span) == Some(e)),
    decreases elems.len() - i,
{
    if i < elems.len() {
        lemma_projection_reports_first_refused_step(table, elems, span, i + 1);
        match extracted_ty(table, elems[i]) {
            Some(t) => {
                if violation(table, t, span) is None {
                    assert forall|j: int|
                        i <= j < elems.len() && (forall|k: int|
                            i + 1 <= k < elems.len() ==> match #[trigger] extracted_ty(
                                table,
                                elems[k],
                            ) {
                                Some(t) => violation(table, t, span) is None,
                                None => true,
                            }) implies match #[trigger] extracted_ty(table, elems[j]) {
                        Some(t) => violation(table, t, span) is None,
                        None => true,
                    } by {
                        if j > i {
                            assert(i + 1 <= j < elems.len());
                        }
                    }
                }
            },
            None => {
                assert forall|j: int|
                    i <= j < elems.len() && (forall|k: int|
                        i + 1 <= k < elems.len() ==> match #[trigger] extracted_ty(table, elems[k]) {
                            Some(t) => violation(table, t, span) is None,
                            None => true,
                        }) implies match #[trigger] extracted_ty(table, elems[j]) {
                    Some(t) => violation(table, t, span) is None,
                    None => true,
                } by {
                    if j > i {
                        assert(i + 1 <= j < elems.len());
                    }
                }
            },
        }
    }
}

/// Every component of a tuple, array or slice is part of its drop glue:
/// every error of a component's drop glue is an error of the whole type.
pub proof fn lemma_component_glue_reported(table: Seq<FsaTy>, t: int, i: int, e: FinalizerError)
    requires
        0 <= t < table.len(),
        match table[t].kind {
            FsaTyKind::Tuple { fields } => 0 <= i < fields@.len() && t < fields@[i] < table.len()
                && glue_errors(table, fields@[i] as int).contains(e),
            FsaTyKind::Array { elem } => i == 0 && t < elem < table.len() && glue_errors(
                table,
                elem as int,
            ).contains(e),
            FsaTyKind::Slice { elem } => i == 0 && t < elem < table.len() && glue_errors(
                table,
                elem as int,
            ).contains(e),
            _ => false,
        },
    ensures
        glue_errors(table, t).contains(e),
{
    let cs = pushed_children(table, t);
    match table[t].kind {
        FsaTyKind::Tuple { fields } => {
            assert(cs == fields@);
        },
        FsaTyKind::Array { elem } => {
            assert(cs[0] == elem);
        },
        FsaTyKind::Slice { elem } => {
            assert(cs[0] == elem);
        },
        _ => {},
    }
    lemma_glue_list_reaches(table, t, cs, i, e);
    let own = own_errors(table, t);
    let rest = glue_errors_list(table, t, cs);
    let idx = choose|j: int| 0 <= j < rest.len() && rest[j] == e;
    assert(glue_errors(table, t) == own + rest);
    assert((own + rest)[own.len() + idx] == e);
}

/// Dropping a trait object is always refused, since its drop method cannot
/// be known; a box is always reported, since its drop glue is filled in
/// later by the compiler.
pub proof fn lemma_unknown_drop_glue_reported(table: Seq<FsaTy>, t: int)
    requires
        0 <= t < table.len(),
    ensures
        table[t].kind is Dynamic ==> glue_errors(table, t).contains(
            FinalizerError::UnknownTraitObject,
        ),
        table[t].kind matches FsaTyKind::Adt { is_copy, is_box, .. } && !is_copy && is_box
            ==> glue_errors(table, t).contains(FinalizerError::MissingFnDef),
{
    let own = own_errors(table, t);
    let rest = glue_errors_list(table, t, pushed_children(table, t));
    assert(glue_errors(table, t) == own + rest);
    if own.len() > 0 {
        assert((own + rest)[0] == own[0]);
    }
}

} // verus!
