//! Finds the entry points of the finalizer safety analysis in a function
//! body, checks the value each one is given, and words the errors.

use vstd::prelude::*;
use crate::finalizer_safety::{FinalizerError, FsaTy, check_drop_glue, drop_glue_errors, fsa_table_wf};

verus! {

/// What a call in the body calls.
#[derive(Clone, Copy, Debug, PartialEq, Eq, Structural)]
pub enum Callee {
    /// A known function. `in_std_lib`: it is defined in the standard library;
    /// `returns_gc`: its return type is the collected pointer type;
    /// `is_fsa_entry_point`: the instance the call resolves to is marked as
    /// an entry point of the analysis.
    FnDef { in_std_lib: bool, returns_gc: bool, is_fsa_entry_point: bool },
    /// A function pointer.
    FnPtr,
}

#[derive(Clone, Copy, Debug, PartialEq, Eq, Structural)]
pub struct CallArg {
    pub ty: usize,
    pub span: u64,
}

/// A call terminator of the body being checked.
#[derive(Clone, Debug)]
pub struct CallSite {
    pub callee: Callee,
    pub fn_span: u64,
    pub args: Vec<CallArg>,
}

/// One error to report, with the entry point it belongs to.
#[derive(Clone, Copy, Debug, PartialEq, Eq, Structural)]
pub struct ReportedError {
    pub fn_span: u64,
    pub arg_span: u64,
    pub error: FinalizerError,
}

/// Whether the call is an entry point of the analysis.
pub open spec fn is_entry_point(c: CallSite) -> bool {
    c.callee matches Callee::FnDef { in_std_lib, returns_gc, is_fsa_entry_point } && in_std_lib
        && returns_gc && is_fsa_entry_point
}

/// The errors reported for one call.
pub open spec fn call_reports(table: Seq<FsaTy>, c: CallSite) -> Seq<ReportedError> {
    if is_entry_point(c) {
        drop_glue_errors(table, c.args@[0].ty as int).map_values(
            |e: FinalizerError|
                ReportedError { fn_span: c.fn_span, arg_span: c.args@[0].span, error: e },
        )
    } else {
        Seq::empty()
    }
}

/// The errors reported for the first `n` calls, in order.
pub open spec fn calls_reports(table: Seq<FsaTy>, calls: Seq<CallSite>, n: int) -> Seq<ReportedError>
    decreases n,
{
    if n <= 0 {
        Seq::empty()
    } else {
        calls_reports(table, calls, n - 1) + call_reports(table, calls[n - 1])
    }
}

/// Whether every entry point among the calls has exactly one argument, of a
/// type in the table.
pub open spec fn entry_points_well_formed(table: Seq<FsaTy>, calls: Seq<CallSite>) -> bool {
    forall|i: int|
        0 <= i < calls.len() && is_entry_point(#[trigger] calls[i]) ==> calls[i].args@.len() == 1
            && calls[i].args@[0].ty < table.len()
}

/// The errors of the finalizer safety analysis for one function body: none
/// for a body of the standard library; otherwise, for each call that is an
/// entry point, the errors of the drop glue of its argument's type.
pub open spec fn body_reports(table: Seq<FsaTy>, body_in_std_lib: bool, calls: Seq<CallSite>) -> Seq<
    ReportedError,
> {
    if body_in_std_lib {
        Seq::empty()
    } else {
        calls_reports(table, calls, calls.len() as int)
    }
}

/// The pass that runs the finalizer safety analysis.
#[derive(Clone, Copy, Debug, PartialEq, Eq, Structural)]
pub struct CheckFinalizers;

impl CheckFinalizers {
    /// Runs the finalizer safety analysis on the calls of one function body
    /// and returns the errors to report, in order.
    pub fn run_pass(&self, table: &Vec<FsaTy>, body_in_std_lib: bool, calls: &Vec<CallSite>) -> (r: Vec<
        ReportedError,
    >)
        requires
            fsa_table_wf(table@),
            entry_points_well_formed(table@, calls@),
        ensures
            r@ == body_reports(table@, body_in_std_lib, calls@),
    {
        check_finalizers(table, body_in_std_lib, calls)
    }
}

fn check_finalizers(table: &Vec<FsaTy>, body_in_std_lib: bool, calls: &Vec<CallSite>) -> (r: Vec<
    ReportedError,
>)
    requires
        fsa_table_wf(table@),
        entry_points_well_formed(table@, calls@),
    ensures
        r@ == body_reports(table@, body_in_std_lib, calls@),
{
    let mut out: Vec<ReportedError> = Vec::new();
    if body_in_std_lib {
        return out;
    }
    let mut i: usize = 0;
    while i < calls.len()
        invariant
            i <= calls@.len(),
            fsa_table_wf(table@),
            entry_points_well_formed(table@, calls@),
            out@ == calls_reports(table@, calls@, i as int),
        decreases calls@.len() - i,
    {
        let c = &calls[i];
        let entry = match c.callee {
            Callee::FnDef { in_std_lib, returns_gc, is_fsa_entry_point } => in_std_lib && returns_gc
                && is_fsa_entry_point,
            Callee::FnPtr => false,
        };
        if entry {
            assert(is_entry_point(calls@[i as int]));
            let arg = c.args[0];
            let errs = check_drop_glue(table, arg.ty);
            let ghost base = out@;
            let mut j: usize = 0;
            while j < errs.len()
                invariant
                    j <= errs@.len(),
                    out@ == base + errs@.subrange(0, j as int).map_values(
                        |e: FinalizerError|
                            ReportedError { fn_span: c.fn_span, arg_span: arg.span, error: e },
                    ),
                decreases errs@.len() - j,
            {
                out.push(ReportedError { fn_span: c.fn_span, arg_span: arg.span, error: errs[j] });
                j = j + 1;
                assert(out@ =~= base + errs@.subrange(0, j as int).map_values(
                    |e: FinalizerError|
                        ReportedError { fn_span: c.fn_span, arg_span: arg.span, error: e },
                ));
            }
            assert(errs@.subrange(0, errs@.len() as int) =~= errs@);
            assert(out@ =~= calls_reports(table@, calls@, i + 1));
        } else {
            assert(out@ =~= calls_reports(table@, calls@, i + 1));
        }
        i = i + 1;
    }
    out
}

// ---------------------------------------------------------------------------
// Wording of the errors
// ---------------------------------------------------------------------------
pub struct Label {
    pub span: u64,
    pub text: String,
}

/// An error message for the user: the span it points at, its message, the
/// labels it attaches to spans, and an optional help text.
pub struct Diagnostic {
    pub span: u64,
    pub message: String,
    pub labels: Vec<Label>,
    pub help: Option<String>,
}

pub struct DiagnosticView {
    pub span: u64,
    pub message: Seq<char>,
    pub labels: Seq<(u64, Seq<char>)>,
    pub help: Option<Seq<char>>,
}

impl View for Diagnostic {
    type V = DiagnosticView;

    open spec fn view(&self) -> DiagnosticView {
        DiagnosticView {
            span: self.span,
            message: self.message@,
            labels: self.labels@.map_values(|l: Label| (l.span, l.text@)),
            help: match self.help {
                Some(h) => Some(h@),
                None => None,
            },
        }
    }
}

/// The message of every finalizer error; `snippet` is the source text of the
/// value handed to the entry point.
pub open spec fn headline(snippet: Seq<char>) -> Seq<char> {
    "`"@ + snippet + "` has a drop method which cannot be safely finalized."@
}

/// The labels and help of an error. `ty_name` is the printed form of the type
/// the error names, and `ty_is_gc` whether it is the collected pointer type.
pub open spec fn error_details(
    error: FinalizerError,
    ty_name: Seq<char>,
    ty_is_gc: bool,
    arg_span: u64,
    fn_span: u64,
) -> (Seq<(u64, Seq<char>)>, Option<Seq<char>>) {
    match error {
        FinalizerError::NotSendAndSync(span) => (
            seq![
                (span, "caused by the expression in `fn drop(&mut)` here because"@),
                (span, "it uses a type which is not safe to use in a finalizer."@),
            ],
            Some(
                "`Gc` runs finalizers on a separate thread, so drop methods\nmust only use values whose types implement `Send` + `Sync`."@,
            ),
        ),
        FinalizerError::NotFinalizerSafe(_, span) => if ty_is_gc {
            (
                seq![
                    (span, "caused by the expression here in `fn drop(&mut)` because"@),
                    (span, "it uses another `Gc` type."@),
                    (
                        fn_span,
                        "Finalizers cannot safely dereference other `Gc`s, because they might have already been finalised."@,
                    ),
                ],
                None,
            )
        } else {
            (
                seq![
                    (span, "caused by the expression in `fn drop(&mut)` here because"@),
                    (span, "it uses a type which is not safe to use in a finalizer."@),
                    (
                        fn_span,
                        "`Gc::new` requires that "@ + ty_name
                            + " implements the `FinalizeSafe` trait."@,
                    ),
                ],
                Some(
                    "`Gc` runs finalizers on a separate thread, so drop methods\nmust only use values whose types implement `FinalizerSafe`."@,
                ),
            )
        },
        FinalizerError::UnsoundReference(_, span) => (
            seq![
                (span, "caused by the expression here in `fn drop(&mut)` because"@),
                (
                    span,
                    "it is a reference ("@ + ty_name + ") which is not safe to use in a finalizer."@,
                ),
            ],
            Some("`Gc` may run finalizers after the valid lifetime of this reference."@),
        ),
        FinalizerError::MissingFnDef => (
            seq![(arg_span, "contains a function call which may be unsafe."@)],
            None,
        ),
        FinalizerError::UnknownTraitObject => (
            seq![(arg_span, "contains a trait object whose implementation is unknown."@)],
            None,
        ),
        FinalizerError::UnsoundExternalDropGlue(span) => (
            seq![(span, "is not safe to be run as a finalizer"@)],
            None,
        ),
    }
}

/// The diagnostic for a reported error.
pub open spec fn diagnostic_for(
    report: ReportedError,
    snippet: Seq<char>,
    ty_name: Seq<char>,
    ty_is_gc: bool,
) -> DiagnosticView {
    let (labels, help) = error_details(
        report.error,
        ty_name,
        ty_is_gc,
        report.arg_span,
        report.fn_span,
    );
    DiagnosticView { span: report.arg_span, message: headline(snippet), labels, help }
}

fn text(parts_a: &str, middle: &str, parts_b: &str) -> (s: String)
    ensures
        s@ == parts_a@ + middle@ + parts_b@,
{
    let mut s = String::from_str(parts_a);
    s.append(middle);
    s.append(parts_b);
    s
}

fn label(labels: &mut Vec<Label>, span: u64, t: &str)
    ensures
        final(labels)@.len() == old(labels)@.len() + 1,
        forall|i: int| 0 <= i < old(labels)@.len() ==> #[trigger] final(labels)@[i] == old(labels)@[i],
        final(labels)@.last().span == span,
        final(labels)@.last().text@ == t@,
{
    labels.push(Label { span, text: String::from_str(t) });
}

/// Words a reported error. `snippet` is the source text of the value handed
/// to the entry point; `ty_name` the printed form of the type the error
/// names, if any; `ty_is_gc` whether that type is the collected pointer type.
pub fn finalizer_diagnostic(report: ReportedError, snippet: &str, ty_name: &str, ty_is_gc: bool) -> (d:
    Diagnostic)
    ensures
        d@ == diagnostic_for(report, snippet@, ty_name@, ty_is_gc),
{
    let message = text("`", snippet, "` has a drop method which cannot be safely finalized.");
    let mut labels: Vec<Label> = Vec::new();
    let help: Option<String>;
    match report.error {
        FinalizerError::NotSendAndSync(span) => {
            label(&mut labels, span, "caused by the expression in `fn drop(&mut)` here because");
            label(&mut labels, span, "it uses a type which is not safe to use in a finalizer.");
            help = Some(
                String::from_str(
                    "`Gc` runs finalizers on a separate thread, so drop methods\nmust only use values whose types implement `Send` + `Sync`.",
                ),
            );
        },
        FinalizerError::NotFinalizerSafe(_, span) => {
            if ty_is_gc {
                label(&mut labels, span, "caused by the expression here in `fn drop(&mut)` because");
                label(&mut labels, span, "it uses another `Gc` type.");
                label(
                    &mut labels,
                    report.fn_span,
                    "Finalizers cannot safely dereference other `Gc`s, because they might have already been finalised.",
                );
                help = None;
            } else {
                label(&mut labels, span, "caused by the expression in `fn drop(&mut)` here because");
                label(&mut labels, span, "it uses a type which is not safe to use in a finalizer.");
                labels.push(
                    Label {
                        span: report.fn_span,
                        text: text(
                            "`Gc::new` requires that ",
                            ty_name,
                            " implements the `FinalizeSafe` trait.",
                        ),
                    },
                );
                help = Some(
                    String::from_str(
                        "`Gc` runs finalizers on a separate thread, so drop methods\nmust only use values whose types implement `FinalizerSafe`.",
                    ),
                );
            }
        },
        FinalizerError::UnsoundReference(_, span) => {
            label(&mut labels, span, "caused by the expression here in `fn drop(&mut)` because");
            labels.push(
                Label {
                    span,
                    text: text(
                        "it is a reference (",
                        ty_name,
                        ") which is not safe to use in a finalizer.",
                    ),
                },
            );
            help = Some(
                String::from_str(
                    "`Gc` may run finalizers after the valid lifetime of this reference.",
                ),
            );
        },
        FinalizerError::MissingFnDef => {
            label(&mut labels, report.arg_span, "contains a function call which may be unsafe.");
            help = None;
        },
        FinalizerError::UnknownTraitObject => {
            label(
                &mut labels,
                report.arg_span,
                "contains a trait object whose implementation is unknown.",
            );
            help = None;
        },
        FinalizerError::UnsoundExternalDropGlue(span) => {
            label(&mut labels, span, "is not safe to be run as a finalizer");
            help = None;
        },
    }
    let d = Diagnostic { span: report.arg_span, message, labels, help };
    assert(d@.labels =~= diagnostic_for(report, snippet@, ty_name@, ty_is_gc).labels);
    d
}

} // verus!
