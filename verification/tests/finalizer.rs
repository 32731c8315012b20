use alloy_gc::finalizer_check::{finalizer_diagnostic, CheckFinalizers, CallArg, CallSite, Callee, ReportedError};
use alloy_gc::finalizer_safety::{
    check_drop_glue, check_drop_method, push_error, DropEvent, DropMethod, FinalizerError, FsaTy, FsaTyKind,
    Location, ProjElem,
};

fn ty(kind: FsaTyKind, send_sync: bool, finalizer_safe: bool) -> FsaTy {
    FsaTy {
        kind,
        is_send: send_sync,
        is_sync: send_sync,
        is_finalizer_safe: finalizer_safe,
        needs_finalizer: true,
        is_finalize_unchecked: false,
        is_gc: false,
    }
}
fn adt(drop_method: Option<DropMethod>, fields: Vec<usize>) -> FsaTyKind {
    FsaTyKind::Adt { is_copy: false, is_box: false, in_std_lib: false, drop_method, fields }
}
fn at(block: usize, statement: usize) -> Location {
    Location { block, statement }
}

// struct Holder(Rc<u8>) with a drop method that reads its field: the field's
// type is not Send and Sync.
fn holder_table() -> Vec<FsaTy> {
    let drop = DropMethod {
        span: 40,
        args: vec![2],
        events: vec![DropEvent::Projection {
            location: at(0, 1),
            span: 41,
            elems: vec![ProjElem::Field { ty: 1 }],
        }],
    };
    vec![
        ty(adt(Some(drop), vec![1]), false, false),
        ty(FsaTyKind::Other, false, true),
        ty(FsaTyKind::Ref, true, true),
    ]
}

#[test]
fn field_that_is_not_send_is_refused() {
    let table = holder_table();
    assert_eq!(check_drop_glue(&table, 0), vec![FinalizerError::NotSendAndSync(41)]);
}

#[test]
fn safe_values_are_accepted() {
    let mut table = holder_table();
    table[0].needs_finalizer = false;
    assert!(check_drop_glue(&table, 0).is_empty());
    let mut table = holder_table();
    table[0].is_finalize_unchecked = true;
    assert!(check_drop_glue(&table, 0).is_empty());
    let mut table = holder_table();
    table[0].is_send = true;
    table[0].is_sync = true;
    table[0].is_finalizer_safe = true;
    assert!(check_drop_glue(&table, 0).is_empty());
}

#[test]
fn projection_checks_in_order() {
    // A reference field, then a field of a type unsafe in finalizers, then an
    // element of an array of such values.
    let table = vec![
        ty(FsaTyKind::Ref, true, true),
        ty(FsaTyKind::Other, true, false),
        ty(FsaTyKind::Array { elem: 1 }, true, true),
        ty(FsaTyKind::Other, true, true),
    ];
    let dm = DropMethod {
        span: 0,
        args: vec![],
        events: vec![
            DropEvent::Projection { location: at(0, 0), span: 5, elems: vec![ProjElem::Field { ty: 0 }] },
            DropEvent::Projection { location: at(0, 1), span: 6, elems: vec![ProjElem::Field { ty: 1 }] },
            DropEvent::Projection {
                location: at(0, 2),
                span: 7,
                elems: vec![ProjElem::Other, ProjElem::Indexed { base: 2 }],
            },
            // A safe field and a non-array index report nothing.
            DropEvent::Projection {
                location: at(0, 3),
                span: 8,
                elems: vec![ProjElem::Field { ty: 3 }, ProjElem::Indexed { base: 3 }],
            },
        ],
    };
    assert_eq!(
        check_drop_method(&table, &dm),
        Err(vec![
            FinalizerError::UnsoundReference(0, 5),
            FinalizerError::NotFinalizerSafe(1, 6),
            FinalizerError::NotFinalizerSafe(1, 7),
        ])
    );
}

#[test]
fn one_error_per_location() {
    let table = vec![ty(FsaTyKind::Other, false, true)];
    let dm = DropMethod {
        span: 0,
        args: vec![],
        events: vec![
            DropEvent::Projection { location: at(1, 2), span: 5, elems: vec![ProjElem::Field { ty: 0 }] },
            DropEvent::Projection { location: at(1, 2), span: 6, elems: vec![ProjElem::Field { ty: 0 }] },
            DropEvent::Projection { location: at(1, 3), span: 7, elems: vec![ProjElem::Field { ty: 0 }] },
        ],
    };
    assert_eq!(
        check_drop_method(&table, &dm),
        Err(vec![FinalizerError::NotSendAndSync(5), FinalizerError::NotSendAndSync(7)])
    );
}

#[test]
fn calls_passing_the_receiver_are_refused() {
    let table = vec![ty(FsaTyKind::Ref, true, true), ty(FsaTyKind::Other, true, true)];
    let dm = DropMethod {
        span: 0,
        args: vec![0],
        events: vec![
            DropEvent::Call { arg_tys: vec![0, 1, 0], callee_visible: true },
            DropEvent::Call { arg_tys: vec![1], callee_visible: true },
        ],
    };
    assert_eq!(
        check_drop_method(&table, &dm),
        Err(vec![FinalizerError::MissingFnDef, FinalizerError::MissingFnDef])
    );
    let ok = DropMethod { span: 0, args: vec![0], events: vec![DropEvent::Call { arg_tys: vec![1], callee_visible: true }] };
    assert_eq!(check_drop_method(&table, &ok), Ok(()));
}

#[test]
fn drop_glue_walk_order() {
    // (Box<dyn Trait>, Vec-like std type with failing drop, [Dyn; 2])
    let failing = DropMethod {
        span: 90,
        args: vec![],
        events: vec![DropEvent::Projection { location: at(0, 0), span: 91, elems: vec![ProjElem::Field { ty: 5 }] }],
    };
    let table = vec![
        ty(FsaTyKind::Tuple { fields: vec![1, 3, 4] }, false, false),
        ty(FsaTyKind::Adt { is_copy: false, is_box: true, in_std_lib: true, drop_method: None, fields: vec![2] }, false, false),
        ty(FsaTyKind::Dynamic, false, false),
        ty(FsaTyKind::Adt { is_copy: false, is_box: false, in_std_lib: true, drop_method: Some(failing), fields: vec![5] }, false, false),
        ty(FsaTyKind::Array { elem: 5 }, false, false),
        ty(FsaTyKind::Dynamic, false, false),
    ];
    // The tuple's components are visited last first: the array (its dynamic
    // element), the std type (its fields skipped), then the box and its
    // dynamic contents.
    assert_eq!(
        check_drop_glue(&table, 0),
        vec![
            FinalizerError::UnknownTraitObject,
            FinalizerError::UnsoundExternalDropGlue(90),
            FinalizerError::MissingFnDef,
            FinalizerError::UnknownTraitObject,
        ]
    );
}

#[test]
fn copy_types_are_not_looked_into() {
    let table = vec![
        ty(FsaTyKind::Adt { is_copy: true, is_box: true, in_std_lib: false, drop_method: None, fields: vec![1] }, false, false),
        ty(FsaTyKind::Dynamic, false, false),
    ];
    assert!(check_drop_glue(&table, 0).is_empty());
}

fn entry(arg_ty: usize, arg_span: u64) -> CallSite {
    CallSite {
        callee: Callee::FnDef { in_std_lib: true, returns_gc: true, is_fsa_entry_point: true },
        fn_span: 1000 + arg_span,
        args: vec![CallArg { ty: arg_ty, span: arg_span }],
    }
}

#[test]
fn entry_points_are_checked() {
    let table = holder_table();
    let calls = vec![
        CallSite { callee: Callee::FnPtr, fn_span: 1, args: vec![] },
        entry(0, 10),
        CallSite {
            callee: Callee::FnDef { in_std_lib: false, returns_gc: true, is_fsa_entry_point: true },
            fn_span: 2,
            args: vec![CallArg { ty: 0, span: 3 }],
        },
        CallSite {
            callee: Callee::FnDef { in_std_lib: true, returns_gc: true, is_fsa_entry_point: false },
            fn_span: 2,
            args: vec![CallArg { ty: 0, span: 3 }],
        },
        entry(1, 20),
    ];
    assert_eq!(
        CheckFinalizers.run_pass(&table, false, &calls),
        vec![ReportedError { fn_span: 1010, arg_span: 10, error: FinalizerError::NotSendAndSync(41) }]
    );
    assert!(CheckFinalizers.run_pass(&table, true, &calls).is_empty());
}

#[test]
fn diagnostics_are_worded() {
    let r = ReportedError { fn_span: 1, arg_span: 2, error: FinalizerError::NotSendAndSync(3) };
    let d = finalizer_diagnostic(r, "Hello(x)", "", false);
    assert_eq!(d.message, "`Hello(x)` has a drop method which cannot be safely finalized.");
    assert_eq!(d.span, 2);
    assert_eq!(d.labels.len(), 2);
    assert_eq!(d.labels[0].span, 3);
    assert_eq!(d.labels[1].text, "it uses a type which is not safe to use in a finalizer.");
    assert_eq!(
        d.help.unwrap(),
        "`Gc` runs finalizers on a separate thread, so drop methods\nmust only use values whose types implement `Send` + `Sync`."
    );

    let r = ReportedError { fn_span: 1, arg_span: 2, error: FinalizerError::NotFinalizerSafe(0, 3) };
    let d = finalizer_diagnostic(r, "v", "Cell<u8>", false);
    assert_eq!(d.labels.len(), 3);
    assert_eq!(d.labels[2].span, 1);
    assert_eq!(d.labels[2].text, "`Gc::new` requires that Cell<u8> implements the `FinalizeSafe` trait.");
    let d = finalizer_diagnostic(r, "v", "Gc<u8>", true);
    assert_eq!(d.labels[1].text, "it uses another `Gc` type.");
    assert!(d.help.is_none());

    let r = ReportedError { fn_span: 1, arg_span: 2, error: FinalizerError::UnsoundReference(0, 4) };
    let d = finalizer_diagnostic(r, "v", "&u8", false);
    assert_eq!(d.labels[1].text, "it is a reference (&u8) which is not safe to use in a finalizer.");
    assert_eq!(d.labels[1].span, 4);

    let r = ReportedError { fn_span: 1, arg_span: 2, error: FinalizerError::MissingFnDef };
    let d = finalizer_diagnostic(r, "v", "", false);
    assert_eq!(d.labels[0].span, 2);
    assert_eq!(d.labels[0].text, "contains a function call which may be unsafe.");

    let r = ReportedError { fn_span: 1, arg_span: 2, error: FinalizerError::UnknownTraitObject };
    let d = finalizer_diagnostic(r, "v", "", false);
    assert_eq!(d.labels[0].text, "contains a trait object whose implementation is unknown.");

    let r = ReportedError { fn_span: 1, arg_span: 2, error: FinalizerError::UnsoundExternalDropGlue(9) };
    let d = finalizer_diagnostic(r, "v", "", false);
    assert_eq!(d.labels[0].span, 9);
    assert_eq!(d.labels[0].text, "is not safe to be run as a finalizer");
}

#[test]
fn calls_the_analysis_cannot_see_into_are_refused() {
    let table = vec![ty(FsaTyKind::Ref, true, true), ty(FsaTyKind::Other, true, true)];
    let dm = DropMethod {
        span: 0,
        args: vec![0],
        events: vec![DropEvent::Call { arg_tys: vec![1], callee_visible: false }],
    };
    assert_eq!(check_drop_method(&table, &dm), Err(vec![FinalizerError::MissingFnDef]));
}

// struct Hello(*mut u8) whose drop method only prints: printing formats its
// arguments and writes them out, two calls into functions the analysis cannot
// see into.
#[test]
fn hello_with_printing_drop_is_refused_twice() {
    let drop = DropMethod {
        span: 70,
        args: vec![2],
        events: vec![
            DropEvent::Call { arg_tys: vec![3], callee_visible: false },
            DropEvent::Call { arg_tys: vec![4], callee_visible: false },
        ],
    };
    let table = vec![
        // Hello: not Send or Sync because of its raw pointer.
        ty(adt(Some(drop), vec![1]), false, false),
        // *mut u8
        ty(FsaTyKind::Scalar, false, true),
        // &mut Hello
        ty(FsaTyKind::Ref, false, false),
        // the formatting arguments and the formatted text
        ty(FsaTyKind::Other, true, true),
        ty(FsaTyKind::Other, true, true),
    ];
    let calls = vec![entry(0, 15)];
    let reports = CheckFinalizers.run_pass(&table, false, &calls);
    assert_eq!(reports.len(), 2);
    for r in reports {
        assert_eq!(r.error, FinalizerError::MissingFnDef);
        let d = finalizer_diagnostic(r, "Hello(123 as *mut u8)", "", false);
        assert!(d.message.contains("`Hello(123 as *mut u8)`"));
        assert!(d.message.contains("cannot be safely finalized."));
        assert_eq!(d.span, 15);
    }
}

#[test]
fn only_the_first_error_at_a_location_is_kept() {
    let mut errors = Vec::new();
    let mut locations = Vec::new();
    let here = Location { block: 0, statement: 1 };
    let there = Location { block: 2, statement: 0 };
    push_error(&mut errors, &mut locations, here, FinalizerError::NotSendAndSync(5));
    push_error(&mut errors, &mut locations, here, FinalizerError::MissingFnDef);
    push_error(&mut errors, &mut locations, there, FinalizerError::UnknownTraitObject);
    assert_eq!(errors, vec![FinalizerError::NotSendAndSync(5), FinalizerError::UnknownTraitObject]);
    assert_eq!(locations, vec![here, there]);
}
