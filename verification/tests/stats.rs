use alloy_gc::gc_stats::{gc_stats_log_entry, in_std_lib, stats_log_text, tally_locals, GcStats, SmartPointer, StatLocal};
use alloy_gc::runtime_log::{log_stats_text, main_exit_code, RuntimeStats};

fn user(p: SmartPointer) -> StatLocal {
    StatLocal { is_user_variable: true, adt: Some(p) }
}

#[test]
fn locals_are_tallied() {
    let locals = vec![
        // The return place is never counted.
        user(SmartPointer::Rc),
        user(SmartPointer::Gc { needs_finalizer: true }),
        user(SmartPointer::Gc { needs_finalizer: false }),
        user(SmartPointer::Rc),
        user(SmartPointer::Arc),
        user(SmartPointer::RcWeak),
        user(SmartPointer::ArcWeak),
        user(SmartPointer::ArcWeak),
        user(SmartPointer::OtherAdt),
        StatLocal { is_user_variable: false, adt: Some(SmartPointer::Rc) },
        StatLocal { is_user_variable: true, adt: None },
    ];
    assert_eq!(
        tally_locals(&locals),
        GcStats {
            num_gcs: 2,
            num_rcs: 1,
            num_weaks: 1,
            num_arcs: 1,
            num_arcweaks: 2,
            num_elidable_finalizers: 1,
        }
    );
    assert_eq!(tally_locals(&vec![]), tally_locals(&vec![user(SmartPointer::Rc)]));
}

#[test]
fn standard_library_crates() {
    assert!(in_std_lib(3, Some(3), Some(1), Some(2)));
    assert!(in_std_lib(1, Some(3), Some(1), Some(2)));
    assert!(in_std_lib(2, Some(3), Some(1), Some(2)));
    assert!(!in_std_lib(4, Some(3), Some(1), Some(2)));
    assert!(!in_std_lib(4, None, None, None));
}

#[test]
fn stats_log_lines() {
    let s = GcStats { num_gcs: 12, num_rcs: 0, num_weaks: 3, num_arcs: 4, num_arcweaks: 5, num_elidable_finalizers: 907 };
    assert_eq!(stats_log_text("foo::bar", s, false), "foo::bar,12,0,4,3,5,907\n");
    assert_eq!(
        stats_log_text("main", s, true),
        "fn,num_gcs,num_rcs,num_arcs,num_weaks,num_arcweaks,num_elidable_finalizers\nmain,12,0,4,3,5,907\n"
    );
    let big = GcStats { num_gcs: u64::MAX, ..s };
    assert_eq!(stats_log_text("f", big, false), "f,18446744073709551615,0,4,3,5,907\n");
}

#[test]
fn runtime_summary() {
    let stats = RuntimeStats {
        elision_enabled: true,
        prem_enabled: false,
        premopt_enabled: true,
        num_finalizers_registered: 1,
        num_finalizers_completed: 2,
        num_finalizers_elidable: 3,
        num_barriers_visited: 40,
        num_allocated_gc: 50,
        num_allocated_boxed: 6,
        num_allocated_rc: 7,
        num_allocated_arc: 8,
        num_cycles: 90,
    };
    let text = log_stats_text(stats);
    let mut lines = text.lines();
    let header = lines.next().unwrap();
    let values = lines.next().unwrap();
    assert_eq!(
        header,
        "elision enabled,premature finalizer prevention enabled,premopt enabled,finalizers registered,finalizers completed,barriers visited,Gc allocated,Box allocated,Rc allocated,Arc allocated,STW pauses"
    );
    assert_eq!(values, "true,false,true,1,2,3,40,50,6,7,8,90");
    assert!(text.ends_with('\n'));
    // The values line has one more column than the header.
    assert_eq!(header.split(',').count() + 1, values.split(',').count());
}

#[test]
fn exit_codes() {
    assert_eq!(main_exit_code(Some(0)), 0);
    assert_eq!(main_exit_code(Some(-3)), -3);
    assert_eq!(main_exit_code(None), 101);
}

#[test]
fn standard_library_bodies_are_not_logged() {
    let locals = vec![user(SmartPointer::Rc), user(SmartPointer::Arc)];
    assert_eq!(gc_stats_log_entry("alloc::f", &locals, true, true), None);
    assert_eq!(gc_stats_log_entry("g", &locals, false, false), Some("g,0,0,1,0,0,0\n".to_string()));
}
