use alloy_gc::bdwgc_build::{
    cmake_settings, libgc_built_path, stamp_after, stamp_is_current, Bdwgc, BuildAction,
};
use alloy_gc::collect_fixtures::{Collectable, ArrElem, SliceElem, TupA, S};
use alloy_gc::gc_types::{NonFinalizable, ProfileStats};

#[test]
fn built_library_path() {
    assert_eq!(libgc_built_path("build/x86_64/bdwgc"), "build/x86_64/bdwgc/lib");
    assert_eq!(libgc_built_path("out/"), "out/lib");
    assert_eq!(libgc_built_path(""), "lib");
}

#[test]
fn cmake_configuration() {
    let s = cmake_settings("/tmp/out", false, false);
    assert_eq!(s.out_dir, "/tmp/out");
    assert!(s.pic);
    assert_eq!(s.profile, "Release");
    let defines: Vec<(String, String)> =
        s.defines.iter().map(|d| (d.key.clone(), d.value.clone())).collect();
    assert_eq!(
        defines,
        vec![
            ("BUILD_SHARED_LIBS".to_string(), "ON".to_string()),
            ("enable_parallel_mark".to_string(), "OFF".to_string()),
            ("enable_gc_assertions".to_string(), "OFF".to_string()),
        ]
    );
    assert_eq!(s.cflags, vec!["-DGC_ALWAYS_MULTITHREADED".to_string()]);
    assert_eq!(cmake_settings("o", true, false).profile, "Debug");
    assert_eq!(cmake_settings("o", true, true).profile, "Debug");
    let s = cmake_settings("o", false, true);
    assert_eq!(s.profile, "RelWithDebInfo");
    assert_eq!(s.defines[2].value, "ON");
}

#[test]
fn build_decisions() {
    let step = Bdwgc { target: "x86_64-unknown-linux-gnu".to_string() };
    let p = step.plan(true, false, false, "stamp", "out", false, false);
    assert!(p.messages.is_empty());
    assert!(matches!(p.action, BuildAction::UseExisting));

    let p = step.plan(false, true, false, "out/.bdwgc-stamp", "out", false, false);
    assert_eq!(p.messages, vec!["To force BDWGC to rebuild, remove the file `out/.bdwgc-stamp`".to_string()]);
    assert!(matches!(p.action, BuildAction::UseExisting));

    let p = step.plan(false, true, true, "s", "out", false, false);
    assert_eq!(
        p.messages,
        vec![
            "Could not determine the BDWGC submodule commit hash. Assuming that an BDWGC rebuild is necessary.".to_string(),
            "Building BDWGC for x86_64-unknown-linux-gnu".to_string(),
        ]
    );
    assert!(matches!(p.action, BuildAction::Rebuild(_)));

    let p = step.plan(false, false, false, "s", "out", true, false);
    assert_eq!(p.messages, vec!["Building BDWGC for x86_64-unknown-linux-gnu".to_string()]);
    match p.action {
        BuildAction::Rebuild(s) => {
            assert_eq!(s.profile, "Debug");
            assert_eq!(s.out_dir, "out");
        }
        BuildAction::UseExisting => panic!("expected a rebuild"),
    }
}

#[test]
fn non_finalizable_wraps_its_value() {
    let mut w = NonFinalizable::new(vec![1, 2, 3]);
    assert_eq!(w.deref(), &vec![1, 2, 3]);
    w.deref_mut().push(4);
    assert_eq!(w.deref().len(), 4);
    assert_eq!(w.clone(), NonFinalizable::new(vec![1, 2, 3, 4]));
}

#[test]
fn wrappers_compare_as_their_values() {
    assert!(NonFinalizable::new(3u8) == NonFinalizable::new(3u8));
    assert!(NonFinalizable::new(3u8) != NonFinalizable::new(4u8));
    let mut w = NonFinalizable::new(1u8);
    *w.deref_mut() = 9;
    assert_eq!(*w.deref(), 9);
    assert!(w == NonFinalizable::new(9u8));
}

#[test]
fn profile_stats_default_to_zero() {
    let s = ProfileStats::default();
    assert_eq!(s.heapsize_full, 0);
    assert_eq!(s.gc_no, 0);
    assert_eq!(s.expl_freed_bytes_since_gc, 0);
}

#[test]
fn collectable_fixtures() {
    S(123).set_collectable();
    TupA.set_collectable();
    let array = [ArrElem; 5];
    array[0].set_collectable();
    [SliceElem][0].set_collectable();
}

#[test]
fn a_second_run_reuses_the_build() {
    let step = Bdwgc { target: "t".to_string() };
    let hash = "abc123".to_string();
    // No stamp yet: the first run rebuilds and records the hash.
    let recorded: Option<String> = None;
    assert!(!stamp_is_current(&recorded, &hash));
    let first = step.plan(false, false, false, "s", "out", false, false);
    assert!(matches!(first.action, BuildAction::Rebuild(_)));
    let recorded = stamp_after(&first.action, recorded, &hash);
    assert_eq!(recorded, Some("abc123".to_string()));
    // The second run with the same hash reuses the build.
    let second = step.plan(false, stamp_is_current(&recorded, &hash), false, "s", "out", false, false);
    assert!(matches!(second.action, BuildAction::UseExisting));
    assert_eq!(stamp_after(&second.action, recorded.clone(), &hash), recorded);
    // A different hash rebuilds.
    assert!(!stamp_is_current(&recorded, &"def".to_string()));
}
