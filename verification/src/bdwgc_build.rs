//! The build step that compiles the collector's native library with CMake.
//!
//! The decisions of the step live here: where the library ends up, whether it
//! must be rebuilt, what to tell the user, and how CMake is configured.
//! Reading the build stamp, running CMake and writing files are left to the
//! caller.

use vstd::prelude::*;

verus! {

/// The build step for one target, named by its target triple.
pub struct Bdwgc {
    pub target: String,
}

/// Appending a relative path component to a path: a separator is added
/// unless the path is empty or already ends with one.
pub open spec fn path_join(dir: Seq<char>, component: Seq<char>) -> Seq<char> {
    if dir.len() == 0 {
        component
    } else if dir.last() == '/' {
        dir + component
    } else {
        dir + "/"@ + component
    }
}

/// Where the built library lies inside the output directory.
pub fn libgc_built_path(out_dir: &str) -> (p: String)
    ensures
        p@ == path_join(out_dir@, "lib"@),
{
    let n = out_dir.unicode_len();
    if n == 0 {
        return String::from_str("lib");
    }
    let last = out_dir.get_char(n - 1);
    let mut p = String::from_str(out_dir);
    if last != '/' {
        p.append("/");
    }
    p.append("lib");
    p
}

/// The CMake build profile: a debug build when asked for, otherwise an
/// optimized one, with debug information when assertions are enabled.
pub open spec fn profile_name(debug: bool, assertions: bool) -> Seq<char> {
    if debug {
        "Debug"@
    } else if !assertions {
        "Release"@
    } else {
        "RelWithDebInfo"@
    }
}

pub open spec fn switch_name(on: bool) -> Seq<char> {
    if on {
        "ON"@
    } else {
        "OFF"@
    }
}

/// A CMake cache definition.
pub struct Define {
    pub key: String,
    pub value: String,
}

/// How CMake is configured for the collector.
pub struct CmakeSettings {
    pub out_dir: String,
    pub pic: bool,
    pub profile: String,
    pub defines: Vec<Define>,
    pub cflags: Vec<String>,
}

/// What the build step does after its checks.
pub enum BuildAction {
    /// Hand back the library path without building.
    UseExisting,
    /// Configure CMake as given and build, then write the stamp.
    Rebuild(CmakeSettings),
}

/// The decisions of the build step: messages to show, in order, and what to
/// do.
pub struct BuildPlan {
    pub messages: Vec<String>,
    pub action: BuildAction,
}

/// The settings CMake gets for a build into `out_dir`.
pub open spec fn settings_match(s: CmakeSettings, out_dir: Seq<char>, debug: bool, assertions: bool) -> bool {
    &&& s.out_dir@ == out_dir
    &&& s.pic
    &&& s.profile@ == profile_name(debug, assertions)
    &&& s.defines@.len() == 3
    &&& s.defines@[0].key@ == "BUILD_SHARED_LIBS"@ && s.defines@[0].value@ == "ON"@
    &&& s.defines@[1].key@ == "enable_parallel_mark"@ && s.defines@[1].value@ == "OFF"@
    &&& s.defines@[2].key@ == "enable_gc_assertions"@ && s.defines@[2].value@ == switch_name(
        assertions,
    )
    &&& s.cflags@.len() == 1
    &&& s.cflags@[0]@ == "-DGC_ALWAYS_MULTITHREADED"@
}

/// The message shown when an up-to-date build is reused.
pub open spec fn reuse_message(stamp_path: Seq<char>) -> Seq<char> {
    "To force BDWGC to rebuild, remove the file `"@ + stamp_path + "`"@
}

/// The message shown when the stamp is up to date but empty.
pub open spec fn unknown_commit_message() -> Seq<char> {
    "Could not determine the BDWGC submodule commit hash. Assuming that an BDWGC rebuild is necessary."@
}

/// The message shown before building.
pub open spec fn building_message(target: Seq<char>) -> Seq<char> {
    "Building BDWGC for "@ + target
}

fn profile(debug: bool, assertions: bool) -> (s: String)
    ensures
        s@ == profile_name(debug, assertions),
{
    if debug {
        String::from_str("Debug")
    } else if !assertions {
        String::from_str("Release")
    } else {
        String::from_str("RelWithDebInfo")
    }
}

fn define(key: &str, value: &str) -> (d: Define)
    ensures
        d.key@ == key@,
        d.value@ == value@,
{
    Define { key: String::from_str(key), value: String::from_str(value) }
}

/// The CMake configuration for a build into `out_dir`: position-independent
/// code, the profile for the debug and assertion switches, a shared library
/// without parallel marking, the collector's own assertions as asked, and
/// always-multithreaded code.
pub fn cmake_settings(out_dir: &str, debug: bool, assertions: bool) -> (s: CmakeSettings)
    ensures
        settings_match(s, out_dir@, debug, assertions),
{
    let assertions_switch = if assertions {
        "ON"
    } else {
        "OFF"
    };
    let mut defines: Vec<Define> = Vec::new();
    defines.push(define("BUILD_SHARED_LIBS", "ON"));
    defines.push(define("enable_parallel_mark", "OFF"));
    defines.push(define("enable_gc_assertions", assertions_switch));
    let mut cflags: Vec<String> = Vec::new();
    cflags.push(String::from_str("-DGC_ALWAYS_MULTITHREADED"));
    CmakeSettings {
        out_dir: String::from_str(out_dir),
        pic: true,
        profile: profile(debug, assertions),
        defines,
        cflags,
    }
}

impl Bdwgc {
    /// The decisions of the build step. A dry run builds nothing and says
    /// nothing. An up-to-date stamp with a recorded commit reuses the build;
    /// an up-to-date but empty stamp says so and rebuilds; otherwise the step
    /// rebuilds. Before rebuilding it announces the target.
    pub fn plan(
        &self,
        dry_run: bool,
        stamp_up_to_date: bool,
        stamp_is_empty: bool,
        stamp_path: &str,
        out_dir: &str,
        debug: bool,
        assertions: bool,
    ) -> (p: BuildPlan)
        ensures
            dry_run ==> p.messages@.len() == 0 && p.action is UseExisting,
            !dry_run && stamp_up_to_date && !stamp_is_empty ==> p.messages@.len() == 1
                && p.messages@[0]@ == reuse_message(stamp_path@) && p.action is UseExisting,
            !dry_run && stamp_up_to_date && stamp_is_empty ==> p.messages@.len() == 2
                && p.messages@[0]@ == unknown_commit_message() && p.messages@[1]@
                == building_message(self.target@),
            !dry_run && !stamp_up_to_date ==> p.messages@.len() == 1 && p.messages@[0]@
                == building_message(self.target@),
            (p.action is Rebuild) == plan_rebuilds(dry_run, stamp_up_to_date, stamp_is_empty),
            !dry_run && !(stamp_up_to_date && !stamp_is_empty) ==> (p.action matches BuildAction::Rebuild(
                s,
            ) && settings_match(s, out_dir@, debug, assertions)),
    {
        let mut messages: Vec<String> = Vec::new();
        if dry_run {
            return BuildPlan { messages, action: BuildAction::UseExisting };
        }
        if stamp_up_to_date {
            if stamp_is_empty {
                messages.push(
                    String::from_str(
                        "Could not determine the BDWGC submodule commit hash. Assuming that an BDWGC rebuild is necessary.",
                    ),
                );
            } else {
                let mut m = String::from_str("To force BDWGC to rebuild, remove the file `");
                m.append(stamp_path);
                m.append("`");
                messages.push(m);
                return BuildPlan { messages, action: BuildAction::UseExisting };
            }
        }
        let mut m = String::from_str("Building BDWGC for ");
        m.append(self.target.as_str());
        messages.push(m);
        BuildPlan {
            messages,
            action: BuildAction::Rebuild(cmake_settings(out_dir, debug, assertions)),
        }
    }
}

/// Whether the build step rebuilds: not on a dry run, and not when the stamp
/// is up to date and records a commit.
pub open spec fn plan_rebuilds(dry_run: bool, stamp_up_to_date: bool, stamp_is_empty: bool) -> bool {
    !dry_run && !(stamp_up_to_date && !stamp_is_empty)
}

pub open spec fn opt_view(s: Option<String>) -> Option<Seq<char>> {
    match s {
        Some(t) => Some(t@),
        None => None,
    }
}

/// Whether the recorded stamp is up to date: it records the current commit
/// hash of the collector's sources.
pub open spec fn stamp_current(recorded: Option<Seq<char>>, hash: Seq<char>) -> bool {
    recorded == Some(hash)
}

/// Whether the recorded stamp, if any, records commit `hash`.
pub fn stamp_is_current(recorded: &Option<String>, hash: &String) -> (r: bool)
    ensures
        r == stamp_current(opt_view(*recorded), hash@),
{
    match recorded {
        Some(t) => {
            let same = *t == *hash;
            same
        },
        None => false,
    }
}

/// The stamp after the build step acts: a rebuild records the current
/// commit hash; reusing a build keeps the stamp as it was.
pub open spec fn stamp_after_spec(rebuilt: bool, recorded: Option<Seq<char>>, hash: Seq<char>) -> Option<
    Seq<char>,
> {
    if rebuilt {
        Some(hash)
    } else {
        recorded
    }
}

/// The stamp to keep after the build step acts on `action`.
pub fn stamp_after(action: &BuildAction, recorded: Option<String>, hash: &String) -> (r: Option<String>)
    ensures
        opt_view(r) == stamp_after_spec(*action is Rebuild, opt_view(recorded), hash@),
{
    match action {
        BuildAction::Rebuild(_) => Some(hash.clone()),
        BuildAction::UseExisting => recorded,
    }
}

/// A build step that is not a dry run leaves the stamp so that the next run
/// with the same non-empty commit hash reuses the build instead of building
/// again. With an empty hash every run rebuilds.
pub proof fn lemma_second_run_reuses(recorded: Option<Seq<char>>, hash: Seq<char>)
    ensures
        ({
            let first = plan_rebuilds(false, stamp_current(recorded, hash), hash.len() == 0);
            let after = stamp_after_spec(first, recorded, hash);
            &&& hash.len() > 0 ==> !plan_rebuilds(false, stamp_current(after, hash), false)
            &&& hash.len() == 0 ==> plan_rebuilds(false, stamp_current(after, hash), true)
        }),
{
}

} // verus!
