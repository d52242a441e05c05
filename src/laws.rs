//! Properties of builds that relate several values or calls.
use vstd::prelude::*;
use crate::paths::join_spec;
use crate::plan::{
    header_manifest_spec, header_rel_spec, include_dir_spec, lib_dir_spec, plan_matches,
    source_dir_spec, BuildError, BuildPlan,
};
use crate::session::{step_spec, Step};

verus! {

/// Two builds under the same output root, of the same vendored tree, export
/// the same headers from the same sources to the same places, whatever extra
/// include directories each was given.
pub proof fn lemma_header_export_repeatable(
    p1: BuildPlan,
    p2: BuildPlan,
    root: Seq<char>,
    extras1: Seq<Seq<char>>,
    extras2: Seq<Seq<char>>,
    base: Seq<char>,
)
    requires
        plan_matches(p1, root, extras1, base),
        plan_matches(p2, root, extras2, base),
    ensures
        p1.include_dir@ == p2.include_dir@,
        p1.headers@.len() == p2.headers@.len(),
        forall|i: int|
            0 <= i < p1.headers@.len() ==> (#[trigger] p1.headers@[i]).from@ == p2.headers@[i].from@
                && p1.headers@[i].to@ == p2.headers@[i].to@ && p1.headers@[i].parent@
                == p2.headers@[i].parent@,
{
}

/// In every build the include directory is emptied before any header is
/// exported, so nothing from an earlier build stays in it.
pub proof fn lemma_include_dir_reset_first(n: int)
    requires
        n >= 0,
    ensures
        step_spec(1, n, None) == Step::ResetIncludeDir,
        forall|pos: int| pos >= 0 && #[trigger] step_spec(pos, n, None) is CopyHeader ==> pos > 1,
{
}

/// Each exported header is copied from the source tree to the same relative
/// path under the staged include directory.
pub proof fn lemma_headers_mirror_sources(
    p: BuildPlan,
    root: Seq<char>,
    extras: Seq<Seq<char>>,
    base: Seq<char>,
)
    requires
        plan_matches(p, root, extras, base),
    ensures
        forall|i: int|
            0 <= i < header_manifest_spec().len() ==> (#[trigger] p.headers@[i]).from@ == join_spec(
                source_dir_spec(base),
                header_rel_spec(i),
            ) && p.headers@[i].to@ == join_spec(include_dir_spec(root), header_rel_spec(i)),
{
}

/// The link directive names the static library "yue", and the compiler
/// writes a library of that name into the lib directory.
pub proof fn lemma_links_yue(p: BuildPlan, root: Seq<char>, extras: Seq<Seq<char>>, base: Seq<char>)
    requires
        plan_matches(p, root, extras, base),
    ensures
        p.report.deep_view()[2] == "cargo:rustc-link-lib=static=yue"@,
        p.compile.name@ == "yue"@,
        p.compile.out_dir@ == p.lib_dir@,
        p.lib_dir@ == lib_dir_spec(root),
{
    reveal_strlit("cargo:rustc-link-lib=static=yue");
    reveal_strlit("cargo:rustc-link-lib=static=");
    reveal_strlit("yue");
    assert(p.report.deep_view()[2] =~= "cargo:rustc-link-lib=static=yue"@);
}

/// The caller's extra include directories reach the compiler in the order
/// given, right after the source tree's own include root.
pub proof fn lemma_extra_includes_forwarded(
    p: BuildPlan,
    root: Seq<char>,
    extras: Seq<Seq<char>>,
    base: Seq<char>,
)
    requires
        plan_matches(p, root, extras, base),
    ensures
        p.compile.include_dirs.deep_view().len() == extras.len() + 1,
        p.compile.include_dirs.deep_view()[0] == source_dir_spec(base),
        p.compile.include_dirs.deep_view().subrange(1, extras.len() + 1 as int) == extras,
{
    let d = p.compile.include_dirs.deep_view();
    assert(d.subrange(1, extras.len() + 1 as int) =~= extras);
}

/// The report comes only after every earlier step succeeded: it is never the
/// step of a failed build, and it follows all header exports.
pub proof fn lemma_report_only_on_success(pos: int, n: int, error: Option<BuildError>)
    requires
        n >= 0,
        step_spec(pos, n, error) == Step::Report,
    ensures
        error is None,
        pos == n + 3,
{
}

} // verus!
