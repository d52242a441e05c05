//! What one build does, derived from the configuration: the output layout, the
//! request to the C++ toolchain, the headers to export and the report.
use vstd::prelude::*;
use vstd::string::StringExecFns;
use crate::paths::{join, join_spec};

verus! {

/// Why a build did not complete.
#[derive(Clone, Copy, Debug, PartialEq, Eq, Structural)]
pub enum BuildError {
    /// No output root was set.
    ConfigurationError,
    /// A directory could not be reset or created, or a header could not be copied.
    FilesystemError,
    /// The compiler could not be run or reported failure.
    ToolchainError,
}

/// Optimization level asked of the compiler: the highest standard tier.
pub const OPT_LEVEL: u32 = 3;

/// Number of translation units compiled.
pub const N_SOURCES: usize = 5;

/// Number of headers exported.
pub const N_HEADERS: usize = 5;

/// The logical name of the static library.
pub open spec fn lib_name_spec() -> Seq<char> {
    "yue"@
}

/// The minimum language standard, passed only where the compiler accepts it.
pub open spec fn std_flag_spec() -> Seq<char> {
    "-std=c++17"@
}

/// The directory under the output root that a build owns.
pub open spec fn build_dir_spec(root: Seq<char>) -> Seq<char> {
    join_spec(root, "yuescript-build"@)
}

/// Where the static library is written.
pub open spec fn lib_dir_spec(root: Seq<char>) -> Seq<char> {
    join_spec(build_dir_spec(root), "lib"@)
}

/// Where the public headers are staged.
pub open spec fn include_dir_spec(root: Seq<char>) -> Seq<char> {
    join_spec(build_dir_spec(root), "include"@)
}

/// The source tree's own include root, under the vendored tree's base.
pub open spec fn source_dir_spec(base: Seq<char>) -> Seq<char> {
    join_spec(base, "yuescript/src"@)
}

/// The translation units, relative to the source root, in compile order.
pub open spec fn source_files_spec() -> Seq<Seq<char>> {
    seq![
        "yuescript/ast.cpp"@,
        "yuescript/parser.cpp"@,
        "yuescript/yue_compiler.cpp"@,
        "yuescript/yue_parser.cpp"@,
        "yuescript/yuescript.cpp"@,
    ]
}

/// The header manifest: each entry is a directory and a file name, relative to
/// the source root.
pub open spec fn header_manifest_spec() -> Seq<(Seq<char>, Seq<char>)> {
    seq![
        ("yuescript"@, "ast.hpp"@),
        ("yuescript"@, "parser.hpp"@),
        ("yuescript"@, "yue_compiler.h"@),
        ("yuescript"@, "yue_parser.h"@),
        ("yuescript"@, "yuescript.h"@),
    ]
}

/// The relative path of the `i`th header of the manifest.
pub open spec fn header_rel_spec(i: int) -> Seq<char> {
    join_spec(header_manifest_spec()[i].0, header_manifest_spec()[i].1)
}

/// One header to export: copy `from` to `to`, after creating `parent`.
pub struct HeaderCopy {
    pub from: String,
    pub to: String,
    pub parent: String,
}

/// The single request made of the C++ toolchain.
pub struct CompileRequest {
    /// Sources are compiled as C++, whatever their extension.
    pub cpp: bool,
    pub opt_level: u32,
    /// Include directories, in the order passed to the compiler.
    pub include_dirs: Vec<String>,
    /// Translation units, in the order passed to the compiler.
    pub files: Vec<String>,
    /// Flags passed only where the compiler accepts them.
    pub flags_if_supported: Vec<String>,
    /// Directory the static library is written to.
    pub out_dir: String,
    /// Logical name of the static library.
    pub name: String,
}

/// Everything one build does, in plain values.
pub struct BuildPlan {
    pub lib_dir: String,
    pub include_dir: String,
    pub compile: CompileRequest,
    pub headers: Vec<HeaderCopy>,
    /// Lines for the host build system, emitted once everything else succeeded.
    pub report: Vec<String>,
}

/// `c` copies the `i`th manifest header from the source tree to the staged
/// include directory.
pub open spec fn header_copy_matches(c: HeaderCopy, root: Seq<char>, base: Seq<char>, i: int) -> bool {
    &&& c.from@ == join_spec(source_dir_spec(base), header_rel_spec(i))
    &&& c.to@ == join_spec(include_dir_spec(root), header_rel_spec(i))
    &&& c.parent@ == join_spec(include_dir_spec(root), header_manifest_spec()[i].0)
}

/// `q` is the compiler request for output root `root`, extra include
/// directories `extras` and vendored tree base `base`.
pub open spec fn request_matches(
    q: CompileRequest,
    root: Seq<char>,
    extras: Seq<Seq<char>>,
    base: Seq<char>,
) -> bool {
    &&& q.cpp
    &&& q.opt_level == OPT_LEVEL
    &&& q.include_dirs.deep_view() == seq![source_dir_spec(base)] + extras
    &&& q.files@.len() == source_files_spec().len()
    &&& forall|j: int|
        0 <= j < source_files_spec().len() ==> #[trigger] q.files@[j]@ == join_spec(
            source_dir_spec(base),
            source_files_spec()[j],
        )
    &&& q.flags_if_supported.deep_view() == seq![std_flag_spec()]
    &&& q.out_dir@ == lib_dir_spec(root)
    &&& q.name@ == lib_name_spec()
}

/// The report lines for a build under `root`.
pub open spec fn report_spec(root: Seq<char>) -> Seq<Seq<char>> {
    seq![
        "cargo:include="@ + include_dir_spec(root),
        "cargo:lib="@ + lib_dir_spec(root),
        "cargo:rustc-link-lib=static="@ + lib_name_spec(),
    ]
}

/// `p` is the plan for output root `root`, extra include directories `extras`
/// and vendored tree base `base`.
pub open spec fn plan_matches(
    p: BuildPlan,
    root: Seq<char>,
    extras: Seq<Seq<char>>,
    base: Seq<char>,
) -> bool {
    &&& p.lib_dir@ == lib_dir_spec(root)
    &&& p.include_dir@ == include_dir_spec(root)
    &&& request_matches(p.compile, root, extras, base)
    &&& p.headers@.len() == header_manifest_spec().len()
    &&& forall|i: int|
        0 <= i < header_manifest_spec().len() ==> header_copy_matches(
            #[trigger] p.headers@[i],
            root,
            base,
            i,
        )
    &&& p.report.deep_view() == report_spec(root)
}

fn source_file(i: usize) -> (r: &'static str)
    requires
        i < N_SOURCES,
    ensures
        r@ == source_files_spec()[i as int],
{
    if i == 0 {
        "yuescript/ast.cpp"
    } else if i == 1 {
        "yuescript/parser.cpp"
    } else if i == 2 {
        "yuescript/yue_compiler.cpp"
    } else if i == 3 {
        "yuescript/yue_parser.cpp"
    } else {
        "yuescript/yuescript.cpp"
    }
}

fn header_entry(i: usize) -> (r: (&'static str, &'static str))
    requires
        i < N_HEADERS,
    ensures
        (r.0@, r.1@) == header_manifest_spec()[i as int],
{
    if i == 0 {
        ("yuescript", "ast.hpp")
    } else if i == 1 {
        ("yuescript", "parser.hpp")
    } else if i == 2 {
        ("yuescript", "yue_compiler.h")
    } else if i == 3 {
        ("yuescript", "yue_parser.h")
    } else {
        ("yuescript", "yuescript.h")
    }
}

/// The compiler request: the source root first, then `extras` in the order
/// given, as include directories.
pub fn compile_request(root: &str, extras: &Vec<String>, base: &str) -> (q: CompileRequest)
    ensures
        request_matches(q, root@, extras.deep_view(), base@),
{
    let source_dir = join(base, "yuescript/src");
    let mut include_dirs: Vec<String> = Vec::new();
    include_dirs.push(source_dir.clone());
    let mut i: usize = 0;
    while i < extras.len()
        invariant
            i <= extras@.len(),
            include_dirs@.len() == i + 1,
            include_dirs@[0]@ == source_dir_spec(base@),
            forall|j: int| 0 <= j < i ==> #[trigger] include_dirs@[j + 1]@ == extras@[j]@,
        decreases extras@.len() - i,
    {
        include_dirs.push(extras[i].clone());
        i = i + 1;
    }
    proof {
        let want = seq![source_dir_spec(base@)] + extras.deep_view();
        assert forall|j: int| 0 <= j < want.len() implies #[trigger] include_dirs.deep_view()[j] == want[j] by {
            if j > 0 {
                assert(include_dirs@[(j - 1) + 1]@ == extras@[j - 1]@);
            }
        }
        assert(include_dirs.deep_view() =~= want);
    }
    let mut files: Vec<String> = Vec::new();
    let mut k: usize = 0;
    while k < N_SOURCES
        invariant
            k <= N_SOURCES,
            source_dir@ == source_dir_spec(base@),
            files@.len() == k,
            forall|j: int| 0 <= j < k ==> #[trigger] files@[j]@ == join_spec(source_dir_spec(base@), source_files_spec()[j]),
        decreases N_SOURCES - k,
    {
        files.push(join(source_dir.as_str(), source_file(k)));
        k = k + 1;
    }
    let mut flags_if_supported: Vec<String> = Vec::new();
    flags_if_supported.push(String::from_str("-std=c++17"));
    proof {
        assert(flags_if_supported.deep_view() =~= seq![std_flag_spec()]);
    }
    let build_dir = join(root, "yuescript-build");
    CompileRequest {
        cpp: true,
        opt_level: OPT_LEVEL,
        include_dirs,
        files,
        flags_if_supported,
        out_dir: join(build_dir.as_str(), "lib"),
        name: String::from_str("yue"),
    }
}

/// The header copies, in manifest order.
pub fn header_copies(root: &str, base: &str) -> (hs: Vec<HeaderCopy>)
    ensures
        hs@.len() == header_manifest_spec().len(),
        forall|i: int|
            0 <= i < header_manifest_spec().len() ==> header_copy_matches(#[trigger] hs@[i], root@, base@, i),
{
    let source_dir = join(base, "yuescript/src");
    let build_dir = join(root, "yuescript-build");
    let include_dir = join(build_dir.as_str(), "include");
    let mut hs: Vec<HeaderCopy> = Vec::new();
    let mut i: usize = 0;
    while i < N_HEADERS
        invariant
            i <= N_HEADERS,
            source_dir@ == source_dir_spec(base@),
            include_dir@ == include_dir_spec(root@),
            hs@.len() == i,
            forall|j: int| 0 <= j < i ==> header_copy_matches(#[trigger] hs@[j], root@, base@, j),
        decreases N_HEADERS - i,
    {
        let (dir, name) = header_entry(i);
        let rel = join(dir, name);
        let c = HeaderCopy {
            from: join(source_dir.as_str(), rel.as_str()),
            to: join(include_dir.as_str(), rel.as_str()),
            parent: join(include_dir.as_str(), dir),
        };
        hs.push(c);
        i = i + 1;
    }
    hs
}

/// The report lines: the include directory, the lib directory and the link
/// directive naming the static library.
pub fn report_lines(root: &str) -> (lines: Vec<String>)
    ensures
        lines.deep_view() == report_spec(root@),
{
    let build_dir = join(root, "yuescript-build");
    let include_dir = join(build_dir.as_str(), "include");
    let lib_dir = join(build_dir.as_str(), "lib");
    let mut lines: Vec<String> = Vec::new();
    lines.push(String::from_str("cargo:include=").concat(include_dir.as_str()));
    lines.push(String::from_str("cargo:lib=").concat(lib_dir.as_str()));
    lines.push(String::from_str("cargo:rustc-link-lib=static=").concat("yue"));
    proof {
        assert(lines.deep_view() =~= report_spec(root@));
    }
    lines
}

/// The plan of a build under output root `root`, with extra include
/// directories `extras`, of the vendored tree at `base`.
pub fn make_plan(root: &str, extras: &Vec<String>, base: &str) -> (p: BuildPlan)
    ensures
        plan_matches(p, root@, extras.deep_view(), base@),
{
    let build_dir = join(root, "yuescript-build");
    BuildPlan {
        lib_dir: join(build_dir.as_str(), "lib"),
        include_dir: join(build_dir.as_str(), "include"),
        compile: compile_request(root, extras, base),
        headers: header_copies(root, base),
        report: report_lines(root),
    }
}

} // verus!
