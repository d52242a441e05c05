use yuescript_build::config::Build;
use yuescript_build::paths::join;
use yuescript_build::plan::{make_plan, BuildError, BuildPlan, OPT_LEVEL};
use yuescript_build::session::{Outcome, Session, Stage, Step};

fn plan_for(root: &str, extras: Vec<String>, base: &str) -> BuildPlan {
    let mut b = Build::new(None);
    b.out_dir(root).include_dirs(extras);
    b.build(base).unwrap()
}

#[test]
fn scenario_tmp_out_layout() {
    let p = plan_for("/tmp/out", vec![], "/vendor");
    assert_eq!(p.lib_dir, "/tmp/out/yuescript-build/lib");
    assert_eq!(p.include_dir, "/tmp/out/yuescript-build/include");
    assert_eq!(p.headers[0].to, "/tmp/out/yuescript-build/include/yuescript/ast.hpp");
    assert_eq!(p.headers[0].from, "/vendor/yuescript/src/yuescript/ast.hpp");
    assert_eq!(p.headers[0].parent, "/tmp/out/yuescript-build/include/yuescript");
    assert_eq!(p.report[1], "cargo:lib=/tmp/out/yuescript-build/lib");
    assert_eq!(p.report[0], "cargo:include=/tmp/out/yuescript-build/include");
}

#[test]
fn unset_root_is_configuration_error() {
    let b = Build::new(None);
    assert_eq!(b.build("/vendor").err(), Some(BuildError::ConfigurationError));
}

#[test]
fn empty_root_is_configuration_error() {
    let mut b = Build::new(None);
    b.out_dir("");
    assert_eq!(b.build("/vendor").err(), Some(BuildError::ConfigurationError));
}

#[test]
fn default_root_is_used() {
    let b = Build::new(Some("/env/out".to_string()));
    let p = b.build("/vendor").unwrap();
    assert_eq!(p.lib_dir, "/env/out/yuescript-build/lib");
}

#[test]
fn explicit_root_overrides_default() {
    let mut b = Build::new(Some("/env/out".to_string()));
    b.out_dir("/mine");
    let p = b.build("/vendor").unwrap();
    assert_eq!(p.include_dir, "/mine/yuescript-build/include");
}

#[test]
fn include_dirs_replace_not_merge() {
    let mut b = Build::new(None);
    b.out_dir("/o").include_dirs(vec!["a".to_string()]);
    b.include_dirs(vec!["b".to_string()]);
    let p = b.build("/v").unwrap();
    assert_eq!(p.compile.include_dirs, vec!["/v/yuescript/src".to_string(), "b".to_string()]);
}

#[test]
fn extra_includes_follow_source_root_in_order() {
    let extras = vec!["/x/inc".to_string(), "/a/inc".to_string(), "/x/inc".to_string()];
    let p = plan_for("/o", extras, "/v");
    assert_eq!(
        p.compile.include_dirs,
        vec![
            "/v/yuescript/src".to_string(),
            "/x/inc".to_string(),
            "/a/inc".to_string(),
            "/x/inc".to_string()
        ]
    );
}

#[test]
fn compile_request_fields() {
    let p = plan_for("/o", vec![], "/v");
    assert!(p.compile.cpp);
    assert_eq!(p.compile.opt_level, 3);
    assert_eq!(OPT_LEVEL, 3);
    assert_eq!(p.compile.name, "yue");
    assert_eq!(p.compile.out_dir, "/o/yuescript-build/lib");
    assert_eq!(p.compile.flags_if_supported, vec!["-std=c++17".to_string()]);
    assert_eq!(
        p.compile.files,
        vec![
            "/v/yuescript/src/yuescript/ast.cpp".to_string(),
            "/v/yuescript/src/yuescript/parser.cpp".to_string(),
            "/v/yuescript/src/yuescript/yue_compiler.cpp".to_string(),
            "/v/yuescript/src/yuescript/yue_parser.cpp".to_string(),
            "/v/yuescript/src/yuescript/yuescript.cpp".to_string(),
        ]
    );
}

#[test]
fn link_directive_names_yue() {
    let p = plan_for("/o", vec!["/i".to_string()], "/v");
    assert_eq!(p.report.len(), 3);
    assert_eq!(p.report[2], "cargo:rustc-link-lib=static=yue");
}

#[test]
fn header_manifest_in_order() {
    let p = plan_for("/o/", vec![], "/v/");
    let tos: Vec<&str> = p.headers.iter().map(|h| h.to.as_str()).collect();
    assert_eq!(
        tos,
        vec![
            "/o/yuescript-build/include/yuescript/ast.hpp",
            "/o/yuescript-build/include/yuescript/parser.hpp",
            "/o/yuescript-build/include/yuescript/yue_compiler.h",
            "/o/yuescript-build/include/yuescript/yue_parser.h",
            "/o/yuescript-build/include/yuescript/yuescript.h",
        ]
    );
}

#[test]
fn headers_keep_relative_paths() {
    let p = plan_for("/o", vec![], "/v");
    for h in &p.headers {
        let rel_from = h.from.strip_prefix("/v/yuescript/src/").unwrap();
        let rel_to = h.to.strip_prefix("/o/yuescript-build/include/").unwrap();
        assert_eq!(rel_from, rel_to);
    }
}

#[test]
fn repeated_builds_export_same_headers() {
    let p1 = plan_for("/o", vec![], "/v");
    let p2 = plan_for("/o", vec!["/extra".to_string()], "/v");
    assert_eq!(p1.include_dir, p2.include_dir);
    for (a, b) in p1.headers.iter().zip(p2.headers.iter()) {
        assert_eq!(a.from, b.from);
        assert_eq!(a.to, b.to);
    }
}

#[test]
fn make_plan_relative_root() {
    let p = make_plan("out", &vec![], "");
    assert_eq!(p.lib_dir, "out/yuescript-build/lib");
    assert_eq!(p.compile.include_dirs, vec!["yuescript/src".to_string()]);
}

#[test]
fn join_inserts_separator() {
    assert_eq!(join("/a", "b"), "/a/b");
}

#[test]
fn join_keeps_trailing_separator() {
    assert_eq!(join("/a/", "b"), "/a/b");
}

#[test]
fn join_empty_base() {
    assert_eq!(join("", "b"), "b");
}

#[test]
fn join_absolute_component_replaces() {
    assert_eq!(join("/a", "/b"), "/b");
}

fn run(p: &BuildPlan, fail_at: Option<Step>) -> (Session, Vec<Step>) {
    let mut s = Session::start(p);
    let mut steps = Vec::new();
    loop {
        let step = s.next_step();
        steps.push(step);
        match step {
            Step::Finished | Step::Abort(_) => break,
            _ => {
                let o = if Some(step) == fail_at { Outcome::Failed } else { Outcome::Succeeded };
                s.advance(o);
            }
        }
    }
    (s, steps)
}

#[test]
fn session_runs_all_stages_in_order() {
    let p = plan_for("/o", vec![], "/v");
    let s0 = Session::start(&p);
    assert_eq!(s0.stage(), Stage::Configured);
    let (s, steps) = run(&p, None);
    assert_eq!(
        steps,
        vec![
            Step::ResetLibDir,
            Step::ResetIncludeDir,
            Step::Compile,
            Step::CopyHeader(0),
            Step::CopyHeader(1),
            Step::CopyHeader(2),
            Step::CopyHeader(3),
            Step::CopyHeader(4),
            Step::Report,
            Step::Finished,
        ]
    );
    assert_eq!(s.stage(), Stage::Reported);
    assert_eq!(s.error(), None);
}

#[test]
fn session_stages_between_steps() {
    let p = plan_for("/o", vec![], "/v");
    let mut s = Session::start(&p);
    s.advance(Outcome::Succeeded);
    assert_eq!(s.stage(), Stage::Configured);
    s.advance(Outcome::Succeeded);
    assert_eq!(s.stage(), Stage::WorkspacePrepared);
    s.advance(Outcome::Succeeded);
    assert_eq!(s.stage(), Stage::Compiled);
    for _ in 0..5 {
        s.advance(Outcome::Succeeded);
    }
    assert_eq!(s.stage(), Stage::HeadersExported);
}

#[test]
fn compile_failure_is_toolchain_error() {
    let p = plan_for("/o", vec![], "/v");
    let (s, steps) = run(&p, Some(Step::Compile));
    assert_eq!(steps.last(), Some(&Step::Abort(BuildError::ToolchainError)));
    assert!(!steps.contains(&Step::Report));
    assert!(!steps.contains(&Step::CopyHeader(0)));
    assert_eq!(s.stage(), Stage::Failed);
    assert_eq!(s.error(), Some(BuildError::ToolchainError));
}

#[test]
fn reset_failure_is_filesystem_error() {
    let p = plan_for("/o", vec![], "/v");
    let (s, steps) = run(&p, Some(Step::ResetLibDir));
    assert_eq!(steps, vec![Step::ResetLibDir, Step::Abort(BuildError::FilesystemError)]);
    assert_eq!(s.error(), Some(BuildError::FilesystemError));
}

#[test]
fn copy_failure_is_filesystem_error() {
    let p = plan_for("/o", vec![], "/v");
    let (s, steps) = run(&p, Some(Step::CopyHeader(2)));
    assert_eq!(steps.last(), Some(&Step::Abort(BuildError::FilesystemError)));
    assert!(!steps.contains(&Step::Report));
    assert_eq!(s.stage(), Stage::Failed);
}

#[test]
fn finished_session_does_not_move() {
    let p = plan_for("/o", vec![], "/v");
    let (mut s, _) = run(&p, None);
    s.advance(Outcome::Failed);
    assert_eq!(s.next_step(), Step::Finished);
    assert_eq!(s.error(), None);
}
