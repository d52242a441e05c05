//! The build configuration: an output root and extra include directories.
use vstd::prelude::*;
use crate::plan::{make_plan, plan_matches, BuildError, BuildPlan};

verus! {

/// What a build is configured with. Setters record values only; they are
/// checked when the build is planned.
pub struct Build {
    out_dir: Option<String>,
    include_dirs: Vec<String>,
}

/// The view of an optional path.
pub open spec fn opt_view(p: Option<String>) -> Option<Seq<char>> {
    match p {
        Some(s) => Some(s@),
        None => None,
    }
}

impl Build {
    /// The output root, if one is set.
    pub closed spec fn spec_out_dir(&self) -> Option<Seq<char>> {
        opt_view(self.out_dir)
    }

    /// The caller's extra include directories, in the order given.
    pub closed spec fn spec_include_dirs(&self) -> Seq<Seq<char>> {
        self.include_dirs.deep_view()
    }

    /// A configuration whose output root is the default that the environment
    /// provides, if any, and with no extra include directories.
    pub fn new(default_out_dir: Option<String>) -> (r: Build)
        ensures
            r.spec_out_dir() == opt_view(default_out_dir),
            r.spec_include_dirs() == Seq::<Seq<char>>::empty(),
    {
        let r = Build { out_dir: default_out_dir, include_dirs: Vec::new() };
        assert(r.include_dirs.deep_view() =~= Seq::<Seq<char>>::empty());
        r
    }

    /// Sets the output root, overriding any default.
    pub fn out_dir(&mut self, path: &str) -> (r: &mut Build)
        ensures
            r.spec_out_dir() == Some(path@),
            r.spec_include_dirs() == old(self).spec_include_dirs(),
            *final(self) == *final(r),
    {
        self.out_dir = Some(path.to_owned());
        self
    }

    /// Replaces the extra include directories.
    pub fn include_dirs(&mut self, include_dirs: Vec<String>) -> (r: &mut Self)
        ensures
            r.spec_out_dir() == old(self).spec_out_dir(),
            r.spec_include_dirs() == include_dirs.deep_view(),
            *final(self) == *final(r),
    {
        self.include_dirs = include_dirs;
        self
    }
    /// The output root is set and not empty.
    pub open spec fn is_configured(&self) -> bool {
        self.spec_out_dir() is Some && self.spec_out_dir().unwrap().len() > 0
    }

    /// Plans the build of the vendored tree at `source_base`. Fails with
    /// `ConfigurationError`, before anything is touched, exactly when no
    /// output root is set.
    pub fn build(&self, source_base: &str) -> (r: Result<BuildPlan, BuildError>)
        ensures
            r is Err <==> !self.is_configured(),
            r is Err ==> r == Err::<BuildPlan, BuildError>(BuildError::ConfigurationError),
            r is Ok ==> plan_matches(
                r.unwrap(),
                self.spec_out_dir().unwrap(),
                self.spec_include_dirs(),
                source_base@,
            ),
    {
        match &self.out_dir {
            None => Err(BuildError::ConfigurationError),
            Some(root) => {
                if root.as_str().is_empty() {
                    Err(BuildError::ConfigurationError)
                } else {
                    Ok(make_plan(root.as_str(), &self.include_dirs, source_base))
                }
            },
        }
    }
}

} // verus!
