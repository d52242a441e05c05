//! The stages of one build, as a state machine: it names the next piece of
//! outside work, and is told whether that work succeeded.
use vstd::prelude::*;
use crate::plan::{BuildError, BuildPlan};

verus! {

/// Where a build stands.
#[derive(Clone, Copy, Debug, PartialEq, Eq, Structural)]
pub enum Stage {
    Configured,
    WorkspacePrepared,
    Compiled,
    HeadersExported,
    Reported,
    Failed,
}

/// The next piece of work.
#[derive(Clone, Copy, Debug, PartialEq, Eq, Structural)]
pub enum Step {
    /// Remove the lib directory if it exists, then create it empty.
    ResetLibDir,
    /// Remove the include directory if it exists, then create it empty.
    ResetIncludeDir,
    /// Run the compiler request of the plan.
    Compile,
    /// Export the header of the plan with this index.
    CopyHeader(usize),
    /// Emit the report lines of the plan.
    Report,
    /// Nothing is left to do: the build succeeded.
    Finished,
    /// Nothing is left to do: the build failed.
    Abort(BuildError),
}

/// How the last step went.
#[derive(Clone, Copy, Debug, PartialEq, Eq, Structural)]
pub enum Outcome {
    Succeeded,
    Failed,
}

/// Progress through the steps of a plan with `n_headers` headers.
pub struct Session {
    pos: usize,
    n_headers: usize,
    error: Option<BuildError>,
}

/// The step at position `pos` of a build that exports `n` headers, or the
/// abort once `error` is set.
pub open spec fn step_spec(pos: int, n: int, error: Option<BuildError>) -> Step {
    match error {
        Some(e) => Step::Abort(e),
        None => {
            if pos == 0 {
                Step::ResetLibDir
            } else if pos == 1 {
                Step::ResetIncludeDir
            } else if pos == 2 {
                Step::Compile
            } else if pos < n + 3 {
                Step::CopyHeader((pos - 3) as usize)
            } else if pos == n + 3 {
                Step::Report
            } else {
                Step::Finished
            }
        },
    }
}

/// The stage reached once the steps before `pos` succeeded, or `Failed`.
pub open spec fn stage_spec(pos: int, n: int, error: Option<BuildError>) -> Stage {
    if error is Some {
        Stage::Failed
    } else if pos <= 1 {
        Stage::Configured
    } else if pos == 2 {
        Stage::WorkspacePrepared
    } else if pos < n + 3 {
        Stage::Compiled
    } else if pos == n + 3 {
        Stage::HeadersExported
    } else {
        Stage::Reported
    }
}

/// The error that a failure of `step` ends the build with.
pub open spec fn failure_of(step: Step) -> BuildError {
    match step {
        Step::Compile => BuildError::ToolchainError,
        _ => BuildError::FilesystemError,
    }
}

impl Session {
    pub closed spec fn spec_pos(&self) -> int {
        self.pos as int
    }

    pub closed spec fn spec_n_headers(&self) -> int {
        self.n_headers as int
    }

    pub closed spec fn spec_error(&self) -> Option<BuildError> {
        self.error
    }

    pub open spec fn wf(&self) -> bool {
        &&& 0 <= self.spec_pos() <= self.spec_n_headers() + 4
        &&& self.spec_n_headers() + 4 <= usize::MAX
    }

    pub open spec fn spec_step(&self) -> Step {
        step_spec(self.spec_pos(), self.spec_n_headers(), self.spec_error())
    }

    /// No step is left: the build finished or failed.
    pub open spec fn is_done(&self) -> bool {
        self.spec_step() is Finished || self.spec_step() is Abort
    }

    /// A session at the first step of `plan`.
    pub fn start(plan: &BuildPlan) -> (s: Session)
        requires
            plan.headers@.len() + 4 <= usize::MAX,
        ensures
            s.wf(),
            s.spec_pos() == 0,
            s.spec_n_headers() == plan.headers@.len(),
            s.spec_error() is None,
    {
        Session { pos: 0, n_headers: plan.headers.len(), error: None }
    }

    /// The next piece of work.
    pub fn next_step(&self) -> (r: Step)
        requires
            self.wf(),
        ensures
            r == self.spec_step(),
    {
        match self.error {
            Some(e) => Step::Abort(e),
            None => {
                if self.pos == 0 {
                    Step::ResetLibDir
                } else if self.pos == 1 {
                    Step::ResetIncludeDir
                } else if self.pos == 2 {
                    Step::Compile
                } else if self.pos < self.n_headers + 3 {
                    Step::CopyHeader(self.pos - 3)
                } else if self.pos == self.n_headers + 3 {
                    Step::Report
                } else {
                    Step::Finished
                }
            },
        }
    }

    /// Where the build stands.
    pub fn stage(&self) -> (r: Stage)
        requires
            self.wf(),
        ensures
            r == stage_spec(self.spec_pos(), self.spec_n_headers(), self.spec_error()),
    {
        if self.error.is_some() {
            Stage::Failed
        } else if self.pos <= 1 {
            Stage::Configured
        } else if self.pos == 2 {
            Stage::WorkspacePrepared
        } else if self.pos < self.n_headers + 3 {
            Stage::Compiled
        } else if self.pos == self.n_headers + 3 {
            Stage::HeadersExported
        } else {
            Stage::Reported
        }
    }

    /// The error the build failed with, if it failed.
    pub fn error(&self) -> (r: Option<BuildError>)
        ensures
            r == self.spec_error(),
    {
        self.error
    }

    /// Records how the current step went: a success moves on to the next
    /// step, a failure ends the build with the step's error. Once no step is
    /// left, nothing changes.
    pub fn advance(&mut self, outcome: Outcome)
        requires
            old(self).wf(),
        ensures
            final(self).wf(),
            final(self).spec_n_headers() == old(self).spec_n_headers(),
            old(self).is_done() ==> *final(self) == *old(self),
            !old(self).is_done() && outcome is Succeeded ==> final(self).spec_pos()
                == old(self).spec_pos() + 1 && final(self).spec_error() is None,
            !old(self).is_done() && outcome is Failed ==> final(self).spec_pos()
                == old(self).spec_pos() && final(self).spec_error() == Some(
                failure_of(old(self).spec_step()),
            ),
    {
        let step = self.next_step();
        match step {
            Step::Finished => {},
            Step::Abort(_) => {},
            _ => {
                match outcome {
                    Outcome::Succeeded => {
                        self.pos = self.pos + 1;
                    },
                    Outcome::Failed => {
                        self.error = Some(
                            match step {
                                Step::Compile => BuildError::ToolchainError,
                                _ => BuildError::FilesystemError,
                            },
                        );
                    },
                }
            },
        }
    }
}

} // verus!
