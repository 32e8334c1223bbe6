//! The stage runners' interfaces and the decisions they take on a command's outcome.
use crate::coverage_parser::{
    coverage_shape, coverage_value, has_last_line, last_line, CoverageParser, FULL_COVERAGE,
};
use crate::entities::RepoRoot;
use crate::result::{CheckErr, CoverageErr, CoverageParseErr, IndexErr, RunnerErr};
use vstd::prelude::*;

verus! {

/// Result of the compile-check stage.
#[derive(Debug, Clone, Copy, PartialEq, Eq, Structural)]
pub enum CheckRunStatus {
    Success,
    Failure,
}

/// Result of the tests stage.
#[derive(Debug, Clone, Copy, PartialEq, Eq, Structural)]
pub enum TestsRunStatus {
    Success,
    Failure,
}

/// Result of the coverage stage; a success carries hundredths of a percent.
#[derive(Debug, Clone, Copy, PartialEq, Eq, Structural)]
pub enum CoverageRunStatus {
    Success(u32),
    Failure,
}

/// What a refresh of the tests index found.
#[derive(Debug, Clone, Copy, PartialEq, Eq, Structural)]
pub enum IndexStatus {
    TestsSetChanged,
    TestsSetNotChanged,
    Failure,
}

/// Runs the compile check of a project.
pub trait CRunner: Sized {
    /// Whether `r` is a result this component may give. A component that states
    /// nothing may give any result.
    open spec fn answers(&self, r: Result<CheckRunStatus, CheckErr>) -> bool {
        true
    }

    /// The component after a call that gave `r`. A component that states nothing is
    /// left as it was.
    open spec fn after(&self, r: Result<CheckRunStatus, CheckErr>) -> Self {
        *self
    }

    fn run(&mut self, repo_root: RepoRoot) -> (r: Result<CheckRunStatus, CheckErr>)
        ensures
            old(self).answers(r),
            *final(self) == old(self).after(r),
    ;
}

/// Runs the tests of a project.
pub trait TRunner: Sized {
    /// Whether `r` is a result this component may give. A component that states
    /// nothing may give any result.
    open spec fn answers(&self, r: Result<TestsRunStatus, RunnerErr>) -> bool {
        true
    }

    /// The component after a call that gave `r`. A component that states nothing is
    /// left as it was.
    open spec fn after(&self, r: Result<TestsRunStatus, RunnerErr>) -> Self {
        *self
    }

    fn run(&mut self, repo_root: RepoRoot) -> (r: Result<TestsRunStatus, RunnerErr>)
        ensures
            old(self).answers(r),
            *final(self) == old(self).after(r),
    ;
}

/// Refreshes the index of a project's declared tests.
pub trait TIndex: Sized {
    /// Whether `r` is a result this component may give. A component that states
    /// nothing may give any result.
    open spec fn answers(&self, r: Result<IndexStatus, IndexErr>) -> bool {
        true
    }

    /// The component after a call that gave `r`. A component that states nothing is
    /// left as it was.
    open spec fn after(&self, r: Result<IndexStatus, IndexErr>) -> Self {
        *self
    }

    fn refresh(&mut self, repo_root: RepoRoot) -> (r: Result<IndexStatus, IndexErr>)
        ensures
            old(self).answers(r),
            *final(self) == old(self).after(r),
    ;
}

/// Runs the coverage tool on a project.
pub trait CovRunner: Sized {
    /// Whether `r` is a result this component may give. A component that states
    /// nothing may give any result.
    open spec fn answers(&self, r: Result<CoverageRunStatus, CoverageErr>) -> bool {
        true
    }

    /// The component after a call that gave `r`. A component that states nothing is
    /// left as it was.
    open spec fn after(&self, r: Result<CoverageRunStatus, CoverageErr>) -> Self {
        *self
    }

    fn run(&mut self, repo_root: RepoRoot) -> (r: Result<CoverageRunStatus, CoverageErr>)
        ensures
            old(self).answers(r),
            *final(self) == old(self).after(r),
    ;
}

/// Reads the covered share out of a coverage command's output.
pub trait OutputParser {
    /// The share, in hundredths of a percent, that `output` reports, if any.
    spec fn reported(&self, output: Seq<char>) -> Option<u32>;

    fn parse(&self, output: String) -> (r: Result<u32, CoverageParseErr>)
        ensures
            r is Ok <==> self.reported(output@) is Some,
            r matches Ok(v) ==> self.reported(output@) == Some(v),
    ;
}

/// The share a coverage report states on its last non-empty line, when that line has
/// the coverage shape and the share is at most one hundred percent.
pub open spec fn report_value(o: Seq<char>) -> Option<u32> {
    if has_last_line(o) && coverage_shape(last_line(o)) && coverage_value(last_line(o))
        <= FULL_COVERAGE {
        Some(coverage_value(last_line(o)) as u32)
    } else {
        None
    }
}

impl OutputParser for CoverageParser {
    open spec fn reported(&self, output: Seq<char>) -> Option<u32> {
        report_value(output)
    }

    fn parse(&self, output: String) -> (r: Result<u32, CoverageParseErr>) {
        CoverageParser::parse(self, output)
    }
}

/// The check status for a command outcome: `None` when the command could not be
/// started, otherwise whether it exited with status zero.
pub fn check_status(exit_ok: Option<bool>) -> (r: CheckRunStatus)
    ensures
        r == (if exit_ok == Some(true) {
            CheckRunStatus::Success
        } else {
            CheckRunStatus::Failure
        }),
{
    match exit_ok {
        Some(true) => CheckRunStatus::Success,
        _ => CheckRunStatus::Failure,
    }
}

/// The tests status for a command outcome: `None` when the command could not be
/// started, otherwise whether it exited with status zero.
pub fn tests_status(exit_ok: Option<bool>) -> (r: TestsRunStatus)
    ensures
        r == (if exit_ok == Some(true) {
            TestsRunStatus::Success
        } else {
            TestsRunStatus::Failure
        }),
{
    match exit_ok {
        Some(true) => TestsRunStatus::Success,
        _ => TestsRunStatus::Failure,
    }
}

/// The coverage status for the command's standard output (`None` when it could not be
/// run) and the command's parser (`None` when it has none, which is a failure).
pub fn coverage_status<P: OutputParser>(stdout: Option<String>, parser: Option<&P>) -> (r:
    CoverageRunStatus)
    ensures
        r == (match (stdout, parser) {
            (Some(out), Some(p)) => match p.reported(out@) {
                Some(v) => CoverageRunStatus::Success(v),
                None => CoverageRunStatus::Failure,
            },
            _ => CoverageRunStatus::Failure,
        }),
{
    match stdout {
        None => CoverageRunStatus::Failure,
        Some(out) => match parser {
            None => CoverageRunStatus::Failure,
            Some(p) => match p.parse(out) {
                Ok(v) => CoverageRunStatus::Success(v),
                Err(_) => CoverageRunStatus::Failure,
            },
        },
    }
}

} // verus!
