//! Coverage runners with fixed answers.
use crate::entities::RepoRoot;
use crate::result::{BusErr, CoverageErr};
use crate::runners::{CovRunner, CoverageRunStatus};
use vstd::prelude::*;

verus! {

/// The calls made through a tracked wrapper that no one has looked at yet.
#[derive(Debug, Clone, Copy)]
pub struct CoverageRunnerSpy {
    calls: usize,
}

impl CoverageRunnerSpy {
    pub closed spec fn calls(&self) -> nat {
        self.calls as nat
    }

    /// The record with one more call (it saturates at `usize::MAX`).
    pub closed spec fn recorded(&self) -> Self {
        CoverageRunnerSpy { calls: if self.calls < usize::MAX { (self.calls + 1) as usize } else { self.calls } }
    }

    fn new() -> (r: Self)
        ensures
            r.calls() == 0,
    {
        CoverageRunnerSpy { calls: 0 }
    }

    /// Whether a call of the wrapped `run` is recorded; a `true` uses up the
    /// record of one call.
    pub fn run_called(&mut self) -> (r: bool)
        ensures
            r == (old(self).calls() > 0),
            final(self).calls() == (if r {
                old(self).calls() - 1
            } else {
                old(self).calls() as int
            }),
    {
        if self.calls > 0 {
            self.calls = self.calls - 1;
            true
        } else {
            false
        }
    }
}

/// Wraps `inner` so that its calls are recorded.
pub fn track<R: CovRunner>(inner: R) -> (r: TrackedCoverageRunner<R>)
    ensures
        r.spy().calls() == 0,
        r.inner() == inner,
{
    TrackedCoverageRunner::wrap(inner)
}

pub struct TrackedCoverageRunner<R: CovRunner> {
    inner: R,
    spy: CoverageRunnerSpy,
}

impl<R: CovRunner> TrackedCoverageRunner<R> {
    pub closed spec fn spy(&self) -> CoverageRunnerSpy {
        self.spy
    }

    pub closed spec fn inner(&self) -> R {
        self.inner
    }

    /// The wrapper after a call that gave `r`: the wrapped component as that call left
    /// it, and one more call recorded.
    pub closed spec fn counted(&self, r: Result<CoverageRunStatus, CoverageErr>) -> Self {
        TrackedCoverageRunner { inner: self.inner.after(r), spy: self.spy.recorded() }
    }

    fn wrap(inner: R) -> (r: Self)
        ensures
            r.spy().calls() == 0,
            r.inner() == inner,
    {
        TrackedCoverageRunner { inner, spy: CoverageRunnerSpy::new() }
    }

    /// Whether a call of the wrapped `run` is recorded; a `true` uses up the
    /// record of one call.
    pub fn run_called(&mut self) -> (r: bool)
        ensures
            r == (old(self).spy().calls() > 0),
            final(self).spy().calls() == (if r {
                old(self).spy().calls() - 1
            } else {
                old(self).spy().calls() as int
            }),
            final(self).inner() == old(self).inner(),
    {
        self.spy.run_called()
    }
}

impl<R: CovRunner> CovRunner for TrackedCoverageRunner<R> {
    /// The wrapped component's answers, handed back unchanged.
    open spec fn answers(&self, r: Result<CoverageRunStatus, CoverageErr>) -> bool {
        self.inner().answers(r)
    }

    /// The wrapped component is called once, and the call is recorded.
    open spec fn after(&self, r: Result<CoverageRunStatus, CoverageErr>) -> Self {
        self.counted(r)
    }

    fn run(&mut self, repo_root: RepoRoot) -> (r: Result<CoverageRunStatus, CoverageErr>) {
        let res = self.inner.run(repo_root);
        if self.spy.calls < usize::MAX {
            self.spy.calls = self.spy.calls + 1;
        }
        res
    }
}

/// Always answers with `result`.
pub fn working(result: CoverageRunStatus) -> (r: WorkingCoverageRunner)
    ensures
        r.result() == result,
{
    WorkingCoverageRunner::make(result)
}

pub struct WorkingCoverageRunner {
    result: CoverageRunStatus,
}

impl WorkingCoverageRunner {
    pub closed spec fn result(&self) -> CoverageRunStatus {
        self.result
    }

    fn make(result: CoverageRunStatus) -> (r: Self)
        ensures
            r.result() == result,
    {
        WorkingCoverageRunner { result }
    }
}

impl CovRunner for WorkingCoverageRunner {
    /// Only `Ok` of the fixed result; a call leaves the component as it was, so every
    /// later call gives the same answer.
    open spec fn answers(&self, r: Result<CoverageRunStatus, CoverageErr>) -> bool {
        r == Ok::<CoverageRunStatus, CoverageErr>(self.result())
    }

    fn run(&mut self, _repo_root: RepoRoot) -> (r: Result<CoverageRunStatus, CoverageErr>) {
        Ok(self.result)
    }
}

/// Always fails as a malfunctioning component would.
pub fn failing() -> FailingCoverageRunner {
    FailingCoverageRunner::make()
}

pub struct FailingCoverageRunner;

impl FailingCoverageRunner {
    fn make() -> Self {
        FailingCoverageRunner
    }
}

impl CovRunner for FailingCoverageRunner {
    /// Only a bus error, on every call.
    open spec fn answers(&self, r: Result<CoverageRunStatus, CoverageErr>) -> bool {
        r matches Err(CoverageErr::Bus(_))
    }

    fn run(&mut self, _repo_root: RepoRoot) -> (r: Result<CoverageRunStatus, CoverageErr>) {
        Err(CoverageErr::Bus(BusErr::Generic(String::from_str("Failure"))))
    }
}

} // verus!
