//! Check runners with fixed answers.
use crate::entities::RepoRoot;
use crate::result::{BusErr, CheckErr};
use crate::runners::{CRunner, CheckRunStatus};
use vstd::prelude::*;

verus! {

/// The calls made through a tracked wrapper that no one has looked at yet.
#[derive(Debug, Clone, Copy)]
pub struct CheckRunnerSpy {
    calls: usize,
}

impl CheckRunnerSpy {
    pub closed spec fn calls(&self) -> nat {
        self.calls as nat
    }

    /// The record with one more call (it saturates at `usize::MAX`).
    pub closed spec fn recorded(&self) -> Self {
        CheckRunnerSpy { calls: if self.calls < usize::MAX { (self.calls + 1) as usize } else { self.calls } }
    }

    fn new() -> (r: Self)
        ensures
            r.calls() == 0,
    {
        CheckRunnerSpy { calls: 0 }
    }

    /// Whether a call of the wrapped `run` is recorded; a `true` uses up the
    /// record of one call.
    pub fn run_called(&mut self) -> (r: bool)
        ensures
            r == (old(self).calls() > 0),
            final(self).calls() == (if r {
                old(self).calls() - 1
            } else {
                old(self).calls() as int
            }),
    {
        if self.calls > 0 {
            self.calls = self.calls - 1;
            true
        } else {
            false
        }
    }
}

/// Wraps `inner` so that its calls are recorded.
pub fn track<R: CRunner>(inner: R) -> (r: TrackedCheckRunner<R>)
    ensures
        r.spy().calls() == 0,
        r.inner() == inner,
{
    TrackedCheckRunner::wrap(inner)
}

pub struct TrackedCheckRunner<R: CRunner> {
    inner: R,
    spy: CheckRunnerSpy,
}

impl<R: CRunner> TrackedCheckRunner<R> {
    pub closed spec fn spy(&self) -> CheckRunnerSpy {
        self.spy
    }

    pub closed spec fn inner(&self) -> R {
        self.inner
    }

    /// The wrapper after a call that gave `r`: the wrapped component as that call left
    /// it, and one more call recorded.
    pub closed spec fn counted(&self, r: Result<CheckRunStatus, CheckErr>) -> Self {
        TrackedCheckRunner { inner: self.inner.after(r), spy: self.spy.recorded() }
    }

    fn wrap(inner: R) -> (r: Self)
        ensures
            r.spy().calls() == 0,
            r.inner() == inner,
    {
        TrackedCheckRunner { inner, spy: CheckRunnerSpy::new() }
    }

    /// Whether a call of the wrapped `run` is recorded; a `true` uses up the
    /// record of one call.
    pub fn run_called(&mut self) -> (r: bool)
        ensures
            r == (old(self).spy().calls() > 0),
            final(self).spy().calls() == (if r {
                old(self).spy().calls() - 1
            } else {
                old(self).spy().calls() as int
            }),
            final(self).inner() == old(self).inner(),
    {
        self.spy.run_called()
    }
}

impl<R: CRunner> CRunner for TrackedCheckRunner<R> {
    /// The wrapped component's answers, handed back unchanged.
    open spec fn answers(&self, r: Result<CheckRunStatus, CheckErr>) -> bool {
        self.inner().answers(r)
    }

    /// The wrapped component is called once, and the call is recorded.
    open spec fn after(&self, r: Result<CheckRunStatus, CheckErr>) -> Self {
        self.counted(r)
    }

    fn run(&mut self, repo_root: RepoRoot) -> (r: Result<CheckRunStatus, CheckErr>) {
        let res = self.inner.run(repo_root);
        if self.spy.calls < usize::MAX {
            self.spy.calls = self.spy.calls + 1;
        }
        res
    }
}

/// Always answers with `result`.
pub fn working(result: CheckRunStatus) -> (r: WorkingCheckRunner)
    ensures
        r.result() == result,
{
    WorkingCheckRunner::make(result)
}

pub struct WorkingCheckRunner {
    result: CheckRunStatus,
}

impl WorkingCheckRunner {
    pub closed spec fn result(&self) -> CheckRunStatus {
        self.result
    }

    fn make(result: CheckRunStatus) -> (r: Self)
        ensures
            r.result() == result,
    {
        WorkingCheckRunner { result }
    }
}

impl CRunner for WorkingCheckRunner {
    /// Only `Ok` of the fixed result; a call leaves the component as it was, so every
    /// later call gives the same answer.
    open spec fn answers(&self, r: Result<CheckRunStatus, CheckErr>) -> bool {
        r == Ok::<CheckRunStatus, CheckErr>(self.result())
    }

    fn run(&mut self, _repo_root: RepoRoot) -> (r: Result<CheckRunStatus, CheckErr>) {
        Ok(self.result)
    }
}

/// Always fails as a malfunctioning component would.
pub fn failing() -> FailingCheckRunner {
    FailingCheckRunner::make()
}

pub struct FailingCheckRunner;

impl FailingCheckRunner {
    fn make() -> Self {
        FailingCheckRunner
    }
}

impl CRunner for FailingCheckRunner {
    /// Only a bus error, on every call.
    open spec fn answers(&self, r: Result<CheckRunStatus, CheckErr>) -> bool {
        r matches Err(CheckErr::Bus(_))
    }

    fn run(&mut self, _repo_root: RepoRoot) -> (r: Result<CheckRunStatus, CheckErr>) {
        Err(CheckErr::Bus(BusErr::Generic(String::from_str("Failure"))))
    }
}

} // verus!
