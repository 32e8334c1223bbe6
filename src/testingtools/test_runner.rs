//! Tests runners with fixed answers.
use crate::entities::RepoRoot;
use crate::result::{BusErr, RunnerErr};
use crate::runners::{TRunner, TestsRunStatus};
use vstd::prelude::*;

verus! {

/// The calls made through a tracked wrapper that no one has looked at yet.
#[derive(Debug, Clone, Copy)]
pub struct TestRunnerSpy {
    calls: usize,
}

impl TestRunnerSpy {
    pub closed spec fn calls(&self) -> nat {
        self.calls as nat
    }

    /// The record with one more call (it saturates at `usize::MAX`).
    pub closed spec fn recorded(&self) -> Self {
        TestRunnerSpy { calls: if self.calls < usize::MAX { (self.calls + 1) as usize } else { self.calls } }
    }

    fn new() -> (r: Self)
        ensures
            r.calls() == 0,
    {
        TestRunnerSpy { calls: 0 }
    }

    /// Whether a call of the wrapped `run` is recorded; a `true` uses up the
    /// record of one call.
    pub fn run_called(&mut self) -> (r: bool)
        ensures
            r == (old(self).calls() > 0),
            final(self).calls() == (if r {
                old(self).calls() - 1
            } else {
                old(self).calls() as int
            }),
    {
        if self.calls > 0 {
            self.calls = self.calls - 1;
            true
        } else {
            false
        }
    }
}

/// Wraps `inner` so that its calls are recorded.
pub fn track<R: TRunner>(inner: R) -> (r: TrackedTestRunner<R>)
    ensures
        r.spy().calls() == 0,
        r.inner() == inner,
{
    TrackedTestRunner::wrap(inner)
}

pub struct TrackedTestRunner<R: TRunner> {
    inner: R,
    spy: TestRunnerSpy,
}

impl<R: TRunner> TrackedTestRunner<R> {
    pub closed spec fn spy(&self) -> TestRunnerSpy {
        self.spy
    }

    pub closed spec fn inner(&self) -> R {
        self.inner
    }

    /// The wrapper after a call that gave `r`: the wrapped component as that call left
    /// it, and one more call recorded.
    pub closed spec fn counted(&self, r: Result<TestsRunStatus, RunnerErr>) -> Self {
        TrackedTestRunner { inner: self.inner.after(r), spy: self.spy.recorded() }
    }

    fn wrap(inner: R) -> (r: Self)
        ensures
            r.spy().calls() == 0,
            r.inner() == inner,
    {
        TrackedTestRunner { inner, spy: TestRunnerSpy::new() }
    }

    /// Whether a call of the wrapped `run` is recorded; a `true` uses up the
    /// record of one call.
    pub fn run_called(&mut self) -> (r: bool)
        ensures
            r == (old(self).spy().calls() > 0),
            final(self).spy().calls() == (if r {
                old(self).spy().calls() - 1
            } else {
                old(self).spy().calls() as int
            }),
            final(self).inner() == old(self).inner(),
    {
        self.spy.run_called()
    }
}

impl<R: TRunner> TRunner for TrackedTestRunner<R> {
    /// The wrapped component's answers, handed back unchanged.
    open spec fn answers(&self, r: Result<TestsRunStatus, RunnerErr>) -> bool {
        self.inner().answers(r)
    }

    /// The wrapped component is called once, and the call is recorded.
    open spec fn after(&self, r: Result<TestsRunStatus, RunnerErr>) -> Self {
        self.counted(r)
    }

    fn run(&mut self, repo_root: RepoRoot) -> (r: Result<TestsRunStatus, RunnerErr>) {
        let res = self.inner.run(repo_root);
        if self.spy.calls < usize::MAX {
            self.spy.calls = self.spy.calls + 1;
        }
        res
    }
}

/// Always answers with `result`.
pub fn working(result: TestsRunStatus) -> (r: WorkingTestRunner)
    ensures
        r.result() == result,
{
    WorkingTestRunner::make(result)
}

pub struct WorkingTestRunner {
    result: TestsRunStatus,
}

impl WorkingTestRunner {
    pub closed spec fn result(&self) -> TestsRunStatus {
        self.result
    }

    fn make(result: TestsRunStatus) -> (r: Self)
        ensures
            r.result() == result,
    {
        WorkingTestRunner { result }
    }
}

impl TRunner for WorkingTestRunner {
    /// Only `Ok` of the fixed result; a call leaves the component as it was, so every
    /// later call gives the same answer.
    open spec fn answers(&self, r: Result<TestsRunStatus, RunnerErr>) -> bool {
        r == Ok::<TestsRunStatus, RunnerErr>(self.result())
    }

    fn run(&mut self, _repo_root: RepoRoot) -> (r: Result<TestsRunStatus, RunnerErr>) {
        Ok(self.result)
    }
}

/// Always fails as a malfunctioning component would.
pub fn failing() -> FailingTestRunner {
    FailingTestRunner::make()
}

pub struct FailingTestRunner;

impl FailingTestRunner {
    fn make() -> Self {
        FailingTestRunner
    }
}

impl TRunner for FailingTestRunner {
    /// Only a bus error, on every call.
    open spec fn answers(&self, r: Result<TestsRunStatus, RunnerErr>) -> bool {
        r matches Err(RunnerErr::Bus(_))
    }

    fn run(&mut self, _repo_root: RepoRoot) -> (r: Result<TestsRunStatus, RunnerErr>) {
        Err(RunnerErr::Bus(BusErr::Generic(String::from_str("Failure"))))
    }
}

} // verus!
