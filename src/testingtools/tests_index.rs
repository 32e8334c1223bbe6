//! Tests indexes with fixed answers.
use crate::entities::RepoRoot;
use crate::result::{BusErr, IndexErr};
use crate::runners::{TIndex, IndexStatus};
use vstd::prelude::*;

verus! {

/// The calls made through a tracked wrapper that no one has looked at yet.
#[derive(Debug, Clone, Copy)]
pub struct TestsIndexSpy {
    calls: usize,
}

impl TestsIndexSpy {
    pub closed spec fn calls(&self) -> nat {
        self.calls as nat
    }

    /// The record with one more call (it saturates at `usize::MAX`).
    pub closed spec fn recorded(&self) -> Self {
        TestsIndexSpy { calls: if self.calls < usize::MAX { (self.calls + 1) as usize } else { self.calls } }
    }

    fn new() -> (r: Self)
        ensures
            r.calls() == 0,
    {
        TestsIndexSpy { calls: 0 }
    }

    /// Whether a call of the wrapped `refresh` is recorded; a `true` uses up the
    /// record of one call.
    pub fn refresh_called(&mut self) -> (r: bool)
        ensures
            r == (old(self).calls() > 0),
            final(self).calls() == (if r {
                old(self).calls() - 1
            } else {
                old(self).calls() as int
            }),
    {
        if self.calls > 0 {
            self.calls = self.calls - 1;
            true
        } else {
            false
        }
    }
}

/// Wraps `inner` so that its calls are recorded.
pub fn track<R: TIndex>(inner: R) -> (r: TrackedTestsIndex<R>)
    ensures
        r.spy().calls() == 0,
        r.inner() == inner,
{
    TrackedTestsIndex::wrap(inner)
}

pub struct TrackedTestsIndex<R: TIndex> {
    inner: R,
    spy: TestsIndexSpy,
}

impl<R: TIndex> TrackedTestsIndex<R> {
    pub closed spec fn spy(&self) -> TestsIndexSpy {
        self.spy
    }

    pub closed spec fn inner(&self) -> R {
        self.inner
    }

    /// The wrapper after a call that gave `r`: the wrapped component as that call left
    /// it, and one more call recorded.
    pub closed spec fn counted(&self, r: Result<IndexStatus, IndexErr>) -> Self {
        TrackedTestsIndex { inner: self.inner.after(r), spy: self.spy.recorded() }
    }

    fn wrap(inner: R) -> (r: Self)
        ensures
            r.spy().calls() == 0,
            r.inner() == inner,
    {
        TrackedTestsIndex { inner, spy: TestsIndexSpy::new() }
    }

    /// Whether a call of the wrapped `refresh` is recorded; a `true` uses up the
    /// record of one call.
    pub fn refresh_called(&mut self) -> (r: bool)
        ensures
            r == (old(self).spy().calls() > 0),
            final(self).spy().calls() == (if r {
                old(self).spy().calls() - 1
            } else {
                old(self).spy().calls() as int
            }),
            final(self).inner() == old(self).inner(),
    {
        self.spy.refresh_called()
    }
}

impl<R: TIndex> TIndex for TrackedTestsIndex<R> {
    /// The wrapped component's answers, handed back unchanged.
    open spec fn answers(&self, r: Result<IndexStatus, IndexErr>) -> bool {
        self.inner().answers(r)
    }

    /// The wrapped component is called once, and the call is recorded.
    open spec fn after(&self, r: Result<IndexStatus, IndexErr>) -> Self {
        self.counted(r)
    }

    fn refresh(&mut self, repo_root: RepoRoot) -> (r: Result<IndexStatus, IndexErr>) {
        let res = self.inner.refresh(repo_root);
        if self.spy.calls < usize::MAX {
            self.spy.calls = self.spy.calls + 1;
        }
        res
    }
}

/// Always answers with `result`.
pub fn working(result: IndexStatus) -> (r: WorkingTestsIndex)
    ensures
        r.result() == result,
{
    WorkingTestsIndex::make(result)
}

pub struct WorkingTestsIndex {
    result: IndexStatus,
}

impl WorkingTestsIndex {
    pub closed spec fn result(&self) -> IndexStatus {
        self.result
    }

    fn make(result: IndexStatus) -> (r: Self)
        ensures
            r.result() == result,
    {
        WorkingTestsIndex { result }
    }
}

impl TIndex for WorkingTestsIndex {
    /// Only `Ok` of the fixed result; a call leaves the component as it was, so every
    /// later call gives the same answer.
    open spec fn answers(&self, r: Result<IndexStatus, IndexErr>) -> bool {
        r == Ok::<IndexStatus, IndexErr>(self.result())
    }

    fn refresh(&mut self, _repo_root: RepoRoot) -> (r: Result<IndexStatus, IndexErr>) {
        Ok(self.result)
    }
}

/// Always fails as a malfunctioning component would.
pub fn failing() -> FailingTestsIndex {
    FailingTestsIndex::make()
}

pub struct FailingTestsIndex;

impl FailingTestsIndex {
    fn make() -> Self {
        FailingTestsIndex
    }
}

impl TIndex for FailingTestsIndex {
    /// Only a bus error, on every call.
    open spec fn answers(&self, r: Result<IndexStatus, IndexErr>) -> bool {
        r matches Err(IndexErr::Bus(_))
    }

    fn refresh(&mut self, _repo_root: RepoRoot) -> (r: Result<IndexStatus, IndexErr>) {
        Err(IndexErr::Bus(BusErr::Generic(String::from_str("Failure"))))
    }
}

} // verus!
