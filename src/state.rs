//! The application state: one status per stage and the watched root.
use crate::bus::BusEvent;
use crate::entities::{CheckState, CoverageState, RepoRoot, TestsState};
use vstd::prelude::*;

verus! {

/// A write to one of the stage cells of the application state.
#[derive(Debug, Clone, Copy, PartialEq, Eq, Structural)]
pub enum StageWrite {
    Check(CheckState),
    Tests(TestsState),
    Coverage(CoverageState),
}

/// The values of the application state's cells, with the record of every stage write
/// made to them.
pub struct StateValues {
    tests_state: TestsState,
    check_state: CheckState,
    coverage_state: CoverageState,
    repo_root: RepoRoot,
    history: Ghost<Seq<StageWrite>>,
}

impl StateValues {
    pub closed spec fn tests_cell(&self) -> TestsState {
        self.tests_state
    }

    pub closed spec fn check_cell(&self) -> CheckState {
        self.check_state
    }

    pub closed spec fn coverage_cell(&self) -> CoverageState {
        self.coverage_state
    }

    pub closed spec fn root_cell(&self) -> Seq<char> {
        self.repo_root@
    }

    /// The stage writes made so far, oldest first.
    pub closed spec fn writes(&self) -> Seq<StageWrite> {
        self.history@
    }

    /// Every stage pending and an empty root.
    pub fn new() -> (r: Self)
        ensures
            r.tests_cell() == TestsState::Pending,
            r.check_cell() == CheckState::Pending,
            r.coverage_cell() == CoverageState::Pending,
            r.root_cell() == Seq::<char>::empty(),
            r.writes() == Seq::<StageWrite>::empty(),
    {
        StateValues {
            tests_state: TestsState::Pending,
            check_state: CheckState::Pending,
            coverage_state: CoverageState::Pending,
            repo_root: RepoRoot::default(),
            history: Ghost(Seq::empty()),
        }
    }

    pub fn tests(&self) -> (r: TestsState)
        ensures
            r == self.tests_cell(),
    {
        self.tests_state
    }

    pub fn check(&self) -> (r: CheckState)
        ensures
            r == self.check_cell(),
    {
        self.check_state
    }

    pub fn coverage(&self) -> (r: CoverageState)
        ensures
            r == self.coverage_cell(),
    {
        self.coverage_state
    }

    pub fn repo_root(&self) -> (r: RepoRoot)
        ensures
            r@ == self.root_cell(),
    {
        self.repo_root.cloned()
    }

    pub fn write_tests(&mut self, status: TestsState)
        ensures
            final(self).tests_cell() == status,
            final(self).check_cell() == old(self).check_cell(),
            final(self).coverage_cell() == old(self).coverage_cell(),
            final(self).root_cell() == old(self).root_cell(),
            final(self).writes() == old(self).writes().push(StageWrite::Tests(status)),
    {
        self.tests_state = status;
        self.history = Ghost(self.history@.push(StageWrite::Tests(status)));
    }

    pub fn write_check(&mut self, status: CheckState)
        ensures
            final(self).check_cell() == status,
            final(self).tests_cell() == old(self).tests_cell(),
            final(self).coverage_cell() == old(self).coverage_cell(),
            final(self).root_cell() == old(self).root_cell(),
            final(self).writes() == old(self).writes().push(StageWrite::Check(status)),
    {
        self.check_state = status;
        self.history = Ghost(self.history@.push(StageWrite::Check(status)));
    }

    pub fn write_coverage(&mut self, coverage: CoverageState)
        ensures
            final(self).coverage_cell() == coverage,
            final(self).tests_cell() == old(self).tests_cell(),
            final(self).check_cell() == old(self).check_cell(),
            final(self).root_cell() == old(self).root_cell(),
            final(self).writes() == old(self).writes().push(StageWrite::Coverage(coverage)),
    {
        self.coverage_state = coverage;
        self.history = Ghost(self.history@.push(StageWrite::Coverage(coverage)));
    }

    /// Changes the watched root. The change counts as a change of the project, so the
    /// caller publishes the returned events: exactly one `ChangeDetected`.
    pub fn write_repo_root(&mut self, repo_root: RepoRoot) -> (events: Vec<BusEvent>)
        ensures
            final(self).root_cell() == repo_root@,
            final(self).tests_cell() == old(self).tests_cell(),
            final(self).check_cell() == old(self).check_cell(),
            final(self).coverage_cell() == old(self).coverage_cell(),
            final(self).writes() == old(self).writes(),
            events@ == seq![BusEvent::ChangeDetected],
    {
        self.repo_root = repo_root;
        let mut events: Vec<BusEvent> = Vec::new();
        events.push(BusEvent::ChangeDetected);
        events
    }

    /// A one-line summary of the tests status and the root.
    pub fn describe(&self) -> (r: String)
        ensures
            r@ == "status: "@ + self.tests_cell().text() + ", repo_root: "@ + self.root_cell(),
    {
        let mut s = String::from_str("status: ");
        s.append(self.tests_state.to_string().as_str());
        s.append(", repo_root: ");
        s.append(self.repo_root.as_str());
        s
    }
}

impl Default for StateValues {
    fn default() -> (r: Self)
        ensures
            r.tests_cell() == TestsState::Pending,
            r.check_cell() == CheckState::Pending,
            r.coverage_cell() == CoverageState::Pending,
            r.root_cell() == Seq::<char>::empty(),
            r.writes() == Seq::<StageWrite>::empty(),
    {
        StateValues::new()
    }
}

} // verus!
