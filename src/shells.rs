//! What each pipeline worker does with an event and with its runner's outcome. A worker
//! waits for one event kind, marks its stage pending, runs its runner, writes the
//! result, and publishes what the next worker waits for.
use crate::bus::BusEvent;
use crate::entities::{CheckState, CoverageState, TestsState};
use crate::result::{CheckErr, CoverageErr, IndexErr, RunnerErr};
use crate::runners::{
    CRunner, CheckRunStatus, CovRunner, CoverageRunStatus, IndexStatus, TIndex, TRunner,
    TestsRunStatus,
};
use crate::state::{StageWrite, StateValues};
use crate::tests_index::{listed_tests, refresh_outcome};
use vstd::prelude::*;

verus! {

pub open spec fn check_finish(res: Result<CheckRunStatus, CheckErr>) -> (CheckState, BusEvent) {
    if res matches Ok(CheckRunStatus::Success) {
        (CheckState::Success, BusEvent::CheckPassed)
    } else {
        (CheckState::Failure, BusEvent::CheckFailed)
    }
}

pub open spec fn tests_finish(res: Result<TestsRunStatus, RunnerErr>) -> (TestsState, BusEvent) {
    if res matches Ok(TestsRunStatus::Success) {
        (TestsState::Success, BusEvent::TestsPassed)
    } else {
        (TestsState::Failure, BusEvent::TestsFailed)
    }
}

pub open spec fn index_finish(res: Result<IndexStatus, IndexErr>) -> Option<BusEvent> {
    match res {
        Ok(IndexStatus::TestsSetChanged) => Some(BusEvent::TestsSetChanged),
        Ok(IndexStatus::TestsSetNotChanged) => Some(BusEvent::TestsSetNotChanged),
        _ => None,
    }
}

pub open spec fn coverage_finish(res: Result<CoverageRunStatus, CoverageErr>) -> CoverageState {
    match res {
        Ok(CoverageRunStatus::Success(v)) => CoverageState::Success(v),
        _ => CoverageState::Failure,
    }
}

/// Publishes a change once the watcher has seen one.
pub struct ChangeWatcherShell;

impl ChangeWatcherShell {
    pub fn new() -> Self {
        ChangeWatcherShell
    }

    /// The event published for a change seen by the watcher.
    pub fn on_change(&self) -> (r: BusEvent)
        ensures
            r == BusEvent::ChangeDetected,
    {
        trigger_tests()
    }
}

/// The event that starts a sweep.
pub fn trigger_tests() -> (r: BusEvent)
    ensures
        r == BusEvent::ChangeDetected,
{
    BusEvent::ChangeDetected
}

/// Runs the compile check on each detected change.
pub struct CheckShell;

impl CheckShell {
    pub fn new() -> Self {
        CheckShell
    }

    /// The status to write before running the check, or `None` when the event is not
    /// the one this worker waits for.
    pub fn start(&self, ev: BusEvent) -> (r: Option<CheckState>)
        ensures
            r == (if ev == BusEvent::ChangeDetected {
                Some(CheckState::Pending)
            } else {
                None::<CheckState>
            }),
    {
        if ev == BusEvent::ChangeDetected {
            Some(CheckState::Pending)
        } else {
            None
        }
    }

    /// The status to write and the event to publish once the check has run; a runner
    /// error counts as a failed check.
    pub fn finish(&self, res: &Result<CheckRunStatus, CheckErr>) -> (r: (CheckState, BusEvent))
        ensures
            r == check_finish(*res),
    {
        match res {
            Ok(CheckRunStatus::Success) => (CheckState::Success, BusEvent::CheckPassed),
            _ => (CheckState::Failure, BusEvent::CheckFailed),
        }
    }

    /// One turn of the worker, run in place: on `ChangeDetected` the check status is
    /// written pending, the runner runs once, and its outcome is written and returned
    /// as the event to publish. Any other event leaves everything as it was.
    pub fn step<R: CRunner>(&self, ev: BusEvent, runner: &mut R, state: &mut StateValues) -> (r:
        Option<BusEvent>)
        ensures
            ev != BusEvent::ChangeDetected ==> r is None && final(state).check_cell() == old(
                state).check_cell() && final(state).writes() == old(state).writes() && *final(
                runner) == *old(runner),
            ev == BusEvent::ChangeDetected ==> exists|res: Result<CheckRunStatus, CheckErr>|
                {
                    &&& old(runner).answers(res)
                    &&& *final(runner) == old(runner).after(res)
                    &&& r == Some(check_finish(res).1)
                    &&& final(state).check_cell() == check_finish(res).0
                    &&& final(state).writes() == old(state).writes() + seq![
                        StageWrite::Check(CheckState::Pending),
                        StageWrite::Check(check_finish(res).0),
                    ]
                },
            final(state).tests_cell() == old(state).tests_cell(),
            final(state).coverage_cell() == old(state).coverage_cell(),
            final(state).root_cell() == old(state).root_cell(),
    {
        match self.start(ev) {
            None => None,
            Some(pending) => {
                state.write_check(pending);
                let res = runner.run(state.repo_root());
                let (status, out) = self.finish(&res);
                state.write_check(status);
                Some(out)
            },
        }
    }
}

/// Runs the tests once the check has passed.
pub struct TestsShell;

impl TestsShell {
    pub fn new() -> Self {
        TestsShell
    }

    pub fn start(&self, ev: BusEvent) -> (r: Option<TestsState>)
        ensures
            r == (if ev == BusEvent::CheckPassed {
                Some(TestsState::Pending)
            } else {
                None::<TestsState>
            }),
    {
        if ev == BusEvent::CheckPassed {
            Some(TestsState::Pending)
        } else {
            None
        }
    }

    /// A runner error counts as failed tests.
    pub fn finish(&self, res: &Result<TestsRunStatus, RunnerErr>) -> (r: (TestsState, BusEvent))
        ensures
            r == tests_finish(*res),
    {
        match res {
            Ok(TestsRunStatus::Success) => (TestsState::Success, BusEvent::TestsPassed),
            _ => (TestsState::Failure, BusEvent::TestsFailed),
        }
    }

    /// One turn of the worker, run in place: on `CheckPassed` the tests status goes to
    /// pending, the runner runs, and its outcome is written and returned as the event
    /// to publish. Any other event leaves everything as it was.
    pub fn step<R: TRunner>(&self, ev: BusEvent, runner: &mut R, state: &mut StateValues) -> (r:
        Option<BusEvent>)
        ensures
            ev != BusEvent::CheckPassed ==> r is None && final(state).tests_cell() == old(state).tests_cell() && *final(runner) == *old(runner),
            ev == BusEvent::CheckPassed ==> exists|res: Result<TestsRunStatus, RunnerErr>|
                old(runner).answers(res) && r == Some(tests_finish(res).1) && final(state).tests_cell() == tests_finish(res).0,
            final(state).check_cell() == old(state).check_cell(),
            final(state).coverage_cell() == old(state).coverage_cell(),
            final(state).root_cell() == old(state).root_cell(),
    {
        match self.start(ev) {
            None => None,
            Some(pending) => {
                state.write_tests(pending);
                let res = runner.run(state.repo_root());
                let (status, out) = self.finish(&res);
                state.write_tests(status);
                Some(out)
            },
        }
    }
}

/// Refreshes the tests index once the tests have passed.
pub struct TestsIndexShell;

impl TestsIndexShell {
    pub fn new() -> Self {
        TestsIndexShell
    }

    pub fn start(&self, ev: BusEvent) -> (r: bool)
        ensures
            r == (ev == BusEvent::TestsPassed),
    {
        ev == BusEvent::TestsPassed
    }

    /// The event to publish after a refresh; a failed refresh publishes nothing.
    pub fn finish(&self, res: &Result<IndexStatus, IndexErr>) -> (r: Option<BusEvent>)
        ensures
            r == index_finish(*res),
    {
        match res {
            Ok(IndexStatus::TestsSetChanged) => Some(BusEvent::TestsSetChanged),
            Ok(IndexStatus::TestsSetNotChanged) => Some(BusEvent::TestsSetNotChanged),
            _ => None,
        }
    }

    /// One turn of the worker, run in place: on `TestsPassed` the index is refreshed
    /// once and the event for its outcome is returned; a failed refresh and any other event
    /// give nothing. The state is only read.
    pub fn step<I: TIndex>(&self, ev: BusEvent, index: &mut I, state: &StateValues) -> (r: Option<
        BusEvent,
    >)
        ensures
            ev != BusEvent::TestsPassed ==> r is None && *final(index) == *old(index),
            ev == BusEvent::TestsPassed ==> exists|res: Result<IndexStatus, IndexErr>|
                {
                    &&& old(index).answers(res)
                    &&& *final(index) == old(index).after(res)
                    &&& r == index_finish(res)
                },
    {
        if self.start(ev) {
            let res = index.refresh(state.repo_root());
            self.finish(&res)
        } else {
            None
        }
    }
}

/// Measures coverage when the set of tests changed; it ends the pipeline.
pub struct CoverageShell;

impl CoverageShell {
    pub fn new() -> Self {
        CoverageShell
    }

    pub fn start(&self, ev: BusEvent) -> (r: Option<CoverageState>)
        ensures
            r == (if ev == BusEvent::TestsSetChanged {
                Some(CoverageState::Pending)
            } else {
                None::<CoverageState>
            }),
    {
        if ev == BusEvent::TestsSetChanged {
            Some(CoverageState::Pending)
        } else {
            None
        }
    }

    /// A runner error or a failed run counts as a coverage failure.
    pub fn finish(&self, res: &Result<CoverageRunStatus, CoverageErr>) -> (r: CoverageState)
        ensures
            r == coverage_finish(*res),
    {
        match res {
            Ok(CoverageRunStatus::Success(v)) => CoverageState::Success(*v),
            _ => CoverageState::Failure,
        }
    }

    /// One turn of the worker, run in place: on `TestsSetChanged` the coverage status is
    /// written pending, the runner runs once, and its outcome is written; nothing is
    /// published. Any other event
    /// leaves everything as it was.
    pub fn step<R: CovRunner>(&self, ev: BusEvent, runner: &mut R, state: &mut StateValues)
        ensures
            ev != BusEvent::TestsSetChanged ==> final(state).coverage_cell() == old(
                state).coverage_cell() && final(state).writes() == old(state).writes() && *final(
                runner) == *old(runner),
            ev == BusEvent::TestsSetChanged ==> exists|res: Result<CoverageRunStatus, CoverageErr>|
                {
                    &&& old(runner).answers(res)
                    &&& *final(runner) == old(runner).after(res)
                    &&& final(state).coverage_cell() == coverage_finish(res)
                    &&& final(state).writes() == old(state).writes() + seq![
                        StageWrite::Coverage(CoverageState::Pending),
                        StageWrite::Coverage(coverage_finish(res)),
                    ]
                },
            final(state).check_cell() == old(state).check_cell(),
            final(state).tests_cell() == old(state).tests_cell(),
            final(state).root_cell() == old(state).root_cell(),
    {
        match self.start(ev) {
            None => {},
            Some(pending) => {
                state.write_coverage(pending);
                let res = runner.run(state.repo_root());
                let status = self.finish(&res);
                state.write_coverage(status);
            },
        }
    }
}

/// The stage writes and the published events of one sweep started by a single
/// `ChangeDetected`, with no other event in flight, given what each runner returns.
pub open spec fn sweep(
    check: Result<CheckRunStatus, CheckErr>,
    tests: Result<TestsRunStatus, RunnerErr>,
    index: Result<IndexStatus, IndexErr>,
    coverage: Result<CoverageRunStatus, CoverageErr>,
) -> (Seq<StageWrite>, Seq<BusEvent>) {
    let (cs, ce) = check_finish(check);
    let w1 = seq![StageWrite::Check(CheckState::Pending), StageWrite::Check(cs)];
    let e1 = seq![BusEvent::ChangeDetected, ce];
    if ce != BusEvent::CheckPassed {
        (w1, e1)
    } else {
        let (ts, te) = tests_finish(tests);
        let w2 = w1 + seq![StageWrite::Tests(TestsState::Pending), StageWrite::Tests(ts)];
        let e2 = e1.push(te);
        if te != BusEvent::TestsPassed {
            (w2, e2)
        } else {
            match index_finish(index) {
                None => (w2, e2),
                Some(ie) => if ie != BusEvent::TestsSetChanged {
                    (w2, e2.push(ie))
                } else {
                    (
                        w2 + seq![
                            StageWrite::Coverage(CoverageState::Pending),
                            StageWrite::Coverage(coverage_finish(coverage)),
                        ],
                        e2.push(ie),
                    )
                },
            }
        }
    }
}

/// The stage a write goes to, in dependency order.
pub open spec fn stage_rank(w: StageWrite) -> int {
    match w {
        StageWrite::Check(_) => 0,
        StageWrite::Tests(_) => 1,
        StageWrite::Coverage(_) => 2,
    }
}

pub open spec fn is_pending(w: StageWrite) -> bool {
    match w {
        StageWrite::Check(s) => s == CheckState::Pending,
        StageWrite::Tests(s) => s == TestsState::Pending,
        StageWrite::Coverage(s) => s == CoverageState::Pending,
    }
}

/// In one sweep each stage moves at most once from pending to a result, and the stages
/// that move do so in dependency order: the writes are pairs (pending, then success or
/// failure) for the check, the tests and the coverage, in that order, stopping at the
/// first stage whose precondition event is not published. The events of the sweep
/// follow the same order: `ChangeDetected`, then the check's, the tests' and the
/// index's outcome.
pub proof fn lemma_sweep_monotonic(
    check: Result<CheckRunStatus, CheckErr>,
    tests: Result<TestsRunStatus, RunnerErr>,
    index: Result<IndexStatus, IndexErr>,
    coverage: Result<CoverageRunStatus, CoverageErr>,
)
    ensures
        ({
            let (w, e) = sweep(check, tests, index, coverage);
            &&& w.len() == 2 || w.len() == 4 || w.len() == 6
            &&& forall|j: int|
                0 <= j < w.len() / 2 ==> {
                    &&& stage_rank(#[trigger] w[2 * j]) == j
                    &&& stage_rank(w[2 * j + 1]) == j
                    &&& is_pending(w[2 * j])
                    &&& !is_pending(w[2 * j + 1])
                }
            &&& e[0] == BusEvent::ChangeDetected
            &&& e.len() >= 2
            &&& (e[1] == BusEvent::CheckPassed) == (w.len() >= 4)
            &&& e.len() >= 3 ==> e[1] == BusEvent::CheckPassed
            &&& e.len() >= 4 ==> e[2] == BusEvent::TestsPassed
            &&& (w.len() == 6) == (e.len() == 4 && e[3] == BusEvent::TestsSetChanged)
        }),
{
    let (w, e) = sweep(check, tests, index, coverage);
    assert forall|j: int| 0 <= j < w.len() / 2 implies {
        &&& stage_rank(#[trigger] w[2 * j]) == j
        &&& stage_rank(w[2 * j + 1]) == j
        &&& is_pending(w[2 * j])
        &&& !is_pending(w[2 * j + 1])
    } by {
        assert(j == 0 || j == 1 || j == 2);
    }
}

/// One whole sweep run in place, as the workers run it when a single `ChangeDetected` is
/// in flight: each stage's worker takes the event published by the one before it.
/// Returns the trace of the sweep: the stage writes in the order they were made and the
/// events in the order they were published. The trace is the sweep for what the runners
/// answered, so each stage moves at most once from pending to a result, in dependency
/// order, and a stage runs only when the one before it published its precondition.
pub fn run_sweep<C: CRunner, T: TRunner, I: TIndex, V: CovRunner>(
    check: &mut C,
    tests: &mut T,
    index: &mut I,
    coverage: &mut V,
    state: &mut StateValues,
) -> (r: (Vec<StageWrite>, Vec<BusEvent>))
    ensures
        exists|
            c: Result<CheckRunStatus, CheckErr>,
            t: Result<TestsRunStatus, RunnerErr>,
            i: Result<IndexStatus, IndexErr>,
            v: Result<CoverageRunStatus, CoverageErr>,
        |
            {
                &&& (r.0@, r.1@) == sweep(c, t, i, v)
                &&& old(check).answers(c)
                &&& *final(check) == old(check).after(c)
                &&& r.0@.len() >= 4 ==> old(tests).answers(t) && *final(tests) == old(tests).after(
                    t,
                )
                &&& r.1@.len() >= 3 && r.1@[2] == BusEvent::TestsPassed ==> old(index).answers(i)
                    && *final(index) == old(index).after(i)
                &&& r.0@.len() == 6 ==> old(coverage).answers(v) && *final(coverage) == old(
                    coverage,
                ).after(v)
            },
        !(r.1@.len() >= 3 && r.1@[2] == BusEvent::TestsPassed) ==> *final(index) == *old(index),
        final(state).writes() == old(state).writes() + r.0@,
        r.0@.len() == 2 || r.0@.len() == 4 || r.0@.len() == 6,
        forall|j: int|
            0 <= j < r.0@.len() / 2 ==> {
                &&& stage_rank(#[trigger] r.0@[2 * j]) == j
                &&& stage_rank(r.0@[2 * j + 1]) == j
                &&& is_pending(r.0@[2 * j])
                &&& !is_pending(r.0@[2 * j + 1])
            },
        r.1@[0] == BusEvent::ChangeDetected,
        r.1@.len() >= 2,
        (r.1@[1] == BusEvent::CheckPassed) == (r.0@.len() >= 4),
        r.1@.len() >= 3 ==> r.1@[1] == BusEvent::CheckPassed,
        r.1@.len() >= 4 ==> r.1@[2] == BusEvent::TestsPassed,
        (r.0@.len() == 6) == (r.1@.len() == 4 && r.1@[3] == BusEvent::TestsSetChanged),
        r.0@.len() < 4 ==> *final(tests) == *old(tests) && final(state).tests_cell() == old(
            state).tests_cell(),
        r.0@.len() < 6 ==> *final(coverage) == *old(coverage) && final(state).coverage_cell()
            == old(state).coverage_cell(),
        r.0@[1] == StageWrite::Check(final(state).check_cell()),
        r.0@.len() >= 4 ==> r.0@[3] == StageWrite::Tests(final(state).tests_cell()),
        r.0@.len() == 6 ==> r.0@[5] == StageWrite::Coverage(final(state).coverage_cell()),
        final(state).root_cell() == old(state).root_cell(),
{
    let mut writes: Vec<StageWrite> = Vec::new();
    let mut events: Vec<BusEvent> = Vec::new();
    events.push(BusEvent::ChangeDetected);
    let ghost mut t: Result<TestsRunStatus, RunnerErr> = Ok(TestsRunStatus::Failure);
    let ghost mut i: Result<IndexStatus, IndexErr> = Ok(IndexStatus::Failure);
    let ghost mut v: Result<CoverageRunStatus, CoverageErr> = Ok(CoverageRunStatus::Failure);
    let check_shell = CheckShell::new();
    state.write_check(CheckState::Pending);
    writes.push(StageWrite::Check(CheckState::Pending));
    let c = check.run(state.repo_root());
    let (cs, ce) = check_shell.finish(&c);
    state.write_check(cs);
    writes.push(StageWrite::Check(cs));
    events.push(ce);
    if ce == BusEvent::CheckPassed {
        let tests_shell = TestsShell::new();
        state.write_tests(TestsState::Pending);
        writes.push(StageWrite::Tests(TestsState::Pending));
        let tr = tests.run(state.repo_root());
        proof {
            t = tr;
        }
        let (ts, te) = tests_shell.finish(&tr);
        state.write_tests(ts);
        writes.push(StageWrite::Tests(ts));
        events.push(te);
        if te == BusEvent::TestsPassed {
            let index_shell = TestsIndexShell::new();
            let ir = index.refresh(state.repo_root());
            proof {
                i = ir;
            }
            match index_shell.finish(&ir) {
                None => {},
                Some(ie) => {
                    events.push(ie);
                    if ie == BusEvent::TestsSetChanged {
                        let coverage_shell = CoverageShell::new();
                        state.write_coverage(CoverageState::Pending);
                        writes.push(StageWrite::Coverage(CoverageState::Pending));
                        let vr = coverage.run(state.repo_root());
                        proof {
                            v = vr;
                        }
                        let vs = coverage_shell.finish(&vr);
                        state.write_coverage(vs);
                        writes.push(StageWrite::Coverage(vs));
                    }
                },
            }
        }
    }
    proof {
        lemma_sweep_monotonic(c, t, i, v);
        let (w, e) = sweep(c, t, i, v);
        assert(writes@ =~= w);
        assert(events@ =~= e);
    }
    (writes, events)
}

/// Whether the coverage worker runs in the sweep after an index refresh that saw the
/// stored set `stored`, the tests status `tests` and the listing output `listing`.
pub open spec fn coverage_runs(
    stored: Set<Seq<char>>,
    tests: TestsState,
    listing: Option<Seq<char>>,
) -> bool {
    index_finish(Ok(refresh_outcome(stored, tests, listing).0)) == Some(BusEvent::TestsSetChanged)
}

/// Coverage is skipped exactly when the listed tests are the stored ones and the last
/// tests run succeeded; otherwise it runs. This holds when the listing command ran, the
/// last tests run ended (in success or failure), and the stored set is not empty or the
/// listing names some test: a first refresh that lists no test still counts as a
/// change.
pub proof fn lemma_skip_correctness(stored: Set<Seq<char>>, tests: TestsState, listing: Seq<char>)
    requires
        tests != TestsState::Pending,
        !(stored == Set::<Seq<char>>::empty() && listed_tests(listing) == stored),
    ensures
        coverage_runs(stored, tests, Some(listing)) <==> !(listed_tests(listing) == stored
            && tests == TestsState::Success),
{
}

} // verus!
