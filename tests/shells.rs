use chester::bus::BusEvent;
use chester::entities::{CheckState, CoverageState, RepoRoot, TestsState};
use chester::runners::{
    CRunner, CheckRunStatus, CovRunner, CoverageRunStatus, IndexStatus, TRunner, TestsRunStatus,
};
use chester::shells::{
    run_sweep, trigger_tests, ChangeWatcherShell, CheckShell, CoverageShell, TestsIndexShell,
    TestsShell,
};
use chester::state::{StageWrite, StateValues};
use chester::testingtools::{check_runner, coverage_runner, test_runner, tests_index};

/// Runs the check worker on `ev`, recording the statuses it writes.
fn check_turn<R: CRunner>(ev: BusEvent, runner: &mut R, writes: &mut Vec<CheckState>) -> Option<BusEvent> {
    let shell = CheckShell::new();
    let pending = shell.start(ev)?;
    writes.push(pending);
    let (status, out) = shell.finish(&runner.run(RepoRoot::default()));
    writes.push(status);
    Some(out)
}

fn tests_turn<R: TRunner>(ev: BusEvent, runner: &mut R, writes: &mut Vec<TestsState>) -> Option<BusEvent> {
    let shell = TestsShell::new();
    let pending = shell.start(ev)?;
    writes.push(pending);
    let (status, out) = shell.finish(&runner.run(RepoRoot::default()));
    writes.push(status);
    Some(out)
}

fn coverage_turn<R: CovRunner>(ev: BusEvent, runner: &mut R, writes: &mut Vec<CoverageState>) {
    let shell = CoverageShell::new();
    if let Some(pending) = shell.start(ev) {
        writes.push(pending);
        writes.push(shell.finish(&runner.run(RepoRoot::default())));
    }
}

#[test]
fn check_is_run_when_any_change_is_detected() {
    let mut runner = check_runner::track(check_runner::working(CheckRunStatus::Success));
    let mut state = StateValues::new();
    CheckShell::new().step(BusEvent::ChangeDetected, &mut runner, &mut state);
    assert!(runner.run_called());
}

#[test]
fn when_check_pass_there_is_correct_event_on_the_bus() {
    let mut runner = check_runner::working(CheckRunStatus::Success);
    let mut state = StateValues::new();
    let ev = CheckShell::new().step(BusEvent::ChangeDetected, &mut runner, &mut state);
    assert_eq!(ev, Some(BusEvent::CheckPassed));
}

#[test]
fn when_check_succeeds_state_is_set_to_pending_then_success() {
    let mut runner = check_runner::working(CheckRunStatus::Success);
    let mut writes = Vec::new();
    check_turn(BusEvent::ChangeDetected, &mut runner, &mut writes);
    assert_eq!(writes[0], CheckState::Pending);
    assert_eq!(writes[1], CheckState::Success);
}

#[test]
fn when_check_fail_there_is_correct_event_on_the_bus() {
    let mut runner = check_runner::working(CheckRunStatus::Failure);
    let mut state = StateValues::new();
    let ev = CheckShell::new().step(BusEvent::ChangeDetected, &mut runner, &mut state);
    assert_eq!(ev, Some(BusEvent::CheckFailed));
}

#[test]
fn when_check_fail_state_is_set_to_pending_then_failure() {
    let mut runner = check_runner::working(CheckRunStatus::Failure);
    let mut writes = Vec::new();
    check_turn(BusEvent::ChangeDetected, &mut runner, &mut writes);
    assert_eq!(writes[0], CheckState::Pending);
    assert_eq!(writes[1], CheckState::Failure);
}

#[test]
fn when_check_runner_fails_correct_event_is_sent() {
    let mut runner = check_runner::failing();
    let mut state = StateValues::new();
    let ev = CheckShell::new().step(BusEvent::ChangeDetected, &mut runner, &mut state);
    assert_eq!(ev, Some(BusEvent::CheckFailed));
    assert_eq!(state.check(), CheckState::Failure);
}

#[test]
fn when_check_runner_fails_status_is_set_to_pending_then_failure() {
    let mut runner = check_runner::failing();
    let mut writes = Vec::new();
    check_turn(BusEvent::ChangeDetected, &mut runner, &mut writes);
    assert_eq!(writes, vec![CheckState::Pending, CheckState::Failure]);
}

#[test]
fn check_ignores_other_events() {
    let mut runner = check_runner::track(check_runner::working(CheckRunStatus::Success));
    let mut state = StateValues::new();
    let ev = CheckShell::new().step(BusEvent::TestsPassed, &mut runner, &mut state);
    assert_eq!(ev, None);
    assert!(!runner.run_called());
}

#[test]
fn coverage_is_not_started_when_change_is_detected() {
    let mut runner = coverage_runner::track(coverage_runner::working(CoverageRunStatus::Success(2000)));
    let mut state = StateValues::new();
    CoverageShell::new().step(BusEvent::ChangeDetected, &mut runner, &mut state);
    assert!(!runner.run_called());
}

#[test]
fn coverage_is_started_when_tests_changed() {
    let mut runner = coverage_runner::track(coverage_runner::working(CoverageRunStatus::Success(2000)));
    let mut state = StateValues::new();
    CoverageShell::new().step(BusEvent::TestsSetChanged, &mut runner, &mut state);
    assert!(runner.run_called());
    assert_eq!(state.coverage(), CoverageState::Success(2000));
}

#[test]
fn when_coverage_pass_state_is_set_to_pending_then_failure() {
    let mut runner = coverage_runner::working(CoverageRunStatus::Success(2000));
    let mut writes = Vec::new();
    coverage_turn(BusEvent::TestsSetChanged, &mut runner, &mut writes);
    assert_eq!(writes[0], CoverageState::Pending);
    assert_eq!(writes[1], CoverageState::Success(2000));
}

#[test]
fn when_coverage_fail_state_is_set_to_pending_then_failure() {
    let mut runner = coverage_runner::working(CoverageRunStatus::Failure);
    let mut writes = Vec::new();
    coverage_turn(BusEvent::TestsSetChanged, &mut runner, &mut writes);
    assert_eq!(writes, vec![CoverageState::Pending, CoverageState::Failure]);
}

#[test]
fn when_coverage_runner_fail_state_is_set_to_pending_then_failure() {
    let mut runner = coverage_runner::failing();
    let mut writes = Vec::new();
    coverage_turn(BusEvent::TestsSetChanged, &mut runner, &mut writes);
    assert_eq!(writes, vec![CoverageState::Pending, CoverageState::Failure]);
}

#[test]
fn index_is_started_when_tests_passed() {
    let mut index = tests_index::track(tests_index::working(IndexStatus::TestsSetChanged));
    let state = StateValues::new();
    TestsIndexShell::new().step(BusEvent::TestsPassed, &mut index, &state);
    assert!(index.refresh_called());
}

#[test]
fn when_tests_changed_there_is_correct_event_on_the_bus() {
    let mut index = tests_index::working(IndexStatus::TestsSetChanged);
    let state = StateValues::new();
    let ev = TestsIndexShell::new().step(BusEvent::TestsPassed, &mut index, &state);
    assert_eq!(ev, Some(BusEvent::TestsSetChanged));
}

#[test]
fn when_tests_did_not_change_there_is_correct_event_on_the_bus() {
    let mut index = tests_index::working(IndexStatus::TestsSetNotChanged);
    let state = StateValues::new();
    let ev = TestsIndexShell::new().step(BusEvent::TestsPassed, &mut index, &state);
    assert_eq!(ev, Some(BusEvent::TestsSetNotChanged));
}

#[test]
fn when_index_fails_to_refresh_nothing_is_on_the_bus() {
    let mut index = tests_index::failing();
    let state = StateValues::new();
    let ev = TestsIndexShell::new().step(BusEvent::TestsPassed, &mut index, &state);
    assert_eq!(ev, None);
}

#[test]
fn when_indexing_command_fails_there_is_no_event_on_the_bus() {
    let mut index = tests_index::working(IndexStatus::Failure);
    let state = StateValues::new();
    let ev = TestsIndexShell::new().step(BusEvent::TestsPassed, &mut index, &state);
    assert_eq!(ev, None);
}

#[test]
fn tests_are_started_when_check_passed() {
    let mut runner = test_runner::track(test_runner::working(TestsRunStatus::Success));
    let mut state = StateValues::new();
    TestsShell::new().step(BusEvent::CheckPassed, &mut runner, &mut state);
    assert!(runner.run_called());
}

#[test]
fn tests_shell_when_tests_pass_there_is_correct_event_on_the_bus() {
    let mut runner = test_runner::working(TestsRunStatus::Success);
    let mut state = StateValues::new();
    let ev = TestsShell::new().step(BusEvent::CheckPassed, &mut runner, &mut state);
    assert_eq!(ev, Some(BusEvent::TestsPassed));
}

#[test]
fn when_tests_pass_state_is_set_to_pending_then_success() {
    let mut runner = test_runner::working(TestsRunStatus::Success);
    let mut writes = Vec::new();
    tests_turn(BusEvent::CheckPassed, &mut runner, &mut writes);
    assert_eq!(writes[0], TestsState::Pending);
    assert_eq!(writes[1], TestsState::Success);
}

#[test]
fn tests_shell_when_tests_fail_there_is_correct_event_on_the_bus() {
    let mut runner = test_runner::working(TestsRunStatus::Failure);
    let mut state = StateValues::new();
    let ev = TestsShell::new().step(BusEvent::CheckPassed, &mut runner, &mut state);
    assert_eq!(ev, Some(BusEvent::TestsFailed));
}

#[test]
fn when_tests_fail_state_is_set_to_pending_then_failure() {
    let mut runner = test_runner::working(TestsRunStatus::Failure);
    let mut writes = Vec::new();
    tests_turn(BusEvent::CheckPassed, &mut runner, &mut writes);
    assert_eq!(writes, vec![TestsState::Pending, TestsState::Failure]);
}

#[test]
fn tests_shell_when_test_runner_fails_correct_event_is_sent() {
    let mut runner = test_runner::failing();
    let mut state = StateValues::new();
    let ev = TestsShell::new().step(BusEvent::CheckPassed, &mut runner, &mut state);
    assert_eq!(ev, Some(BusEvent::TestsFailed));
}

#[test]
fn when_test_runner_fails_state_is_set_to_pending_then_failure() {
    let mut runner = test_runner::failing();
    let mut writes = Vec::new();
    tests_turn(BusEvent::CheckPassed, &mut runner, &mut writes);
    assert_eq!(writes, vec![TestsState::Pending, TestsState::Failure]);
}

#[test]
fn watcher_any_change_in_watched_repo_triggers_tests() {
    assert_eq!(trigger_tests(), BusEvent::ChangeDetected);
}

#[test]
fn watcher_shell_any_change_in_watched_repo_triggers_tests() {
    assert_eq!(ChangeWatcherShell::new().on_change(), BusEvent::ChangeDetected);
}

#[test]
fn happy_path_sweep_runs_every_stage_in_order() {
    let mut state = StateValues::new();
    let mut check = check_runner::working(CheckRunStatus::Success);
    let mut tests = test_runner::working(TestsRunStatus::Success);
    let mut index = tests_index::working(IndexStatus::TestsSetChanged);
    let mut coverage = coverage_runner::working(CoverageRunStatus::Success(5000));
    let mut events = vec![BusEvent::ChangeDetected];
    let e1 = CheckShell::new().step(BusEvent::ChangeDetected, &mut check, &mut state).unwrap();
    events.push(e1);
    let e2 = TestsShell::new().step(e1, &mut tests, &mut state).unwrap();
    events.push(e2);
    let e3 = TestsIndexShell::new().step(e2, &mut index, &state).unwrap();
    events.push(e3);
    CoverageShell::new().step(e3, &mut coverage, &mut state);
    assert_eq!(
        events,
        vec![BusEvent::ChangeDetected, BusEvent::CheckPassed, BusEvent::TestsPassed, BusEvent::TestsSetChanged]
    );
    assert_eq!(state.check(), CheckState::Success);
    assert_eq!(state.tests(), TestsState::Success);
    assert_eq!(state.coverage(), CoverageState::Success(5000));
}

#[test]
fn failed_check_stops_the_sweep() {
    let mut state = StateValues::new();
    let mut check = check_runner::working(CheckRunStatus::Failure);
    let mut tests = test_runner::track(test_runner::working(TestsRunStatus::Success));
    let e1 = CheckShell::new().step(BusEvent::ChangeDetected, &mut check, &mut state).unwrap();
    assert_eq!(e1, BusEvent::CheckFailed);
    assert_eq!(TestsShell::new().step(e1, &mut tests, &mut state), None);
    assert!(!tests.run_called());
    assert_eq!(state.check(), CheckState::Failure);
    assert_eq!(state.tests(), TestsState::Pending);
    assert_eq!(state.coverage(), CoverageState::Pending);
}

#[test]
fn unchanged_tests_set_skips_coverage() {
    let mut state = StateValues::new();
    state.write_coverage(CoverageState::Success(5000));
    let mut coverage = coverage_runner::track(coverage_runner::working(CoverageRunStatus::Success(100)));
    CoverageShell::new().step(BusEvent::TestsSetNotChanged, &mut coverage, &mut state);
    assert!(!coverage.run_called());
    assert_eq!(state.coverage(), CoverageState::Success(5000));
}

#[test]
fn one_sweep_moves_each_stage_once_in_order() {
    let mut state = StateValues::new();
    let mut check = check_runner::working(CheckRunStatus::Success);
    let mut tests = test_runner::working(TestsRunStatus::Success);
    let mut index = tests_index::working(IndexStatus::TestsSetChanged);
    let mut coverage = coverage_runner::track(coverage_runner::working(CoverageRunStatus::Success(5000)));
    let (writes, events) = run_sweep(&mut check, &mut tests, &mut index, &mut coverage, &mut state);
    assert_eq!(
        writes,
        vec![
            StageWrite::Check(CheckState::Pending),
            StageWrite::Check(CheckState::Success),
            StageWrite::Tests(TestsState::Pending),
            StageWrite::Tests(TestsState::Success),
            StageWrite::Coverage(CoverageState::Pending),
            StageWrite::Coverage(CoverageState::Success(5000)),
        ]
    );
    assert_eq!(
        events,
        vec![BusEvent::ChangeDetected, BusEvent::CheckPassed, BusEvent::TestsPassed, BusEvent::TestsSetChanged]
    );
    assert!(coverage.run_called());
    assert_eq!(state.coverage(), CoverageState::Success(5000));
}

#[test]
fn sweep_with_unchanged_tests_skips_coverage() {
    let mut state = StateValues::new();
    let mut check = check_runner::working(CheckRunStatus::Success);
    let mut tests = test_runner::working(TestsRunStatus::Success);
    let mut index = tests_index::working(IndexStatus::TestsSetNotChanged);
    let mut coverage = coverage_runner::track(coverage_runner::working(CoverageRunStatus::Success(100)));
    let (writes, events) = run_sweep(&mut check, &mut tests, &mut index, &mut coverage, &mut state);
    assert_eq!(writes.len(), 4);
    assert_eq!(events.last(), Some(&BusEvent::TestsSetNotChanged));
    assert!(!coverage.run_called());
    assert_eq!(state.coverage(), CoverageState::Pending);
}

#[test]
fn sweep_with_failing_check_runner_stops_after_check() {
    let mut state = StateValues::new();
    let mut check = check_runner::failing();
    let mut tests = test_runner::track(test_runner::working(TestsRunStatus::Success));
    let mut index = tests_index::working(IndexStatus::TestsSetChanged);
    let mut coverage = coverage_runner::working(CoverageRunStatus::Success(100));
    let (writes, events) = run_sweep(&mut check, &mut tests, &mut index, &mut coverage, &mut state);
    assert_eq!(writes, vec![StageWrite::Check(CheckState::Pending), StageWrite::Check(CheckState::Failure)]);
    assert_eq!(events, vec![BusEvent::ChangeDetected, BusEvent::CheckFailed]);
    assert!(!tests.run_called());
}

#[test]
fn spy_uses_up_one_record_per_answer() {
    let mut runner = check_runner::track(check_runner::working(CheckRunStatus::Success));
    let mut state = StateValues::new();
    assert!(!runner.run_called());
    CheckShell::new().step(BusEvent::ChangeDetected, &mut runner, &mut state);
    assert!(runner.run_called());
    assert!(!runner.run_called());
    let mut index = tests_index::track(tests_index::working(IndexStatus::TestsSetChanged));
    TestsIndexShell::new().step(BusEvent::TestsPassed, &mut index, &state);
    TestsIndexShell::new().step(BusEvent::TestsPassed, &mut index, &state);
    assert!(index.refresh_called());
    assert!(index.refresh_called());
    assert!(!index.refresh_called());
}

#[test]
fn working_runner_answers_the_same_on_every_call() {
    let mut runner = check_runner::working(CheckRunStatus::Failure);
    let mut state = StateValues::new();
    for _ in 0..3 {
        let ev = CheckShell::new().step(BusEvent::ChangeDetected, &mut runner, &mut state);
        assert_eq!(ev, Some(BusEvent::CheckFailed));
    }
}
