use chester::bus::BusEvent;
use chester::entities::{CheckState, CoverageState, RepoRoot, TestsState};
use chester::state::StateValues;

#[test]
fn pending_tests_status_is_set_as_default() {
    let state = StateValues::new();
    assert_eq!(state.tests(), TestsState::Pending);
}

#[test]
fn pending_check_status_is_set_as_default() {
    let state = StateValues::new();
    assert_eq!(state.check(), CheckState::Pending);
}

#[test]
fn pending_coverage_status_is_set_as_default() {
    let state = StateValues::new();
    assert_eq!(state.coverage(), CoverageState::Pending);
}

#[test]
fn empty_root_is_set_as_default() {
    let state = StateValues::new();
    assert_eq!(state.repo_root(), RepoRoot::new(""));
}

#[test]
fn tests_status_written_to_state_can_be_read() {
    let mut state = StateValues::new();
    assert_eq!(state.tests(), TestsState::Pending);
    state.write_tests(TestsState::Success);
    assert_eq!(state.tests(), TestsState::Success);
}

#[test]
fn check_status_written_to_state_can_be_read() {
    let mut state = StateValues::new();
    assert_eq!(state.check(), CheckState::Pending);
    state.write_check(CheckState::Success);
    assert_eq!(state.check(), CheckState::Success);
}

#[test]
fn coverage_status_written_to_state_can_be_read() {
    let mut state = StateValues::new();
    assert_eq!(state.coverage(), CoverageState::Pending);
    state.write_coverage(CoverageState::Success(9000));
    assert_eq!(state.coverage(), CoverageState::Success(9000));
}

#[test]
fn repo_root_written_to_state_can_be_read() {
    let mut state = StateValues::new();
    let root = "some/project/root";
    assert_eq!(state.repo_root(), RepoRoot::default());
    state.write_repo_root(RepoRoot::new(root));
    assert_eq!(state.repo_root(), RepoRoot::new(root));
}

#[test]
fn change_in_repo_root_publishes_change_detected_message() {
    let mut state = StateValues::new();
    let events = state.write_repo_root(RepoRoot::new("/new"));
    assert_eq!(events, vec![BusEvent::ChangeDetected]);
}

#[test]
fn writing_one_cell_leaves_the_others() {
    let mut state = StateValues::new();
    state.write_check(CheckState::Failure);
    assert_eq!(state.tests(), TestsState::Pending);
    assert_eq!(state.coverage(), CoverageState::Pending);
    assert_eq!(state.repo_root(), RepoRoot::new(""));
}

#[test]
fn app_state_reader_has_debug_implemented() {
    let mut state = StateValues::new();
    state.write_repo_root(RepoRoot::new("/some/path"));
    let res = state.describe();
    assert_eq!(res, "status: pending, repo_root: /some/path");
}
