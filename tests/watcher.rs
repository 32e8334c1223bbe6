use chester::entities::RepoRoot;
use chester::ignored_path::{is_ignored, IgnoredPath};
use chester::watcher::{WatchPhase, WatchState};

fn paths(v: &[&str]) -> Vec<String> {
    v.iter().map(|s| s.to_string()).collect()
}

fn patterns(v: &[&str]) -> Vec<IgnoredPath> {
    v.iter().map(|p| IgnoredPath::new(p).unwrap()).collect()
}

#[test]
fn write_to_file_is_detected_as_change() {
    let mut w = WatchState::make(RepoRoot::new("/repo"), Vec::new());
    assert!(!w.begin_wait(&RepoRoot::new("/repo")));
    assert!(w.on_batch(&paths(&["/repo/some-file"])));
    assert_eq!(w.current_phase(), WatchPhase::Idle);
}

#[test]
fn change_in_ignored_file_is_not_detected() {
    let mut w = WatchState::make(RepoRoot::new("/repo"), patterns(&["target"]));
    w.begin_wait(&RepoRoot::new("/repo"));
    assert!(!w.on_batch(&paths(&["/repo/target"])));
    assert_eq!(w.current_phase(), WatchPhase::Blocked);
}

#[test]
fn change_in_ignored_dir_is_not_detected() {
    let mut w = WatchState::make(RepoRoot::new("/repo"), patterns(&["/repo/sub"]));
    w.begin_wait(&RepoRoot::new("/repo"));
    assert!(!w.on_batch(&paths(&["/repo/sub/some-file"])));
}

#[test]
fn multiple_ignored_paths_are_checked() {
    let mut w = WatchState::make(RepoRoot::new("/repo"), patterns(&[".git", "target"]));
    w.begin_wait(&RepoRoot::new("/repo"));
    assert!(!w.on_batch(&paths(&["/repo/target"])));
}

#[test]
fn regex_is_accepted_in_ignored_path() {
    let mut w = WatchState::make(RepoRoot::new("/repo"), patterns(&[".*123.*456"]));
    w.begin_wait(&RepoRoot::new("/repo"));
    assert!(!w.on_batch(&paths(&["/repo/123something456"])));
}

#[test]
fn when_repo_root_is_changed_watcher_is_reattached() {
    let mut w = WatchState::make(RepoRoot::new("/old"), Vec::new());
    assert!(w.begin_wait(&RepoRoot::new("/new")));
    assert_eq!(w.current_phase(), WatchPhase::Reattaching);
    w.reattached(RepoRoot::new("/new"));
    assert_eq!(w.watched_root(), &RepoRoot::new("/new"));
    assert_eq!(w.current_phase(), WatchPhase::Blocked);
}

#[test]
fn when_repo_root_is_set_to_the_same_value_watcher_is_not_reattached() {
    let mut w = WatchState::make(RepoRoot::new("/repo"), Vec::new());
    assert!(!w.begin_wait(&RepoRoot::new("/repo")));
    assert!(w.on_batch(&paths(&["/repo/a"])));
    assert!(!w.begin_wait(&RepoRoot::new("/repo")));
}

#[test]
fn batch_with_one_unmatched_path_is_a_change() {
    let ignored = patterns(&["target", "\\.git"]);
    assert!(is_ignored(&ignored, &paths(&["/r/target/x", "/r/.git/HEAD"])));
    assert!(!is_ignored(&ignored, &paths(&["/r/target/x", "/r/src/main.rs"])));
    assert!(!is_ignored(&Vec::new(), &paths(&["/r/target/x"])));
}

#[test]
fn failed_reattach_keeps_the_old_root() {
    let mut w = WatchState::make(RepoRoot::new("/old"), Vec::new());
    assert!(w.begin_wait(&RepoRoot::new("/missing")));
    w.abort_wait();
    assert_eq!(w.watched_root(), &RepoRoot::new("/old"));
    assert_eq!(w.current_phase(), WatchPhase::Idle);
}

#[test]
fn invalid_pattern_is_refused() {
    assert!(IgnoredPath::new("(").is_err());
    let p = IgnoredPath::new("tar.et").unwrap();
    assert!(p.matched_by("/repo/target"));
    assert!(!p.matched_by("/repo/src"));
}

#[test]
fn same_root_written_differently_is_not_reattached() {
    let mut w = WatchState::make(RepoRoot::new("/repo"), Vec::new());
    assert!(!w.begin_wait(&RepoRoot::new("/repo/")));
    assert!(!w.begin_wait(&RepoRoot::new("/repo/./")));
}
