use chester::entities::TestsState;
use chester::runners::IndexStatus;
use chester::tests_index::{parse_listing, DefaultTestsIndex};

fn names(v: &[&str]) -> Vec<String> {
    v.iter().map(|s| s.to_string()).collect()
}

#[test]
fn when_tests_previously_failed_tests_changed_status_is_returned() {
    let mut index = DefaultTestsIndex::make();
    assert_eq!(index.begin_refresh(TestsState::Failure), Some(IndexStatus::TestsSetChanged));
    let res = index.refresh(TestsState::Failure, None);
    assert_eq!(res, IndexStatus::TestsSetChanged);
}

#[test]
fn when_list_tests_command_fail_then_failure_status_is_returned() {
    let mut index = DefaultTestsIndex::make();
    assert_eq!(index.begin_refresh(TestsState::Success), None);
    let res = index.refresh(TestsState::Success, None);
    assert_eq!(res, IndexStatus::Failure);
}

#[test]
fn when_tests_did_not_change_correct_status_is_returned() {
    let mut index = DefaultTestsIndex::with_tests(names(&["test1", "test2", "test3"]));
    let res = index.refresh(TestsState::Success, Some("test1\ntest2\ntest3\n".to_string()));
    assert_eq!(res, IndexStatus::TestsSetNotChanged);
}

#[test]
fn when_initial_tests_set_is_empty_correct_status_is_returned() {
    let mut index = DefaultTestsIndex::make();
    let res = index.refresh(TestsState::Success, Some("test1\ntest2\ntest3\n\n".to_string()));
    assert_eq!(res, IndexStatus::TestsSetChanged);
    assert_eq!(index.tests(), &names(&["test1", "test2", "test3"]));
}

#[test]
fn when_tests_changed_correct_status_is_returned() {
    let mut index = DefaultTestsIndex::with_tests(names(&["different-test"]));
    let res = index.refresh(TestsState::Success, Some("some-test\n\n".to_string()));
    assert_eq!(res, IndexStatus::TestsSetChanged);
    assert_eq!(index.tests(), &names(&["some-test"]));
}

#[test]
fn second_refresh_with_the_same_listing_is_unchanged() {
    let mut index = DefaultTestsIndex::make();
    let listing = "a\nb\n".to_string();
    assert_eq!(index.refresh(TestsState::Success, Some(listing.clone())), IndexStatus::TestsSetChanged);
    assert_eq!(index.refresh(TestsState::Success, Some(listing)), IndexStatus::TestsSetNotChanged);
    assert_eq!(index.refresh(TestsState::Failure, Some("a\nb\n".to_string())), IndexStatus::TestsSetChanged);
}

#[test]
fn order_and_repeats_do_not_change_the_set() {
    let mut index = DefaultTestsIndex::with_tests(names(&["b", "a"]));
    let res = index.refresh(TestsState::Success, Some("a\r\nb\na\n".to_string()));
    assert_eq!(res, IndexStatus::TestsSetNotChanged);
}

#[test]
fn empty_listing_after_an_empty_set_is_a_change() {
    let mut index = DefaultTestsIndex::make();
    assert_eq!(index.refresh(TestsState::Success, Some(String::new())), IndexStatus::TestsSetChanged);
    assert!(index.tests().is_empty());
}

#[test]
fn listing_keeps_distinct_non_blank_lines() {
    assert_eq!(parse_listing(&"x\n\ny\r\nx\nz".to_string()), names(&["x", "y", "z"]));
    assert_eq!(parse_listing(&"\n\n".to_string()), names(&[]));
}

#[test]
fn blank_lines_are_not_test_names() {
    let mut index = DefaultTestsIndex::with_tests(names(&["a"]));
    let res = index.refresh(TestsState::Success, Some("a\n \n\t\n".to_string()));
    assert_eq!(res, IndexStatus::TestsSetNotChanged);
    let mut fresh = DefaultTestsIndex::make();
    assert_eq!(fresh.refresh(TestsState::Success, Some("a\n \n".to_string())), IndexStatus::TestsSetChanged);
    assert_eq!(fresh.tests(), &names(&["a"]));
}

#[test]
fn stored_names_are_in_lexicographic_order() {
    let mut index = DefaultTestsIndex::make();
    index.refresh(TestsState::Success, Some("tests::b\ntests::a\nmod::z\ntests::a\n".to_string()));
    assert_eq!(index.tests(), &names(&["mod::z", "tests::a", "tests::b"]));
    let index = DefaultTestsIndex::with_tests(names(&["c", "ab", "a"]));
    assert_eq!(index.tests(), &names(&["a", "ab", "c"]));
}
