use styleforce::decimal::decimal;
use styleforce::discovery::{display_name, require_testable};
use styleforce::report::summary;
use styleforce::state::{state_name, TestState};

#[test]
fn state_names_are_variant_names() {
    assert_eq!(state_name(&TestState::Pass), "Pass");
    assert_eq!(state_name(&TestState::PassWithFormat), "PassWithFormat");
    assert_eq!(state_name(&TestState::FailedOutput), "FailedOutput");
    assert_eq!(state_name(&TestState::FailedMatch), "FailedMatch");
    assert_eq!(state_name(&TestState::FailedPattern), "FailedPattern");
}

#[test]
fn only_pass_states_pass() {
    assert!(TestState::Pass.is_pass());
    assert!(TestState::PassWithFormat.is_pass());
    assert!(!TestState::FailedOutput.is_pass());
    assert!(!TestState::FailedMatch.is_pass());
    assert!(!TestState::FailedPattern.is_pass());
}

#[test]
fn decimal_matches_display() {
    for n in [0usize, 1, 9, 10, 11, 99, 100, 305, 1000, 65535, 1234567890, usize::MAX] {
        assert_eq!(decimal(n), n.to_string());
    }
}

#[test]
fn summary_when_all_passed() {
    assert_eq!(summary(5, 0, 2), "All 5 samples across 2 patterns passed.");
    assert_eq!(summary(0, 0, 0), "All 0 samples across 0 patterns passed.");
}

#[test]
fn summary_when_some_failed() {
    assert_eq!(summary(12, 3, 4), "3 out of 12 samples failed.");
    assert_eq!(summary(1, 1, 1), "1 out of 1 samples failed.");
}

#[test]
fn no_testable_patterns_is_an_error() {
    let err = require_testable(0).unwrap_err();
    assert_eq!(
        err,
        "No testable patterns found. To test a pattern, make sure it is defined in .grit/grit.yaml or a .md file in your .grit/patterns directory."
    );
    assert_eq!(require_testable(1), Ok(()));
    assert_eq!(require_testable(17), Ok(()));
}

#[test]
fn display_name_prefers_local_name() {
    assert_eq!(display_name(Some("rule_of_three".to_string()), "`x` => `y`".to_string()), "rule_of_three");
    assert_eq!(display_name(None, "`x` => `y`".to_string()), "`x` => `y`");
}
