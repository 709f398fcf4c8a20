use styleforce::recheck::{recheck_after_format, FormatOutcome};
use styleforce::report::SampleRun;
use styleforce::rewrite::{apply_outcomes, MatchOutcome};
use styleforce::state::TestState;

fn failed_output() -> SampleRun {
    SampleRun {
        name: "sample".to_string(),
        state: TestState::FailedOutput,
        message: Some("Expected output did not match".to_string()),
        expected_output: Some("x = 1".to_string()),
        actual_output: Some("x=1".to_string()),
    }
}

#[test]
fn unavailable_formatting_keeps_the_result() {
    let r = recheck_after_format(failed_output(), FormatOutcome::Unavailable);
    assert_eq!(r.name, "sample");
    assert_eq!(r.state, TestState::FailedOutput);
    assert_eq!(r.message.as_deref(), Some("Expected output did not match"));
    assert_eq!(r.expected_output.as_deref(), Some("x = 1"));
    assert_eq!(r.actual_output.as_deref(), Some("x=1"));
}

#[test]
fn matching_after_formatting_passes_with_format() {
    let r = recheck_after_format(failed_output(), FormatOutcome::Matching);
    assert_eq!(r.name, "sample");
    assert_eq!(r.state, TestState::PassWithFormat);
    assert!(r.state.is_pass());
    assert_eq!(r.message, None);
    assert_eq!(r.expected_output, None);
    assert_eq!(r.actual_output, None);
}

#[test]
fn mismatch_after_formatting_fails_output() {
    let r = recheck_after_format(
        failed_output(),
        FormatOutcome::Mismatch { expected: "x = 1\n".to_string(), actual: "x = 2\n".to_string() },
    );
    assert_eq!(r.state, TestState::FailedOutput);
    assert_eq!(
        r.message.as_deref(),
        Some("Actual output doesn't match expected output, even after formatting")
    );
    assert_eq!(r.expected_output.as_deref(), Some("x = 1\n"));
    assert_eq!(r.actual_output.as_deref(), Some("x = 2\n"));
}

#[test]
fn nothing_rewritten_returns_source_unchanged() {
    assert_eq!(apply_outcomes(&Vec::new(), "a = 1"), Ok("a = 1".to_string()));
    assert_eq!(
        apply_outcomes(&vec![MatchOutcome::Other, MatchOutcome::Other], "a = 1"),
        Ok("a = 1".to_string())
    );
}

#[test]
fn first_rewrite_wins() {
    let outcomes = vec![
        MatchOutcome::Other,
        MatchOutcome::Rewrite(Ok("b = 2".to_string())),
        MatchOutcome::Rewrite(Ok("c = 3".to_string())),
        MatchOutcome::Rewrite(Err("later".to_string())),
    ];
    assert_eq!(apply_outcomes(&outcomes, "a = 1"), Ok("b = 2".to_string()));
}

#[test]
fn unreadable_first_rewrite_is_an_error() {
    let outcomes = vec![
        MatchOutcome::Rewrite(Err("no content".to_string())),
        MatchOutcome::Rewrite(Ok("c = 3".to_string())),
    ];
    assert_eq!(apply_outcomes(&outcomes, "a = 1"), Err("no content".to_string()));
}
