use styleforce::report::{build_report, count_samples, PatternRun, SampleRun, SampleSpec};
use styleforce::state::TestState;

fn run(name: &str, state: TestState) -> SampleRun {
    SampleRun {
        name: name.to_string(),
        state,
        message: None,
        expected_output: Some(format!("{name} expected")),
        actual_output: Some(format!("{name} actual")),
    }
}

fn tested(name: &str, samples: Vec<SampleRun>) -> PatternRun {
    PatternRun::Tested { name: name.to_string(), samples }
}

#[test]
fn empty_run_passes() {
    let report = build_report(&Vec::new());
    assert!(report.passed);
    assert_eq!(report.total_patterns, 0);
    assert_eq!(report.total_samples, 0);
    assert_eq!(report.failed_samples, 0);
    assert!(report.patterns.is_empty());
    assert_eq!(report.summary, "All 0 samples across 0 patterns passed.");
}

#[test]
fn all_samples_passing() {
    let runs = vec![
        tested("a", vec![run("a1", TestState::Pass), run("a2", TestState::PassWithFormat)]),
        tested("b", vec![run("b1", TestState::Pass)]),
    ];
    let report = build_report(&runs);
    assert!(report.passed);
    assert_eq!(report.total_patterns, 2);
    assert_eq!(report.total_samples, 3);
    assert_eq!(report.failed_samples, 0);
    assert_eq!(report.summary, "All 3 samples across 2 patterns passed.");
    assert_eq!(report.patterns[0].name, "a");
    assert!(report.patterns[0].passed);
    assert_eq!(report.patterns[0].samples[1].state, "PassWithFormat");
    assert_eq!(report.patterns[0].samples[1].expected_output.as_deref(), Some("a2 expected"));
    assert_eq!(report.patterns[0].samples[1].actual_output.as_deref(), Some("a2 actual"));
}

#[test]
fn failures_are_counted() {
    let mut failing = run("b2", TestState::FailedMatch);
    failing.message = Some("no match".to_string());
    let runs = vec![
        tested("a", vec![run("a1", TestState::Pass)]),
        tested("b", vec![run("b1", TestState::Pass), failing, run("b3", TestState::FailedOutput)]),
    ];
    let report = build_report(&runs);
    assert!(!report.passed);
    assert_eq!(report.total_patterns, 2);
    assert_eq!(report.total_samples, 4);
    assert_eq!(report.failed_samples, 2);
    assert_eq!(report.summary, "2 out of 4 samples failed.");
    assert!(report.patterns[0].passed);
    assert!(!report.patterns[1].passed);
    let b2 = &report.patterns[1].samples[1];
    assert_eq!(b2.name, "b2");
    assert!(!b2.passed);
    assert_eq!(b2.state, "FailedMatch");
    assert_eq!(b2.message.as_deref(), Some("no match"));
}

#[test]
fn compile_failure_fails_every_sample() {
    let runs = vec![PatternRun::CompileFailed {
        name: "broken".to_string(),
        samples: vec![
            SampleSpec { name: "s1".to_string(), expected_output: Some("out".to_string()) },
            SampleSpec { name: "s2".to_string(), expected_output: None },
        ],
        error: "unexpected token".to_string(),
    }];
    let report = build_report(&runs);
    assert!(!report.passed);
    assert_eq!(report.total_samples, 2);
    assert_eq!(report.failed_samples, 2);
    assert_eq!(report.summary, "2 out of 2 samples failed.");
    let p = &report.patterns[0];
    assert_eq!(p.name, "broken");
    assert!(!p.passed);
    for s in &p.samples {
        assert!(!s.passed);
        assert_eq!(s.state, "FailedPattern");
        assert_eq!(s.message.as_deref(), Some("Failed to compile pattern: unexpected token"));
        assert_eq!(s.actual_output, None);
    }
    assert_eq!(p.samples[0].expected_output.as_deref(), Some("out"));
    assert_eq!(p.samples[1].expected_output, None);
}

#[test]
fn compile_failure_without_samples_still_reported_as_failed_pattern() {
    let runs = vec![PatternRun::CompileFailed {
        name: "broken".to_string(),
        samples: Vec::new(),
        error: "e".to_string(),
    }];
    let report = build_report(&runs);
    assert!(!report.patterns[0].passed);
    assert_eq!(report.failed_samples, 0);
    assert!(report.passed);
    assert_eq!(report.summary, "All 0 samples across 1 patterns passed.");
}

#[test]
fn tested_pattern_without_samples_passes() {
    let report = build_report(&vec![tested("empty", Vec::new())]);
    assert!(report.patterns[0].passed);
    assert_eq!(report.total_patterns, 1);
}

#[test]
fn skipped_patterns_are_not_reported() {
    let runs = vec![
        PatternRun::Skipped,
        tested("a", vec![run("a1", TestState::Pass)]),
        PatternRun::Skipped,
    ];
    let report = build_report(&runs);
    assert_eq!(report.total_patterns, 1);
    assert_eq!(report.patterns.len(), 1);
    assert_eq!(report.patterns[0].name, "a");
    assert_eq!(report.summary, "All 1 samples across 1 patterns passed.");
}

#[test]
fn reports_add_up_over_consecutive_runs() {
    let a = vec![tested("a", vec![run("a1", TestState::Pass), run("a2", TestState::FailedMatch)])];
    let b = vec![
        PatternRun::Skipped,
        tested("b", vec![run("b1", TestState::FailedOutput)]),
    ];
    let mut ab = vec![tested("a", vec![run("a1", TestState::Pass), run("a2", TestState::FailedMatch)])];
    ab.push(PatternRun::Skipped);
    ab.push(tested("b", vec![run("b1", TestState::FailedOutput)]));
    let (ra, rb, rab) = (build_report(&a), build_report(&b), build_report(&ab));
    assert_eq!(rab.total_samples, ra.total_samples + rb.total_samples);
    assert_eq!(rab.failed_samples, ra.failed_samples + rb.failed_samples);
    assert_eq!(rab.total_patterns, ra.total_patterns + rb.total_patterns);
    assert!(rab.failed_samples <= rab.total_samples);
}

#[test]
fn counting_samples() {
    let runs = vec![
        tested("a", vec![run("a1", TestState::Pass), run("a2", TestState::Pass)]),
        PatternRun::Skipped,
        PatternRun::CompileFailed {
            name: "c".to_string(),
            samples: vec![SampleSpec { name: "c1".to_string(), expected_output: None }],
            error: "e".to_string(),
        },
    ];
    assert_eq!(count_samples(&runs), Some(3));
    assert_eq!(count_samples(&Vec::new()), Some(0));
}
