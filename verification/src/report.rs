//! Aggregation of the outcomes of testing a set of patterns into one report:
//! per-sample results, per-pattern verdicts, the totals and the summary line.
use vstd::prelude::*;

use crate::decimal::{digits_value, is_digit, law_decimal_denotes, push_decimal, spec_decimal};
use crate::state::{spec_is_pass, spec_state_name, state_name, TestState};

verus! {

// ---------------------------------------------------------------------------
// Inputs: what testing one pattern produced
// ---------------------------------------------------------------------------

/// The outcome of running one sample of a compiled pattern.
pub struct SampleRun {
    pub name: String,
    pub state: TestState,
    pub message: Option<String>,
    pub expected_output: Option<String>,
    pub actual_output: Option<String>,
}

/// A sample of a pattern that could not be compiled: its name and the output
/// it declares as expected.
pub struct SampleSpec {
    pub name: String,
    pub expected_output: Option<String>,
}

/// What testing one pattern gave.
#[allow(inconsistent_fields)]
pub enum PatternRun {
    /// The pattern has no language to be tested against.
    Skipped,
    /// The pattern did not compile; `error` is the compiler's message.
    CompileFailed { name: String, samples: Vec<SampleSpec>, error: String },
    /// The pattern compiled and each of its samples was run.
    Tested { name: String, samples: Vec<SampleRun> },
}

// ---------------------------------------------------------------------------
// Outputs: the report
// ---------------------------------------------------------------------------

/// One sample's reported outcome.
pub struct SampleResult {
    pub name: String,
    pub passed: bool,
    pub state: String,
    pub message: Option<String>,
    pub expected_output: Option<String>,
    pub actual_output: Option<String>,
}

/// One pattern's reported outcome: its name, its verdict and its samples.
pub struct PatternResult {
    pub name: String,
    pub passed: bool,
    pub samples: Vec<SampleResult>,
}

/// The report over all tested patterns.
pub struct TestReport {
    pub passed: bool,
    pub total_patterns: usize,
    pub total_samples: usize,
    pub failed_samples: usize,
    pub patterns: Vec<PatternResult>,
    pub summary: String,
}

// ---------------------------------------------------------------------------
// Mathematical views
// ---------------------------------------------------------------------------

pub open spec fn opt_view(o: Option<String>) -> Option<Seq<char>> {
    match o {
        Some(s) => Some(s@),
        None => None,
    }
}

pub struct SampleRunView {
    pub name: Seq<char>,
    pub state: TestState,
    pub message: Option<Seq<char>>,
    pub expected_output: Option<Seq<char>>,
    pub actual_output: Option<Seq<char>>,
}

pub struct SampleSpecView {
    pub name: Seq<char>,
    pub expected_output: Option<Seq<char>>,
}

#[allow(inconsistent_fields)]
pub enum PatternRunView {
    Skipped,
    CompileFailed { name: Seq<char>, samples: Seq<SampleSpecView>, error: Seq<char> },
    Tested { name: Seq<char>, samples: Seq<SampleRunView> },
}

pub struct SampleView {
    pub name: Seq<char>,
    pub passed: bool,
    pub state: Seq<char>,
    pub message: Option<Seq<char>>,
    pub expected_output: Option<Seq<char>>,
    pub actual_output: Option<Seq<char>>,
}

pub struct PatternView {
    pub name: Seq<char>,
    pub passed: bool,
    pub samples: Seq<SampleView>,
}

pub struct ReportView {
    pub passed: bool,
    pub total_patterns: nat,
    pub total_samples: nat,
    pub failed_samples: nat,
    pub patterns: Seq<PatternView>,
    pub summary: Seq<char>,
}

impl View for SampleRun {
    type V = SampleRunView;

    open spec fn view(&self) -> SampleRunView {
        SampleRunView {
            name: self.name@,
            state: self.state,
            message: opt_view(self.message),
            expected_output: opt_view(self.expected_output),
            actual_output: opt_view(self.actual_output),
        }
    }
}

impl View for SampleSpec {
    type V = SampleSpecView;

    open spec fn view(&self) -> SampleSpecView {
        SampleSpecView { name: self.name@, expected_output: opt_view(self.expected_output) }
    }
}

impl View for PatternRun {
    type V = PatternRunView;

    open spec fn view(&self) -> PatternRunView {
        match self {
            PatternRun::Skipped => PatternRunView::Skipped,
            PatternRun::CompileFailed { name, samples, error } => PatternRunView::CompileFailed {
                name: name@,
                samples: samples@.map_values(|s: SampleSpec| s@),
                error: error@,
            },
            PatternRun::Tested { name, samples } => PatternRunView::Tested {
                name: name@,
                samples: samples@.map_values(|s: SampleRun| s@),
            },
        }
    }
}

impl View for SampleResult {
    type V = SampleView;

    open spec fn view(&self) -> SampleView {
        SampleView {
            name: self.name@,
            passed: self.passed,
            state: self.state@,
            message: opt_view(self.message),
            expected_output: opt_view(self.expected_output),
            actual_output: opt_view(self.actual_output),
        }
    }
}

impl View for PatternResult {
    type V = PatternView;

    open spec fn view(&self) -> PatternView {
        PatternView {
            name: self.name@,
            passed: self.passed,
            samples: self.samples@.map_values(|s: SampleResult| s@),
        }
    }
}

impl View for TestReport {
    type V = ReportView;

    open spec fn view(&self) -> ReportView {
        ReportView {
            passed: self.passed,
            total_patterns: self.total_patterns as nat,
            total_samples: self.total_samples as nat,
            failed_samples: self.failed_samples as nat,
            patterns: self.patterns@.map_values(|p: PatternResult| p@),
            summary: self.summary@,
        }
    }
}

// ---------------------------------------------------------------------------
// Specification of the report
// ---------------------------------------------------------------------------

/// The reported result of a sample that ran.
pub open spec fn tested_sample(run: SampleRunView) -> SampleView {
    SampleView {
        name: run.name,
        passed: spec_is_pass(run.state),
        state: spec_state_name(run.state),
        message: run.message,
        expected_output: run.expected_output,
        actual_output: run.actual_output,
    }
}

/// The message given to each sample of a pattern that did not compile.
pub open spec fn compile_failure_message(error: Seq<char>) -> Seq<char> {
    "Failed to compile pattern: "@ + error
}

/// The reported result of a sample whose pattern did not compile.
pub open spec fn uncompiled_sample(sample: SampleSpecView, error: Seq<char>) -> SampleView {
    SampleView {
        name: sample.name,
        passed: false,
        state: "FailedPattern"@,
        message: Some(compile_failure_message(error)),
        expected_output: sample.expected_output,
        actual_output: None,
    }
}

/// Every sample in `samples` passed.
pub open spec fn all_passed(samples: Seq<SampleView>) -> bool {
    forall|i: int| 0 <= i < samples.len() ==> #[trigger] samples[i].passed
}

/// The reported result of a pattern that was not skipped.
pub open spec fn pattern_of(run: PatternRunView) -> PatternView {
    match run {
        PatternRunView::CompileFailed { name, samples, error } => PatternView {
            name,
            passed: false,
            samples: samples.map_values(|s: SampleSpecView| uncompiled_sample(s, error)),
        },
        PatternRunView::Tested { name, samples } => {
            let results = samples.map_values(|r: SampleRunView| tested_sample(r));
            PatternView { name, passed: all_passed(results), samples: results }
        },
        PatternRunView::Skipped => PatternView { name: Seq::empty(), passed: true, samples: Seq::empty() },
    }
}

/// The reported patterns, in order, one per pattern that was not skipped.
pub open spec fn spec_patterns(runs: Seq<PatternRunView>) -> Seq<PatternView>
    decreases runs.len(),
{
    if runs.len() == 0 {
        Seq::empty()
    } else {
        let before = spec_patterns(runs.drop_last());
        if runs.last() is Skipped {
            before
        } else {
            before.push(pattern_of(runs.last()))
        }
    }
}

/// The number of samples in `samples` that did not pass.
pub open spec fn failed_count(samples: Seq<SampleView>) -> nat
    decreases samples.len(),
{
    if samples.len() == 0 {
        0
    } else {
        failed_count(samples.drop_last()) + if samples.last().passed { 0nat } else { 1nat }
    }
}

/// The number of samples over all `patterns`.
pub open spec fn sample_total(patterns: Seq<PatternView>) -> nat
    decreases patterns.len(),
{
    if patterns.len() == 0 {
        0
    } else {
        sample_total(patterns.drop_last()) + patterns.last().samples.len()
    }
}

/// The number of failed samples over all `patterns`.
pub open spec fn failed_total(patterns: Seq<PatternView>) -> nat
    decreases patterns.len(),
{
    if patterns.len() == 0 {
        0
    } else {
        failed_total(patterns.drop_last()) + failed_count(patterns.last().samples)
    }
}

/// The summary line of a report.
pub open spec fn spec_summary(total_samples: nat, failed_samples: nat, total_patterns: nat) -> Seq<char> {
    if failed_samples == 0 {
        "All "@ + spec_decimal(total_samples) + " samples across "@ + spec_decimal(total_patterns)
            + " patterns passed."@
    } else {
        spec_decimal(failed_samples) + " out of "@ + spec_decimal(total_samples) + " samples failed."@
    }
}

/// The report over the outcomes `runs`.
pub open spec fn spec_report(runs: Seq<PatternRunView>) -> ReportView {
    let patterns = spec_patterns(runs);
    let total = sample_total(patterns);
    let failed = failed_total(patterns);
    ReportView {
        passed: failed == 0,
        total_patterns: patterns.len(),
        total_samples: total,
        failed_samples: failed,
        patterns,
        summary: spec_summary(total, failed, patterns.len()),
    }
}

// ---------------------------------------------------------------------------
// Building the report
// ---------------------------------------------------------------------------

fn clone_opt(o: &Option<String>) -> (r: Option<String>)
    ensures
        opt_view(r) == opt_view(*o),
{
    match o {
        Some(s) => Some(s.clone()),
        None => None,
    }
}

/// The reported result of a sample that ran.
pub fn sample_result(run: &SampleRun) -> (r: SampleResult)
    ensures
        r@ == tested_sample(run@),
{
    SampleResult {
        name: run.name.clone(),
        passed: run.state.is_pass(),
        state: String::from_str(state_name(&run.state)),
        message: clone_opt(&run.message),
        expected_output: clone_opt(&run.expected_output),
        actual_output: clone_opt(&run.actual_output),
    }
}

/// The reported result of a sample whose pattern did not compile with the
/// message `error`.
pub fn uncompiled_sample_result(sample: &SampleSpec, error: &str) -> (r: SampleResult)
    ensures
        r@ == uncompiled_sample(sample@, error@),
{
    let mut message = String::from_str("Failed to compile pattern: ");
    message.append(error);
    SampleResult {
        name: sample.name.clone(),
        passed: false,
        state: String::from_str("FailedPattern"),
        message: Some(message),
        expected_output: clone_opt(&sample.expected_output),
        actual_output: None,
    }
}

/// The summary line of a report with the given counts.
pub fn summary(total_samples: usize, failed_samples: usize, total_patterns: usize) -> (s: String)
    ensures
        s@ == spec_summary(total_samples as nat, failed_samples as nat, total_patterns as nat),
{
    let mut s = String::new();
    if failed_samples == 0 {
        s.append("All ");
        push_decimal(&mut s, total_samples);
        s.append(" samples across ");
        push_decimal(&mut s, total_patterns);
        s.append(" patterns passed.");
    } else {
        push_decimal(&mut s, failed_samples);
        s.append(" out of ");
        push_decimal(&mut s, total_samples);
        s.append(" samples failed.");
    }
    s
}


/// The views of a sequence of pattern outcomes.
pub open spec fn view_runs(runs: Seq<PatternRun>) -> Seq<PatternRunView> {
    runs.map_values(|p: PatternRun| p@)
}

/// The views of a sequence of sample results.
pub open spec fn view_samples(samples: Seq<SampleResult>) -> Seq<SampleView> {
    samples.map_values(|s: SampleResult| s@)
}

/// The views of a sequence of pattern results.
pub open spec fn view_patterns(patterns: Seq<PatternResult>) -> Seq<PatternView> {
    patterns.map_values(|p: PatternResult| p@)
}

// ---------------------------------------------------------------------------
// Lemmas on the counts
// ---------------------------------------------------------------------------

/// A sequence of samples none of which passed has as many failures as samples.
proof fn lemma_failed_count_all_failed(samples: Seq<SampleView>)
    requires
        forall|i: int| 0 <= i < samples.len() ==> !(#[trigger] samples[i].passed),
    ensures
        failed_count(samples) == samples.len(),
    decreases samples.len(),
{
    if samples.len() > 0 {
        lemma_failed_count_all_failed(samples.drop_last());
    }
}

/// At most every sample fails, and none fails exactly when all pass.
pub proof fn lemma_failed_count_bounds(samples: Seq<SampleView>)
    ensures
        failed_count(samples) <= samples.len(),
        failed_count(samples) == 0 <==> all_passed(samples),
    decreases samples.len(),
{
    if samples.len() > 0 {
        let before = samples.drop_last();
        lemma_failed_count_bounds(before);
        if all_passed(samples) {
            assert forall|i: int| 0 <= i < before.len() implies #[trigger] before[i].passed by {
                assert(before[i] == samples[i]);
            }
        }
        if !samples.last().passed {
            assert(!samples[samples.len() - 1].passed);
        } else if all_passed(before) {
            assert forall|i: int| 0 <= i < samples.len() implies #[trigger] samples[i].passed by {
                if i < samples.len() - 1 {
                    assert(samples[i] == before[i]);
                }
            }
        } else {
            let j = choose|j: int| 0 <= j < before.len() && !(#[trigger] before[j].passed);
            assert(samples[j] == before[j]);
        }
    }
}

/// The failed samples of a set of patterns are among its samples.
pub proof fn lemma_failed_total_le_sample_total(patterns: Seq<PatternView>)
    ensures
        failed_total(patterns) <= sample_total(patterns),
    decreases patterns.len(),
{
    if patterns.len() > 0 {
        lemma_failed_total_le_sample_total(patterns.drop_last());
        lemma_failed_count_bounds(patterns.last().samples);
    }
}

/// Adding a pattern adds its samples to the totals.
proof fn lemma_totals_push(patterns: Seq<PatternView>, p: PatternView)
    ensures
        sample_total(patterns.push(p)) == sample_total(patterns) + p.samples.len(),
        failed_total(patterns.push(p)) == failed_total(patterns) + failed_count(p.samples),
{
    assert(patterns.push(p).drop_last() =~= patterns);
}

/// The reported patterns of one more outcome.
proof fn lemma_patterns_step(runs: Seq<PatternRunView>, i: int)
    requires
        0 <= i < runs.len(),
    ensures
        spec_patterns(runs.take(i + 1)) == if runs[i] is Skipped {
            spec_patterns(runs.take(i))
        } else {
            spec_patterns(runs.take(i)).push(pattern_of(runs[i]))
        },
{
    assert(runs.take(i + 1).drop_last() =~= runs.take(i));
    assert(runs.take(i + 1).last() == runs[i]);
}

/// A prefix of the outcomes has no more samples than all of them.
proof fn lemma_prefix_sample_total(runs: Seq<PatternRunView>, i: int)
    requires
        0 <= i <= runs.len(),
    ensures
        sample_total(spec_patterns(runs.take(i))) <= sample_total(spec_patterns(runs)),
    decreases runs.len(),
{
    if i == runs.len() {
        assert(runs.take(i) =~= runs);
    } else {
        let before = runs.drop_last();
        assert(before.take(i) =~= runs.take(i));
        lemma_prefix_sample_total(before, i);
        if !(runs.last() is Skipped) {
            lemma_totals_push(spec_patterns(before), pattern_of(runs.last()));
        }
    }
}

// ---------------------------------------------------------------------------
// Building the patterns and the report
// ---------------------------------------------------------------------------

/// The reported result of a pattern whose samples ran, with the number of
/// its samples that failed.
pub fn tested_pattern(name: &String, runs: &Vec<SampleRun>) -> (r: (PatternResult, usize))
    ensures
        r.0@ == pattern_of(PatternRunView::Tested { name: name@, samples: runs@.map_values(|s: SampleRun| s@) }),
        r.1 == failed_count(r.0@.samples),
{
    let ghost target = runs@.map_values(|s: SampleRun| s@).map_values(|x: SampleRunView| tested_sample(x));
    let mut samples: Vec<SampleResult> = Vec::new();
    let mut failed: usize = 0;
    let mut all_pass = true;
    for k in 0..runs.len()
        invariant
            target.len() == runs.len(),
            target == runs@.map_values(|s: SampleRun| s@).map_values(|x: SampleRunView| tested_sample(x)),
            view_samples(samples@) =~= target.take(k as int),
            failed == failed_count(target.take(k as int)),
            failed <= k,
            all_pass == all_passed(target.take(k as int)),
    {
        let r = sample_result(&runs[k]);
        proof {
            assert(target[k as int] == r@);
            assert(target.take(k + 1).drop_last() =~= target.take(k as int));
            assert(target.take(k + 1).last() == r@);
            lemma_failed_count_bounds(target.take(k as int));
            lemma_failed_count_bounds(target.take(k + 1));
        }
        if !r.passed {
            failed = failed + 1;
            all_pass = false;
        }
        samples.push(r);
        proof {
            assert(view_samples(samples@) =~= target.take(k + 1));
        }
    }
    proof {
        assert(target.take(runs.len() as int) =~= target);
    }
    (PatternResult { name: name.clone(), passed: all_pass, samples }, failed)
}

/// The reported result of a pattern that did not compile with the message
/// `error`: every one of its samples fails.
pub fn uncompiled_pattern(name: &String, specs: &Vec<SampleSpec>, error: &String) -> (r: (PatternResult, usize))
    ensures
        r.0@ == pattern_of(PatternRunView::CompileFailed {
            name: name@,
            samples: specs@.map_values(|s: SampleSpec| s@),
            error: error@,
        }),
        r.1 == failed_count(r.0@.samples),
        r.1 == specs.len(),
{
    let ghost target = specs@.map_values(|s: SampleSpec| s@).map_values(
        |x: SampleSpecView| uncompiled_sample(x, error@),
    );
    let mut samples: Vec<SampleResult> = Vec::new();
    for k in 0..specs.len()
        invariant
            target.len() == specs.len(),
            target == specs@.map_values(|s: SampleSpec| s@).map_values(
                |x: SampleSpecView| uncompiled_sample(x, error@),
            ),
            view_samples(samples@) =~= target.take(k as int),
    {
        let r = uncompiled_sample_result(&specs[k], error.as_str());
        proof {
            assert(target[k as int] == r@);
            assert(target.take(k + 1).drop_last() =~= target.take(k as int));
            assert(target.take(k + 1).last() == r@);
        }
        samples.push(r);
        proof {
            assert(view_samples(samples@) =~= target.take(k + 1));
        }
    }
    proof {
        assert(target.take(specs.len() as int) =~= target);
        lemma_failed_count_all_failed(target);
    }
    (PatternResult { name: name.clone(), passed: false, samples }, specs.len())
}

/// The report over the outcomes `runs`: one pattern result per pattern that
/// was not skipped, in order; the totals of samples and of failed samples;
/// a pass exactly when no sample failed; and the summary line.
pub fn build_report(runs: &Vec<PatternRun>) -> (r: TestReport)
    requires
        sample_total(spec_patterns(view_runs(runs@))) <= usize::MAX,
    ensures
        r@ == spec_report(view_runs(runs@)),
{
    let ghost rv = view_runs(runs@);
    let mut patterns: Vec<PatternResult> = Vec::new();
    let mut total: usize = 0;
    let mut failed: usize = 0;
    for i in 0..runs.len()
        invariant
            rv == view_runs(runs@),
            rv.len() == runs.len(),
            sample_total(spec_patterns(rv)) <= usize::MAX,
            view_patterns(patterns@) =~= spec_patterns(rv.take(i as int)),
            total == sample_total(spec_patterns(rv.take(i as int))),
            failed == failed_total(spec_patterns(rv.take(i as int))),
    {
        proof {
            lemma_patterns_step(rv, i as int);
            lemma_prefix_sample_total(rv, i + 1);
            lemma_failed_total_le_sample_total(spec_patterns(rv.take(i + 1)));
            assert(rv[i as int] == runs[i as int]@);
        }
        let ghost before = spec_patterns(rv.take(i as int));
        match &runs[i] {
            PatternRun::Skipped => {},
            PatternRun::CompileFailed { name, samples, error } => {
                let (p, f) = uncompiled_pattern(name, samples, error);
                proof {
                    lemma_totals_push(before, p@);
                    lemma_failed_count_bounds(p@.samples);
                }
                total = total + p.samples.len();
                failed = failed + f;
                patterns.push(p);
            },
            PatternRun::Tested { name, samples } => {
                let (p, f) = tested_pattern(name, samples);
                proof {
                    lemma_totals_push(before, p@);
                    lemma_failed_count_bounds(p@.samples);
                }
                total = total + p.samples.len();
                failed = failed + f;
                patterns.push(p);
            },
        }
        proof {
            assert(view_patterns(patterns@) =~= spec_patterns(rv.take(i + 1)));
        }
    }
    proof {
        assert(rv.take(runs.len() as int) =~= rv);
    }
    let total_patterns = patterns.len();
    let summary = summary(total, failed, total_patterns);
    TestReport {
        passed: failed == 0,
        total_patterns,
        total_samples: total,
        failed_samples: failed,
        patterns,
        summary,
    }
}

/// The number of samples that a report over `runs` would count, or `None`
/// where that number does not fit in a `usize`.
pub fn count_samples(runs: &Vec<PatternRun>) -> (r: Option<usize>)
    ensures
        r is None <==> sample_total(spec_patterns(view_runs(runs@))) > usize::MAX,
        r matches Some(n) ==> n == sample_total(spec_patterns(view_runs(runs@))),
{
    let ghost rv = view_runs(runs@);
    let mut total: usize = 0;
    for i in 0..runs.len()
        invariant
            rv == view_runs(runs@),
            rv.len() == runs.len(),
            total == sample_total(spec_patterns(rv.take(i as int))),
    {
        proof {
            lemma_patterns_step(rv, i as int);
            assert(rv[i as int] == runs[i as int]@);
        }
        let n: usize = match &runs[i] {
            PatternRun::Skipped => 0,
            PatternRun::CompileFailed { samples, .. } => samples.len(),
            PatternRun::Tested { samples, .. } => samples.len(),
        };
        proof {
            if !(rv[i as int] is Skipped) {
                lemma_totals_push(spec_patterns(rv.take(i as int)), pattern_of(rv[i as int]));
            }
        }
        if n > usize::MAX - total {
            proof {
                lemma_prefix_sample_total(rv, i + 1);
            }
            return None;
        }
        total = total + n;
    }
    proof {
        assert(rv.take(runs.len() as int) =~= rv);
    }
    Some(total)
}

// ---------------------------------------------------------------------------
// Laws of the report
// ---------------------------------------------------------------------------

/// A report never counts more failed samples than samples.
pub proof fn law_failed_within_total(runs: Seq<PatternRunView>)
    ensures
        spec_report(runs).failed_samples <= spec_report(runs).total_samples,
{
    lemma_failed_total_le_sample_total(spec_patterns(runs));
}

/// Every sample of every one of `patterns` passed.
pub open spec fn every_sample_passed(patterns: Seq<PatternView>) -> bool {
    forall|i: int| 0 <= i < patterns.len() ==> all_passed(#[trigger] patterns[i].samples)
}

proof fn lemma_failed_total_zero(patterns: Seq<PatternView>)
    ensures
        failed_total(patterns) == 0 <==> every_sample_passed(patterns),
    decreases patterns.len(),
{
    if patterns.len() > 0 {
        let before = patterns.drop_last();
        lemma_failed_total_zero(before);
        lemma_failed_count_bounds(patterns.last().samples);
        if every_sample_passed(patterns) {
            assert forall|i: int| 0 <= i < before.len() implies all_passed(#[trigger] before[i].samples) by {
                assert(before[i] == patterns[i]);
            }
            assert(all_passed(patterns[patterns.len() - 1].samples));
        }
        if failed_total(patterns) == 0 {
            assert forall|i: int| 0 <= i < patterns.len() implies all_passed(#[trigger] patterns[i].samples) by {
                if i < patterns.len() - 1 {
                    assert(before[i] == patterns[i]);
                }
            }
        }
    }
}

/// A report passes exactly when every sample of every reported pattern passed.
pub proof fn law_report_passes_iff_every_sample_passed(runs: Seq<PatternRunView>)
    ensures
        spec_report(runs).passed <==> every_sample_passed(spec_report(runs).patterns),
{
    lemma_failed_total_zero(spec_patterns(runs));
}

/// A tested pattern passes exactly when none of its samples failed, and a
/// pattern that did not compile never passes, every one of its samples
/// failing with the state `FailedPattern`.
pub proof fn law_pattern_verdict(run: PatternRunView)
    requires
        !(run is Skipped),
    ensures
        run is Tested ==> (pattern_of(run).passed <==> failed_count(pattern_of(run).samples) == 0),
        run is CompileFailed ==> {
            &&& !pattern_of(run).passed
            &&& failed_count(pattern_of(run).samples) == pattern_of(run).samples.len()
            &&& forall|i: int| 0 <= i < pattern_of(run).samples.len()
                ==> (#[trigger] pattern_of(run).samples[i]).state == "FailedPattern"@
        },
{
    lemma_failed_count_bounds(pattern_of(run).samples);
    if run is CompileFailed {
        lemma_failed_count_all_failed(pattern_of(run).samples);
    }
}

proof fn lemma_patterns_concat(a: Seq<PatternRunView>, b: Seq<PatternRunView>)
    ensures
        spec_patterns(a + b) == spec_patterns(a) + spec_patterns(b),
    decreases b.len(),
{
    if b.len() == 0 {
        assert(a + b =~= a);
        assert(spec_patterns(a) + spec_patterns(b) =~= spec_patterns(a));
    } else {
        let b0 = b.drop_last();
        lemma_patterns_concat(a, b0);
        assert((a + b).drop_last() =~= a + b0);
        assert((a + b).last() == b.last());
        if !(b.last() is Skipped) {
            assert(spec_patterns(a) + spec_patterns(b0).push(pattern_of(b.last()))
                =~= (spec_patterns(a) + spec_patterns(b0)).push(pattern_of(b.last())));
        }
    }
}

proof fn lemma_totals_concat(a: Seq<PatternView>, b: Seq<PatternView>)
    ensures
        sample_total(a + b) == sample_total(a) + sample_total(b),
        failed_total(a + b) == failed_total(a) + failed_total(b),
    decreases b.len(),
{
    if b.len() == 0 {
        assert(a + b =~= a);
    } else {
        let b0 = b.drop_last();
        lemma_totals_concat(a, b0);
        assert((a + b).drop_last() =~= a + b0);
        assert((a + b).last() == b.last());
    }
}

/// Reports over consecutive runs add up: the patterns of both, in order, and
/// the sums of their sample and failure counts.
pub proof fn law_reports_add_up(a: Seq<PatternRunView>, b: Seq<PatternRunView>)
    ensures
        spec_report(a + b).patterns == spec_report(a).patterns + spec_report(b).patterns,
        spec_report(a + b).total_patterns == spec_report(a).total_patterns + spec_report(b).total_patterns,
        spec_report(a + b).total_samples == spec_report(a).total_samples + spec_report(b).total_samples,
        spec_report(a + b).failed_samples == spec_report(a).failed_samples + spec_report(b).failed_samples,
{
    lemma_patterns_concat(a, b);
    lemma_totals_concat(spec_patterns(a), spec_patterns(b));
}

/// A skipped pattern leaves the report as it was.
pub proof fn law_skipped_pattern_changes_nothing(runs: Seq<PatternRunView>)
    ensures
        spec_report(runs.push(PatternRunView::Skipped)) == spec_report(runs),
{
    assert(runs.push(PatternRunView::Skipped).drop_last() =~= runs);
}

/// The failed count of samples counts each sample that did not pass, and only
/// those: none for no samples, and one more sample adds one exactly when that
/// sample itself did not pass, whatever came before it.
pub proof fn law_failed_count_counts_failures(samples: Seq<SampleView>, x: SampleView)
    ensures
        failed_count(Seq::<SampleView>::empty()) == 0,
        failed_count(samples.push(x)) == failed_count(samples) + if x.passed { 0int } else { 1int },
{
    assert(samples.push(x).drop_last() =~= samples);
}

/// The totals of a report grow by each pattern's own samples and failures.
pub proof fn law_totals_count_each_pattern(patterns: Seq<PatternView>, p: PatternView)
    ensures
        sample_total(Seq::<PatternView>::empty()) == 0,
        failed_total(Seq::<PatternView>::empty()) == 0,
        sample_total(patterns.push(p)) == sample_total(patterns) + p.samples.len(),
        failed_total(patterns.push(p)) == failed_total(patterns) + failed_count(p.samples),
{
    lemma_totals_push(patterns, p);
}

/// A tested pattern is reported under its name with one result per sample
/// that ran, in order, each carrying that sample's own name, messages and
/// outputs, its own state's name, and a pass exactly when that state is a
/// pass state; the pattern passes exactly when every sample's state passes.
pub proof fn law_tested_pattern_reports_each_sample(name: Seq<char>, samples: Seq<SampleRunView>)
    ensures
        ({
            let p = pattern_of(PatternRunView::Tested { name, samples });
            &&& p.name == name
            &&& p.samples.len() == samples.len()
            &&& forall|i: int| 0 <= i < samples.len() ==> {
                let r = #[trigger] p.samples[i];
                &&& r.name == samples[i].name
                &&& r.passed == (samples[i].state == TestState::Pass
                    || samples[i].state == TestState::PassWithFormat)
                &&& r.state == spec_state_name(samples[i].state)
                &&& r.message == samples[i].message
                &&& r.expected_output == samples[i].expected_output
                &&& r.actual_output == samples[i].actual_output
            }
            &&& p.passed <==> forall|i: int| 0 <= i < samples.len()
                ==> (#[trigger] samples[i].state == TestState::Pass
                    || samples[i].state == TestState::PassWithFormat)
        }),
{
    let p = pattern_of(PatternRunView::Tested { name, samples });
    if p.passed {
        assert forall|i: int| 0 <= i < samples.len() implies (#[trigger] samples[i].state == TestState::Pass
            || samples[i].state == TestState::PassWithFormat) by {
            assert(p.samples[i].passed);
        }
    }
    if forall|i: int| 0 <= i < samples.len() ==> (#[trigger] samples[i].state == TestState::Pass
        || samples[i].state == TestState::PassWithFormat) {
        assert forall|i: int| 0 <= i < p.samples.len() implies #[trigger] p.samples[i].passed by {
            assert(samples[i].state == TestState::Pass || samples[i].state == TestState::PassWithFormat);
        }
    }
}

/// A pattern that did not compile is reported under its name with one failed
/// result per declared sample, in order, each carrying that sample's own name
/// and expected output, no actual output, the state `FailedPattern` and the
/// message "Failed to compile pattern: " followed by the compiler's error.
pub proof fn law_uncompiled_pattern_reports_each_sample(
    name: Seq<char>,
    samples: Seq<SampleSpecView>,
    error: Seq<char>,
)
    ensures
        ({
            let p = pattern_of(PatternRunView::CompileFailed { name, samples, error });
            &&& p.name == name
            &&& !p.passed
            &&& p.samples.len() == samples.len()
            &&& forall|i: int| 0 <= i < samples.len() ==> {
                let r = #[trigger] p.samples[i];
                &&& r.name == samples[i].name
                &&& !r.passed
                &&& r.state == "FailedPattern"@
                &&& r.message == Some("Failed to compile pattern: "@ + error)
                &&& r.expected_output == samples[i].expected_output
                &&& r.actual_output is None
            }
        }),
{
}

/// With no failure, the summary line is "All ", a numeral denoting the
/// number of samples in full, " samples across ", a numeral denoting the
/// number of patterns, and " patterns passed.".
pub proof fn law_summary_when_all_passed(total_samples: nat, total_patterns: nat)
    ensures
        exists|a: Seq<char>, b: Seq<char>|
            #![trigger numeral_of(a, total_samples), numeral_of(b, total_patterns)]
            numeral_of(a, total_samples) && numeral_of(b, total_patterns)
                && spec_summary(total_samples, 0, total_patterns)
                == "All "@ + a + " samples across "@ + b + " patterns passed."@,
{
    law_decimal_denotes(total_samples);
    law_decimal_denotes(total_patterns);
    let a = spec_decimal(total_samples);
    let b = spec_decimal(total_patterns);
    assert(numeral_of(a, total_samples));
    assert(numeral_of(b, total_patterns));
}

/// With failures, the summary line is a numeral denoting the number of failed
/// samples in full, " out of ", a numeral denoting the number of samples,
/// and " samples failed.".
pub proof fn law_summary_when_some_failed(total_samples: nat, failed_samples: nat, total_patterns: nat)
    requires
        failed_samples > 0,
    ensures
        exists|a: Seq<char>, b: Seq<char>|
            #![trigger numeral_of(a, failed_samples), numeral_of(b, total_samples)]
            numeral_of(a, failed_samples) && numeral_of(b, total_samples)
                && spec_summary(total_samples, failed_samples, total_patterns)
                == a + " out of "@ + b + " samples failed."@,
{
    law_decimal_denotes(failed_samples);
    law_decimal_denotes(total_samples);
    let a = spec_decimal(failed_samples);
    let b = spec_decimal(total_samples);
    assert(numeral_of(a, failed_samples));
    assert(numeral_of(b, total_samples));
}

/// `s` is a decimal numeral without a leading zero that denotes `n`.
pub open spec fn numeral_of(s: Seq<char>, n: nat) -> bool {
    &&& s.len() >= 1
    &&& forall|i: int| 0 <= i < s.len() ==> is_digit(#[trigger] s[i])
    &&& digits_value(s) == n
    &&& (s.len() > 1 ==> s[0] != '0')
}

/// The reported patterns follow the runs in order: none for no runs, a
/// skipped run adds nothing, and any other run adds its own pattern at the end.
pub proof fn law_patterns_follow_runs(runs: Seq<PatternRunView>, run: PatternRunView)
    ensures
        spec_patterns(Seq::<PatternRunView>::empty()) == Seq::<PatternView>::empty(),
        run is Skipped ==> spec_patterns(runs.push(run)) == spec_patterns(runs),
        !(run is Skipped) ==> spec_patterns(runs.push(run)) == spec_patterns(runs).push(pattern_of(run)),
{
    assert(runs.push(run).drop_last() =~= runs);
}

/// A report lists the reported patterns, counts them, counts their samples
/// and failed samples, and its summary line names those counts.
pub proof fn law_report_counts(runs: Seq<PatternRunView>)
    ensures
        ({
            let r = spec_report(runs);
            &&& r.patterns == spec_patterns(runs)
            &&& r.total_patterns == r.patterns.len()
            &&& r.total_samples == sample_total(r.patterns)
            &&& r.failed_samples == failed_total(r.patterns)
            &&& r.passed <==> r.failed_samples == 0
            &&& r.summary == spec_summary(r.total_samples, r.failed_samples, r.total_patterns)
        }),
{
}

} // verus!
