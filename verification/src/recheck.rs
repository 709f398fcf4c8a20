//! The second look at a sample whose output differed from the expected one:
//! both outputs are formatted and compared again.
use vstd::prelude::*;

use crate::report::{opt_view, SampleRun};
use crate::state::TestState;

verus! {

/// What formatting the expected and the actual outputs of a sample gave.
pub enum FormatOutcome {
    /// The outputs could not both be formatted (or were not there).
    Unavailable,
    /// The formatted outputs agree.
    Matching,
    /// The formatted outputs still differ, here the expected and the actual one.
    Mismatch { expected: String, actual: String },
}

/// The message of a sample that still differs after formatting.
pub open spec fn spec_mismatch_message() -> Seq<char> {
    "Actual output doesn't match expected output, even after formatting"@
}

/// The outcome of a sample after its outputs were formatted and compared:
/// unchanged where formatting was not possible; a pass that needed formatting,
/// with no message and no outputs, where the formatted outputs agree; else a
/// failed output with the formatted outputs and `spec_mismatch_message`.
pub fn recheck_after_format(run: SampleRun, outcome: FormatOutcome) -> (r: SampleRun)
    ensures
        r.name@ == run.name@,
        match outcome {
            FormatOutcome::Unavailable => r@ == run@,
            FormatOutcome::Matching => r.state == TestState::PassWithFormat
                && r.message is None && r.expected_output is None && r.actual_output is None,
            FormatOutcome::Mismatch { expected, actual } => r.state == TestState::FailedOutput
                && opt_view(r.message) == Some(spec_mismatch_message())
                && opt_view(r.expected_output) == Some(expected@)
                && opt_view(r.actual_output) == Some(actual@),
        },
{
    match outcome {
        FormatOutcome::Unavailable => run,
        FormatOutcome::Matching => SampleRun {
            name: run.name,
            state: TestState::PassWithFormat,
            message: None,
            expected_output: None,
            actual_output: None,
        },
        FormatOutcome::Mismatch { expected, actual } => SampleRun {
            name: run.name,
            state: TestState::FailedOutput,
            message: Some(String::from_str(
                "Actual output doesn't match expected output, even after formatting",
            )),
            expected_output: Some(expected),
            actual_output: Some(actual),
        },
    }
}

} // verus!
