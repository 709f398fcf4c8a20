//! The outcome state of one tested pattern sample.
use vstd::prelude::*;

verus! {

/// How one sample of a pattern fared when it was tested.
#[derive(Clone, Copy, Debug, PartialEq, Eq, Structural)]
pub enum TestState {
    Pass,
    PassWithFormat,
    FailedOutput,
    FailedMatch,
    FailedPattern,
}

/// The name under which a state is reported.
pub open spec fn spec_state_name(state: TestState) -> Seq<char> {
    match state {
        TestState::Pass => "Pass"@,
        TestState::PassWithFormat => "PassWithFormat"@,
        TestState::FailedOutput => "FailedOutput"@,
        TestState::FailedMatch => "FailedMatch"@,
        TestState::FailedPattern => "FailedPattern"@,
    }
}

/// A state counts as passing when the sample passed, with or without formatting.
pub open spec fn spec_is_pass(state: TestState) -> bool {
    state is Pass || state is PassWithFormat
}

/// The reported name of `state`, which is the name of its variant.
pub fn state_name(state: &TestState) -> (name: &'static str)
    ensures
        name@ == spec_state_name(*state),
{
    match state {
        TestState::Pass => "Pass",
        TestState::PassWithFormat => "PassWithFormat",
        TestState::FailedOutput => "FailedOutput",
        TestState::FailedMatch => "FailedMatch",
        TestState::FailedPattern => "FailedPattern",
    }
}

impl TestState {
    /// Whether the sample passed: `Pass` and `PassWithFormat` pass, every
    /// failed state does not.
    pub fn is_pass(&self) -> (r: bool)
        ensures
            r == spec_is_pass(*self),
    {
        match self {
            TestState::Pass | TestState::PassWithFormat => true,
            _ => false,
        }
    }
}

/// Each state is reported under its own variant's name, so different
/// states have different names; exactly the two pass states pass.
pub proof fn law_state_names(a: TestState, b: TestState)
    ensures
        spec_state_name(TestState::Pass) == "Pass"@,
        spec_state_name(TestState::PassWithFormat) == "PassWithFormat"@,
        spec_state_name(TestState::FailedOutput) == "FailedOutput"@,
        spec_state_name(TestState::FailedMatch) == "FailedMatch"@,
        spec_state_name(TestState::FailedPattern) == "FailedPattern"@,
        spec_state_name(a) == spec_state_name(b) ==> a == b,
        spec_is_pass(a) <==> (a == TestState::Pass || a == TestState::PassWithFormat),
{
    reveal_strlit("Pass");
    reveal_strlit("PassWithFormat");
    reveal_strlit("FailedOutput");
    reveal_strlit("FailedMatch");
    reveal_strlit("FailedPattern");
    assert(spec_state_name(a).len() == spec_state_name(a).len());
    assert(spec_state_name(b).len() == spec_state_name(b).len());
    if spec_state_name(a) == spec_state_name(b) {
        assert(spec_state_name(a).len() == spec_state_name(b).len());
    }
}

} // verus!
