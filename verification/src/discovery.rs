//! Decisions taken while discovering the patterns to test.
use vstd::prelude::*;

verus! {

/// The error given when no discovered pattern has samples to test.
pub open spec fn spec_no_testable_message() -> Seq<char> {
    "No testable patterns found. To test a pattern, make sure it is defined in .grit/grit.yaml or a .md file in your .grit/patterns directory."@
}

/// Testing goes on only when at least one pattern has samples; otherwise the
/// run fails with the message `spec_no_testable_message`.
pub fn require_testable(testable_count: usize) -> (r: Result<(), String>)
    ensures
        r is Ok <==> testable_count > 0,
        r matches Err(m) ==> m@ == spec_no_testable_message(),
{
    if testable_count == 0 {
        Err(String::from_str(
            "No testable patterns found. To test a pattern, make sure it is defined in .grit/grit.yaml or a .md file in your .grit/patterns directory.",
        ))
    } else {
        Ok(())
    }
}

/// The name under which a pattern is reported: its local name where it has
/// one, else its body.
pub fn display_name(local_name: Option<String>, body: String) -> (name: String)
    ensures
        name@ == match local_name {
            Some(n) => n@,
            None => body@,
        },
{
    match local_name {
        Some(n) => n,
        None => body,
    }
}

} // verus!
