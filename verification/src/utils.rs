//! Small helpers shared by the bundled modules.

use vstd::prelude::*;
use vstd::string::StringExecFns;

verus! {

/// The prefix under which a module's log lines are filed.
pub open spec fn log_prefix_spec(module: Seq<char>) -> Seq<char> {
    "project::"@ + module
}

/// Formats the shared log prefix for `module`.
pub fn log_prefix(module: &str) -> (prefix: String)
    ensures
        prefix@ == log_prefix_spec(module@),
{
    String::from_str("project::").concat(module)
}

} // verus!
