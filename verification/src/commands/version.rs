//! The `version` command.

use vstd::prelude::*;
use vstd::string::*;

use crate::text::same_text;

verus! {

/// What stands in for a version that was never filled in.
pub open spec fn shrug() -> Seq<char> {
    "¯\\_(ツ)_/¯"@
}

/// The text that a build leaves behind when it did not fill in the version.
pub open spec fn unresolved() -> Seq<char> {
    "{{version}}"@
}

/// The answer of `version`: the configured version, or the shrug where it
/// is empty or was never filled in.
pub open spec fn version_reply(configured: Seq<char>) -> Seq<char> {
    if configured.len() == 0 || configured == unresolved() {
        shrug()
    } else {
        configured
    }
}

/// Reports the configured version.
pub fn version(configured: &str) -> (reply: String)
    ensures
        reply@ == version_reply(configured@),
{
    if configured.is_empty() || same_text(configured, "{{version}}") {
        String::from_str("¯\\_(ツ)_/¯")
    } else {
        String::from_str(configured)
    }
}

} // verus!
