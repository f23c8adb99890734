//! The `do_you_know` command.

use vstd::prelude::*;
use vstd::string::*;

use crate::text::same_text;

verus! {

/// The answer of `do_you_know`, which depends on the asker's name alone.
pub open spec fn do_you_know_reply(author: Seq<char>) -> Seq<char> {
    if author == "zawiszaty"@ {
        "tobie nie powiem"@
    } else {
        "pierwsze słyszę"@
    }
}

/// Answers one user in one way and everybody else in another.
pub fn do_you_know(author: &str) -> (reply: String)
    ensures
        reply@ == do_you_know_reply(author@),
{
    if same_text(author, "zawiszaty") {
        String::from_str("tobie nie powiem")
    } else {
        String::from_str("pierwsze słyszę")
    }
}

} // verus!
