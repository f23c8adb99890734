//! The `ping` command.

use vstd::prelude::*;
use vstd::string::*;

verus! {

/// The answer to a ping.
pub fn ping() -> (reply: String)
    ensures
        reply@ == "Pong! : )"@,
{
    String::from_str("Pong! : )")
}

} // verus!
