//! Opinions on operating systems.

use vstd::prelude::*;
use vstd::string::*;

verus! {

/// The opinion on macOS.
pub fn mac() -> (reply: String)
    ensures
        reply@ == "Jak cię stać na ten szmelc"@,
{
    String::from_str("Jak cię stać na ten szmelc")
}

/// The opinion on Linux.
pub fn linux() -> (reply: String)
    ensures
        reply@ == "Jedyne słuszne rozwiązanie! :sunglasses:"@,
{
    String::from_str("Jedyne słuszne rozwiązanie! :sunglasses:")
}

/// The opinion on Windows.
pub fn windows() -> (reply: String)
    ensures
        reply@ == "Jak zrestartujesz kompa to pogadamy"@,
{
    String::from_str("Jak zrestartujesz kompa to pogadamy")
}

} // verus!
