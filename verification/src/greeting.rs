//! The greeting that the shell shows on start.

use vstd::prelude::*;
use vstd::string::*;

verus! {

/// The greeting for a name.
pub open spec fn greeting_text(name: Seq<char>) -> Seq<char> {
    "Hello, "@ + name + "! You've been greeted from Rustlang!"@
}

/// Greets a name.
pub fn greet(name: &str) -> (s: String)
    ensures
        s@ == greeting_text(name@),
{
    String::from_str("Hello, ").concat(name).concat("! You've been greeted from Rustlang!")
}

} // verus!
