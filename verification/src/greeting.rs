//! The greeting shown to a visitor.

use vstd::prelude::*;

verus! {

/// The greeting for a visitor called `name`.
pub open spec fn greeting(name: Seq<char>) -> Seq<char> {
    "Hello, "@ + name + "! Welcome to X64 Browser!"@
}

/// Builds the greeting for `name`. The name is used as given.
pub fn greet(name: &str) -> (text: String)
    ensures
        text@ == greeting(name@),
{
    let mut text = String::from_str("Hello, ");
    text.append(name);
    text.append("! Welcome to X64 Browser!");
    text
}

} // verus!
