//! The one command that computes a value for the user interface: a
//! greeting string built around the caller's name.

use vstd::prelude::*;
use vstd::string::StringExecFns;

verus! {

/// Builds the greeting shown to `name`: the fixed salutation, the name,
/// then the fixed closing, in that order and nothing else.
pub fn greet(name: &str) -> (r: String)
    ensures
        r@ == "Hello, "@ + name@ + "! You've been greeted from Rust!"@,
{
    let mut s: String = "Hello, ".to_owned();
    s.append(name);
    s.append("! You've been greeted from Rust!");
    s
}

} // verus!
