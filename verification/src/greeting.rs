//! The shell's one command: formatting a greeting for a name.

use vstd::prelude::*;
use vstd::string::StringExecFns;

verus! {

/// The exact text the greeting command returns for `name`: the fixed
/// prefix, the name itself, and the fixed closing phrase.
pub open spec fn greeting(name: Seq<char>) -> Seq<char> {
    "Hello, "@ + name + "! You've been greeted from Rust!"@
}

/// Formats the greeting for `name`. Pure: no side effects, no failure
/// modes, and every input string is accepted.
pub fn greet(name: &str) -> (res: String)
    ensures
        res@ == greeting(name@),
{
    let mut out: String = "Hello, ".to_owned();
    out.append(name);
    out.append("! You've been greeted from Rust!");
    out
}

} // verus!
