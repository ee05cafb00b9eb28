//! The greeting command offered to the front-end.

use vstd::prelude::*;
use vstd::string::StringExecFns;

verus! {

/// The greeting for `name`: the name set between a fixed opening and a fixed
/// closing, whatever the name holds.
pub open spec fn greeting(name: Seq<char>) -> Seq<char> {
    "Hello, "@ + name + "! You've been greeted from Rust!"@
}

/// Greets `name`. Every name is accepted as it is, the empty one too.
pub fn greet(name: &str) -> (result: String)
    ensures
        result@ == greeting(name@),
{
    let mut result = String::from_str("Hello, ");
    result.append(name);
    result.append("! You've been greeted from Rust!");
    result
}

} // verus!
