//! A friendly greeting.
use vstd::prelude::*;
use vstd::string::StringExecFns;

verus! {

/// `Hello <name>!`.
pub fn greet(name: &str) -> (r: String)
    ensures
        r@ == "Hello "@ + name@ + "!"@,
{
    String::from_str("Hello ").concat(name).concat("!")
}

} // verus!
