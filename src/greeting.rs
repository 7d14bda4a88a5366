//! A greeting for the host to check that the library is reachable.
use vstd::prelude::*;
use vstd::string::StringExecFns;

verus! {

/// `Hello, <name>!`
pub fn greet(name: &str) -> (r: String)
    ensures
        r@ == "Hello, "@ + name@ + "!"@,
{
    let mut s = String::from_str("Hello, ");
    s.append(name);
    s.append("!");
    s
}

} // verus!
