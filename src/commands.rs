use vstd::prelude::*;
use vstd::string::StringExecFns;

verus! {

/// Reply of the `greet` command invoked from the main window.
pub fn greet(name: &str) -> (r: String)
    ensures
        r@ == "Hello, "@ + name@ + "! You've been greeted from Rust!"@,
{
    let mut s = String::from_str("Hello, ");
    s.append(name);
    s.append("! You've been greeted from Rust!");
    s
}

} // verus!
