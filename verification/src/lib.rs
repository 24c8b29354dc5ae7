//! Native backend logic for a desktop application shell that supervises a
//! local HTTP helper process (the "sidecar") and acquires an external
//! command-line tool when it is not already present.

pub mod installer;
pub mod platform;
pub mod protocol;
pub mod supervisor;

use vstd::prelude::*;
use vstd::string::StringExecFns;

verus! {

/// Builds the greeting shown by the demo command.
pub fn greet(name: &str) -> (r: String)
    ensures
        r@ == "Hello, "@ + name@ + "! You've been greeted from Rust!"@,
{
    let mut s: String = "Hello, ".to_owned();
    s.append(name);
    s.append("! You've been greeted from Rust!");
    s
}

} // verus!
