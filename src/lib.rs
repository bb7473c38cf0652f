//! Decision logic of a supervisor that keeps at most one worker process
//! alive: where the worker's script is found, how it is invoked, the
//! steps that terminate it, and the slot that owns the running handle.
use vstd::prelude::*;

pub mod resolver;
pub mod termination;
pub mod slot;
pub mod launch;

verus! {

/// The interpreter's executable name on the given platform.
pub fn python_cmd(windows: bool) -> (r: &'static str)
    ensures
        windows ==> r@ == "python"@,
        !windows ==> r@ == "python3"@,
{
    if windows {
        "python"
    } else {
        "python3"
    }
}

} // verus!
