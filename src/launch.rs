//! How the worker process is invoked.
use vstd::prelude::*;
use crate::python_cmd;

verus! {

/// The invocation of a worker: the program and its arguments, in order.
pub struct LaunchSpec {
    pub program: String,
    pub args: Vec<String>,
}

/// Process creation failed.
pub enum LaunchError {
    /// The operating system refused to create the process; its own text.
    SpawnFailed { cause: String },
}

impl LaunchSpec {
    /// The arguments of a worker that runs `script` on `vault`.
    pub open spec fn args_for(script: Seq<char>, vault: Seq<char>) -> Seq<Seq<char>> {
        seq![script, "--vault"@, vault]
    }

    /// The invocation of `script` on `vault`, by the platform's interpreter;
    /// the vault path is passed on verbatim.
    pub fn new(windows: bool, script: &str, vault: &str) -> (r: LaunchSpec)
        ensures
            windows ==> r.program@ == "python"@,
            !windows ==> r.program@ == "python3"@,
            r.args@.len() == 3,
            r.args@[0]@ == Self::args_for(script@, vault@)[0],
            r.args@[1]@ == Self::args_for(script@, vault@)[1],
            r.args@[2]@ == Self::args_for(script@, vault@)[2],
    {
        let program = String::from_str(python_cmd(windows));
        let mut args: Vec<String> = Vec::new();
        args.push(String::from_str(script));
        args.push(String::from_str("--vault"));
        args.push(String::from_str(vault));
        LaunchSpec { program, args }
    }
}

impl LaunchError {
    /// The human-readable text of the error.
    pub open spec fn message_spec(&self) -> Seq<char> {
        match self {
            LaunchError::SpawnFailed { cause } => "failed to launch python: "@ + cause@,
        }
    }

    /// Renders the error as text.
    pub fn message(&self) -> (r: String)
        ensures
            r@ == self.message_spec(),
    {
        match self {
            LaunchError::SpawnFailed { cause } => {
                let r = String::from_str("failed to launch python: ");
                r.concat(cause.as_str())
            },
        }
    }
}

} // verus!
