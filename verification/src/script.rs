//! The script-running service: a command with its arguments, handled by an
//! actor that runs one process per request.
//!
//! Spawning the process is an unverified collaborator's job; the service's
//! data and its name live here.

use vstd::prelude::*;

verus! {

/// The actor that executes scripts handed to it as requests.
#[derive(Clone)]
pub struct ScriptActor;

impl ScriptActor {
    /// The name of this service.
    pub fn name(&self) -> (r: &'static str)
        ensures
            r@ == "Script"@,
    {
        "Script"
    }
}

/// A request to execute one command.
#[derive(Debug)]
pub struct Execute {
    /// The program to run.
    pub command: String,
    /// Its arguments, in order.
    pub args: Vec<String>,
}

impl Execute {
    /// A request to run `command` with `args`.
    pub fn new(command: String, args: Vec<String>) -> (r: Execute)
        ensures
            r.command == command,
            r.args == args,
    {
        Execute { command, args }
    }
}

} // verus!
