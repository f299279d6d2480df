//! The shape of a sub-command: something that can describe itself and then
//! be executed, implemented by every command the binaries expose.

use vstd::prelude::*;

verus! {

/// The error a failed command reports to the user.
#[derive(Debug, Clone, PartialEq, Eq)]
pub struct CommandError {
    /// What went wrong, as shown to the user.
    pub message: String,
}

/// A sub-command: all its required parameters, an `execute` method to
/// trigger it, and a description of what it will do.
///
/// This trait is implemented by the concrete commands wired around the
/// library; the description gives an error its context.
pub trait Command {
    /// Tell the user what this command will do.
    fn description(&self) -> String;

    /// Execute this command.
    fn execute(&self) -> Result<(), CommandError>;
}

} // verus!
