//! The error values that cross the boundary of the actor core.
//!
//! All of them are terminal: the core never retries, every failure is returned
//! to the caller as a typed result, and retry policy belongs to the caller.

use vstd::prelude::*;

verus! {

/// Failure of a channel operation: the peer end is gone.
#[derive(Clone, Copy, Debug, PartialEq, Eq, Structural)]
pub enum ChannelError {
    /// A message could not be delivered: the receiving end has been dropped.
    SendError,
    /// No response can ever arrive: every sending end has been dropped.
    ReceiveError,
}

/// Failure reported by the runtime supervisor.
#[derive(Clone, Copy, Debug, PartialEq, Eq, Structural)]
pub enum RuntimeError {
    /// The runtime was misconfigured before it started.
    ConfigError,
    /// An I/O failure was reported to the runtime.
    IoError,
    /// An action could not be sent to the runtime over its internal channel.
    SendError(ChannelError),
    /// The runtime's background task panicked.
    RuntimePanic,
    /// The runtime's background task was cancelled instead of completing.
    RuntimeCancellation,
}

impl RuntimeError {
    /// A short description of the failure.
    pub fn message(&self) -> (r: &'static str)
        ensures
            *self == RuntimeError::ConfigError ==> r@ == "Configuration error"@,
            *self == RuntimeError::IoError ==> r@ == "I/O error"@,
            self matches RuntimeError::SendError(_) ==> r@
                == "Send failed: the channel is closed"@,
            *self == RuntimeError::RuntimePanic ==> r@ == "The runtime panicked"@,
            *self == RuntimeError::RuntimeCancellation ==> r@ == "The runtime was cancelled"@,
    {
        match self {
            RuntimeError::ConfigError => "Configuration error",
            RuntimeError::IoError => "I/O error",
            RuntimeError::SendError(_) => "Send failed: the channel is closed",
            RuntimeError::RuntimePanic => "The runtime panicked",
            RuntimeError::RuntimeCancellation => "The runtime was cancelled",
        }
    }
}

impl From<ChannelError> for RuntimeError {
    fn from(e: ChannelError) -> (r: RuntimeError) {
        RuntimeError::SendError(e)
    }
}

impl vstd::std_specs::convert::FromSpecImpl<ChannelError> for RuntimeError {
    open spec fn obeys_from_spec() -> bool {
        true
    }

    open spec fn from_spec(e: ChannelError) -> RuntimeError {
        RuntimeError::SendError(e)
    }
}

/// A wiring mistake found while building an actor, before anything runs.
#[derive(Clone, Debug, PartialEq, Eq)]
pub enum LinkError {
    /// A required peer was never connected to this actor.
    MissingPeer { role: String },
}

impl LinkError {
    /// A short description of the failure, naming the missing peer.
    pub fn message(&self) -> (r: String)
        ensures
            self matches LinkError::MissingPeer { role } ==> r@ == "Missing peer: "@ + role@,
    {
        match self {
            LinkError::MissingPeer { role } => {
                let mut m = String::new();
                m.append("Missing peer: ");
                m.append(role.as_str());
                proof {
                    assert(m@ =~= "Missing peer: "@ + role@);
                }
                m
            },
        }
    }
}

} // verus!
