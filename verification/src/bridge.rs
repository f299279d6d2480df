//! The decisions behind disconnecting a cloud bridge: what a failed removal
//! of the bridge configuration means, which failures are fatal, and whether
//! the broker needs a restart.
//!
//! The file removal and the service manager are unverified collaborators;
//! they report what happened and are told what to do next.

use vstd::prelude::*;

verus! {

/// Why a bridge could not be disconnected.
#[derive(Debug, Clone, Copy, PartialEq, Eq, Structural)]
pub enum DisconnectBridgeError {
    /// There is no bridge configuration file: the device is already
    /// disconnected.
    BridgeFileDoesNotExist,
    /// Removing the bridge configuration failed for another reason.
    FileOperationFailed,
    /// The service manager failed.
    ServiceFailed,
}

/// What removing the bridge configuration file means: success when it was
/// removed, the already-disconnected error when it was not found, and a
/// file failure otherwise.
pub fn classify_remove_outcome(removed: bool, not_found: bool) -> (r: Result<
    (),
    DisconnectBridgeError,
>)
    ensures
        removed ==> r is Ok,
        !removed && not_found ==> r == Result::<(), DisconnectBridgeError>::Err(
            DisconnectBridgeError::BridgeFileDoesNotExist,
        ),
        !removed && !not_found ==> r == Result::<(), DisconnectBridgeError>::Err(
            DisconnectBridgeError::FileOperationFailed,
        ),
{
    if removed {
        Ok(())
    } else if not_found {
        Err(DisconnectBridgeError::BridgeFileDoesNotExist)
    } else {
        Err(DisconnectBridgeError::FileOperationFailed)
    }
}

/// Whether a disconnect failure must stop the whole operation: every
/// failure but the absence of the bridge file — which only means the device
/// is already disconnected — is fatal.
pub fn is_fatal_disconnect_error(error: &DisconnectBridgeError) -> (r: bool)
    ensures
        r == (*error != DisconnectBridgeError::BridgeFileDoesNotExist),
{
    match error {
        DisconnectBridgeError::BridgeFileDoesNotExist => false,
        _ => true,
    }
}

/// Whether the broker should be restarted to apply a configuration change:
/// only if it is running — a stopped broker picks the change up whenever it
/// is next started.
pub fn should_restart_broker(is_running: bool) -> (r: bool)
    ensures
        r == is_running,
{
    is_running
}

} // verus!
