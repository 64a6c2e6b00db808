//! Error kinds of the relay pipeline.
//!
//! Every failure in the acquisition phase and in the steady relay loop is
//! fatal: there is no retry and no partial-success mode.

use vstd::prelude::*;

verus! {

/// The failure kinds the pipeline can report. Each one is fatal.
#[derive(Clone, Copy, PartialEq, Eq, Structural, Debug)]
pub enum RelayError {
    /// The process lacks the elevated privilege the device nodes demand.
    PermissionDenied,
    /// The physical device node does not exist.
    DeviceNotFound,
    /// Another process already holds the exclusive capture.
    AlreadyGrabbed,
    /// The virtual-device subsystem could not create the synthetic node.
    DeviceCreationError,
    /// A read or write on a device failed, e.g. after a disconnection.
    IoError,
}

impl RelayError {
    /// A diagnostic message naming the failure, for the shell to print
    /// before it terminates with non-zero status.
    pub fn message(&self) -> &'static str {
        match self {
            RelayError::PermissionDenied => "this program needs elevated privilege",
            RelayError::DeviceNotFound => "physical device not found",
            RelayError::AlreadyGrabbed => "device is already grabbed by another process",
            RelayError::DeviceCreationError => "could not create the virtual device",
            RelayError::IoError => "device read or write failed",
        }
    }
}

} // verus!
