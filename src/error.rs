//! The error kinds of the controller.
use vstd::prelude::*;

verus! {

/// Why a step of the controller did not complete.
#[derive(Clone, Copy, Debug, PartialEq, Eq, Structural)]
pub enum ControllerError {
    /// The network fetch did not deliver a response body.
    Transport,
    /// The response body is not a payload of the expected shape.
    Parse,
    /// The command queue was full and a command was dropped.
    QueueSaturated,
    /// A peripheral could not be acquired at boot.
    PeripheralInit,
}

} // verus!
