//! The error taxonomy of the library: one kind per failing step.

use vstd::prelude::*;

verus! {

/// Everything that can go wrong while building or transmitting a frame.
#[derive(Clone, Copy, Debug, PartialEq, Eq, Structural)]
pub enum CanError {
    /// The OS refused to create the raw CAN socket.
    SocketOpenFailed,
    /// The interface name could not be resolved to a kernel index.
    InterfaceNotFound,
    /// The bind syscall failed.
    BindFailed,
    /// The write syscall failed or wrote a partial frame.
    WriteFailed,
    /// More than eight payload bytes were supplied to the frame builder.
    PayloadTooLong,
}

} // verus!
