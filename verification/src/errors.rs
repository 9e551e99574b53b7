//! The errors a device operation can surface.

use vstd::prelude::*;

verus! {

/// Everything that can go wrong on an open, read or write request.
///
/// Short transfers are not errors: a read or write that moves fewer bytes
/// than requested reports the count it moved and succeeds.
#[derive(Clone, Copy, Debug, PartialEq, Eq)]
pub enum DeviceError {
    /// A session object could not be allocated on open. The verified library
    /// never fails this way; the host's open path reports it when it cannot
    /// obtain memory for a handle.
    AllocationError,
    /// The requested offset lies strictly beyond the buffer's capacity, so no
    /// byte position inside the buffer corresponds to it.
    InvalidOffsetError,
    /// The session was already closed when the operation arrived.
    InvalidStateError,
    /// The copy into or out of the caller's own buffer failed. The verified
    /// library copies only between values it owns and never fails this way;
    /// the host's transfer path reports it when the caller's memory is
    /// inaccessible.
    IoTransferError,
}

} // verus!
