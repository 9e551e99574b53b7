//! A minimal in-memory block device: one fixed-capacity byte buffer shared by
//! every session, with offset-addressed, bounds-clamped read and write.
//!
//! The buffer holds exactly [`transfer::CAPACITY`] bytes for the whole life of
//! the process. Each open handle is a [`device::Session`]; all sessions refer
//! to the one [`device::SharedBuffer`], whose lock serializes every transfer.

pub mod device;
pub mod errors;
pub mod transfer;
