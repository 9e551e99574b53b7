//! The shared buffer and the sessions that address it.
//!
//! One `SharedBuffer` backs the whole device: a byte array of fixed capacity
//! behind a lock that serializes every transfer. Each open request yields a
//! `Session`, a lightweight handle that carries no buffer data of its own;
//! any number of sessions may refer to the one buffer at the same time, and
//! a write through one is visible to a read through any other as soon as the
//! lock is released.

use vstd::prelude::*;
use vstd::rwlock::RwLock;
use vstd::rwlock::RwLockPredicate;

use crate::errors::DeviceError;
use crate::transfer::CAPACITY;
use crate::transfer::read_bytes;
use crate::transfer::spec_transfer_len;
use crate::transfer::write_bytes;

verus! {

/// The device's starting contents: one zero byte for each of its `CAPACITY`
/// positions.
fn zeroed_contents() -> (v: Vec<u8>)
    ensures
        v@ == Seq::new(CAPACITY as nat, |i: int| 0u8),
{
    let mut v: Vec<u8> = Vec::new();
    let mut i: usize = 0;
    while i < CAPACITY
        invariant
            i <= CAPACITY as int,
            v@.len() == i as int,
            forall|j: int| 0 <= j < i ==> v@[j] == 0u8,
        decreases CAPACITY as int - i,
    {
        v.push(0u8);
        i = i + 1;
    }
    proof {
        assert(v@ =~= Seq::new(CAPACITY as nat, |i: int| 0u8));
    }
    v
}

/// What may sit inside the buffer's lock: a byte array of exactly the
/// device's capacity. Every transfer preserves this, so every session finds
/// a full-capacity array when it takes the lock.
pub struct CapacityInv {}

impl RwLockPredicate<Vec<u8>> for CapacityInv {
    open spec fn inv(self, v: Vec<u8>) -> bool {
        v@.len() == CAPACITY as int
    }
}

/// The single fixed-capacity byte array backing the device, together with
/// the lock that serializes access to it. Created once, zero-filled, and
/// shared by reference with every session; it is never resized.
pub struct SharedBuffer {
    lock: RwLock<Vec<u8>, CapacityInv>,
}

impl SharedBuffer {
    #[verifier::type_invariant]
    spec fn wf(&self) -> bool {
        self.lock.pred() == (CapacityInv {})
    }

    /// A fresh device buffer holding `CAPACITY` zero bytes. The zero-filled
    /// contents go straight behind the lock, so the contract can only carry
    /// the capacity invariant; the initial zeroes are observed through the
    /// first reads.
    pub fn new() -> (b: SharedBuffer) {
        let v = zeroed_contents();
        SharedBuffer { lock: RwLock::new(v, Ghost(CapacityInv {})) }
    }
}

/// Whether a session still accepts transfers.
pub enum SessionState {
    Open,
    Closed,
}

/// A per-open handle on the device. It holds a reference to the one shared
/// buffer and its own open/closed flag, nothing else: transfers happen in
/// place under the buffer's lock, never on a private copy.
pub struct Session<'a> {
    buffer: &'a SharedBuffer,
    state: SessionState,
}

impl<'a> Session<'a> {
    /// Whether the session still accepts transfers; open requests start true
    /// and only an explicit close makes it false.
    pub closed spec fn is_open(&self) -> bool {
        self.state is Open
    }

    /// Opens a new session on `buffer`. Opening always succeeds: the handle
    /// captures a reference to the shared buffer and neither copies nor
    /// locks it.
    pub fn open(buffer: &'a SharedBuffer) -> (s: Session<'a>)
        ensures
            s.is_open(),
    {
        Session { buffer, state: SessionState::Open }
    }

    /// Closes the session. Every later transfer through it fails with
    /// `InvalidStateError`; the shared buffer itself is untouched.
    pub fn close(&mut self)
        ensures
            !final(self).is_open(),
    {
        self.state = SessionState::Closed;
    }

    /// Writes `data` into the shared buffer at `offset`, holding the
    /// buffer's lock for exactly the duration of the copy, and returns how
    /// many bytes it wrote: all of `data` when it fits between `offset` and
    /// the buffer's end, and only the bytes that fit otherwise (a short
    /// write, not an error). An offset beyond the capacity is rejected, and
    /// a closed session accepts nothing.
    ///
    /// The new bytes are visible to every session as soon as the lock is
    /// released; which buffer state this write found is decided by the order
    /// in which the lock grants racing sessions.
    pub fn write(&self, offset: u64, data: &[u8]) -> (r: Result<usize, DeviceError>)
        ensures
            !self.is_open() ==> r == Err::<usize, DeviceError>(DeviceError::InvalidStateError),
            self.is_open() && offset as int > CAPACITY as int ==> r == Err::<usize, DeviceError>(
                DeviceError::InvalidOffsetError,
            ),
            self.is_open() && offset as int <= CAPACITY as int ==> r == Ok::<usize, DeviceError>(
                spec_transfer_len(offset as int, data@.len() as int) as usize,
            ),
    {
        match self.state {
            SessionState::Closed => Err(DeviceError::InvalidStateError),
            SessionState::Open => {
                proof {
                    use_type_invariant(self.buffer);
                }
                let (mut contents, handle) = self.buffer.lock.acquire_write();
                let r = write_bytes(&mut contents, offset, data);
                handle.release_write(contents);
                r
            },
        }
    }

    /// Reads from the shared buffer at `offset` into the front of `out`,
    /// holding the buffer's lock for exactly the duration of the copy, and
    /// returns how many bytes it read: up to `out.len()`, clamped to the
    /// room between `offset` and the buffer's end. Bytes of `out` past the
    /// returned count keep their values. An offset exactly at the capacity
    /// reads zero bytes and leaves `out` untouched, the end-of-data signal;
    /// an offset beyond it is rejected, and a closed session accepts
    /// nothing.
    ///
    /// The bytes delivered are those of the buffer state the lock granted;
    /// other sessions may change the buffer before or after, never during,
    /// the copy.
    pub fn read(&self, offset: u64, out: &mut Vec<u8>) -> (r: Result<usize, DeviceError>)
        ensures
            final(out)@.len() == old(out)@.len(),
            !self.is_open() ==> (r == Err::<usize, DeviceError>(DeviceError::InvalidStateError)
                && final(out)@ == old(out)@),
            self.is_open() && offset as int > CAPACITY as int ==> (r == Err::<usize, DeviceError>(
                DeviceError::InvalidOffsetError,
            ) && final(out)@ == old(out)@),
            self.is_open() && offset as int <= CAPACITY as int ==> ({
                let n = spec_transfer_len(offset as int, old(out)@.len() as int);
                &&& r == Ok::<usize, DeviceError>(n as usize)
                &&& final(out)@.skip(n) == old(out)@.skip(n)
            }),
            self.is_open() && offset as int == CAPACITY as int ==> final(out)@ == old(out)@,
    {
        match self.state {
            SessionState::Closed => Err(DeviceError::InvalidStateError),
            SessionState::Open => {
                proof {
                    use_type_invariant(self.buffer);
                }
                let read_handle = self.buffer.lock.acquire_read();
                let r = read_bytes(read_handle.borrow(), offset, out);
                read_handle.release_read();
                r
            },
        }
    }
}

} // verus!
