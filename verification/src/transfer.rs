//! The offset-addressed transfer rules of the device.
//!
//! A transfer names a byte position `offset` and a requested length; it is
//! clamped to the room left between `offset` and the end of the buffer. An
//! offset strictly beyond the capacity addresses no byte at all and is
//! rejected. The executable copies here run on the buffer's bytes directly;
//! sessions call them while holding the buffer's lock.

use vstd::prelude::*;

use crate::errors::DeviceError;

verus! {

/// The fixed number of bytes the device holds, for its whole life.
pub const CAPACITY: usize = 4096;

/// How many bytes a transfer at `offset` moves when the caller asks for
/// `requested` bytes: all of the request when it fits in the room left from
/// `offset` to the end of the buffer, and only that room otherwise.
pub open spec fn spec_transfer_len(offset: int, requested: int) -> int
    recommends
        0 <= offset <= CAPACITY as int,
        0 <= requested,
{
    if CAPACITY as int - offset <= requested {
        CAPACITY as int - offset
    } else {
        requested
    }
}

/// The buffer after a clamped write of `data` at `offset`: the bytes from
/// `offset` on are replaced by as much of `data` as fits, and every other
/// byte keeps its value.
pub open spec fn spec_write(buf: Seq<u8>, offset: int, data: Seq<u8>) -> Seq<u8>
    recommends
        buf.len() == CAPACITY as int,
        0 <= offset <= CAPACITY as int,
{
    let n = spec_transfer_len(offset, data.len() as int);
    buf.take(offset) + data.take(n) + buf.skip(offset + n)
}

/// The bytes a clamped read of up to `requested` bytes at `offset` returns:
/// the buffer's bytes from `offset` to `offset + transfer length`.
pub open spec fn spec_read(buf: Seq<u8>, offset: int, requested: int) -> Seq<u8>
    recommends
        buf.len() == CAPACITY as int,
        0 <= offset <= CAPACITY as int,
        0 <= requested,
{
    buf.subrange(offset, offset + spec_transfer_len(offset, requested))
}

/// Copies as much of `data` as fits into `buf` at `offset`, clamped to the
/// buffer's end, and returns how many bytes it wrote. An offset beyond the
/// capacity is rejected without touching the buffer; an offset exactly at the
/// capacity succeeds and writes nothing.
pub fn write_bytes(buf: &mut Vec<u8>, offset: u64, data: &[u8]) -> (r: Result<usize, DeviceError>)
    requires
        old(buf)@.len() == CAPACITY as int,
    ensures
        final(buf)@.len() == CAPACITY as int,
        offset as int > CAPACITY as int ==> (r == Err::<usize, DeviceError>(
            DeviceError::InvalidOffsetError,
        ) && final(buf)@ == old(buf)@),
        offset as int <= CAPACITY as int ==> (r == Ok::<usize, DeviceError>(
            spec_transfer_len(offset as int, data@.len() as int) as usize,
        ) && final(buf)@ == spec_write(old(buf)@, offset as int, data@)),
{
    if offset > CAPACITY as u64 {
        return Err(DeviceError::InvalidOffsetError);
    }
    let off = offset as usize;
    let room = CAPACITY - off;
    let n = if room <= data.len() {
        room
    } else {
        data.len()
    };
    let ghost buf0 = buf@;
    let mut i: usize = 0;
    while i < n
        invariant
            i <= n,
            off + n <= CAPACITY as int,
            n <= data@.len(),
            buf@.len() == CAPACITY as int,
            buf0.len() == CAPACITY as int,
            forall|j: int| 0 <= j < buf0.len() && !(off <= j < off + i) ==> buf@[j] == buf0[j],
            forall|j: int| off <= j < off + i ==> buf@[j] == data@[j - off],
        decreases n - i,
    {
        let b = data[i];
        buf.set(off + i, b);
        i = i + 1;
    }
    proof {
        assert(buf@ =~= spec_write(buf0, off as int, data@));
    }
    Ok(n)
}

/// Copies up to `out.len()` bytes out of `buf` at `offset` into the front of
/// `out`, clamped to the buffer's end, and returns how many bytes it read.
/// Bytes of `out` past that count keep their values. An offset beyond the
/// capacity is rejected; an offset exactly at the capacity reads zero bytes
/// and leaves `out` untouched, the device's end-of-data signal.
pub fn read_bytes(buf: &Vec<u8>, offset: u64, out: &mut Vec<u8>) -> (r: Result<usize, DeviceError>)
    requires
        buf@.len() == CAPACITY as int,
    ensures
        final(out)@.len() == old(out)@.len(),
        offset as int > CAPACITY as int ==> (r == Err::<usize, DeviceError>(
            DeviceError::InvalidOffsetError,
        ) && final(out)@ == old(out)@),
        offset as int <= CAPACITY as int ==> ({
            let n = spec_transfer_len(offset as int, old(out)@.len() as int);
            &&& r == Ok::<usize, DeviceError>(n as usize)
            &&& final(out)@.take(n) == spec_read(buf@, offset as int, old(out)@.len() as int)
            &&& final(out)@.skip(n) == old(out)@.skip(n)
        }),
        offset as int == CAPACITY as int ==> (r == Ok::<usize, DeviceError>(0usize)
            && final(out)@ == old(out)@),
{
    if offset > CAPACITY as u64 {
        return Err(DeviceError::InvalidOffsetError);
    }
    let off = offset as usize;
    let room = CAPACITY - off;
    let n = if room <= out.len() {
        room
    } else {
        out.len()
    };
    let ghost out0 = out@;
    let mut i: usize = 0;
    while i < n
        invariant
            i <= n,
            off + n <= CAPACITY as int,
            n <= out@.len(),
            out@.len() == out0.len(),
            buf@.len() == CAPACITY as int,
            forall|j: int| i <= j < out0.len() ==> out@[j] == out0[j],
            forall|j: int| 0 <= j < i ==> out@[j] == buf@[off + j],
        decreases n - i,
    {
        let b = buf[off + i];
        out.set(i, b);
        i = i + 1;
    }
    proof {
        assert(out@.take(n as int) =~= spec_read(buf@, off as int, out0.len() as int));
        assert(out@.skip(n as int) =~= out0.skip(n as int));
        if n == 0 {
            assert(out@ =~= out0);
        }
    }
    Ok(n)
}

/// Law: a write changes exactly the clamped range. The buffer keeps its
/// length, the written bytes are the front of `data`, and every byte below
/// `offset` or at `offset + transfer length` and beyond keeps its value.
pub proof fn lemma_write_pointwise(buf: Seq<u8>, offset: int, data: Seq<u8>)
    requires
        buf.len() == CAPACITY as int,
        0 <= offset <= CAPACITY as int,
    ensures
        spec_write(buf, offset, data).len() == CAPACITY as int,
        forall|j: int| 0 <= j < offset ==> spec_write(buf, offset, data)[j] == buf[j],
        forall|j: int|
            offset <= j < offset + spec_transfer_len(offset, data.len() as int) ==> spec_write(
                buf,
                offset,
                data,
            )[j] == data[j - offset],
        forall|j: int|
            offset + spec_transfer_len(offset, data.len() as int) <= j < CAPACITY as int
                ==> spec_write(buf, offset, data)[j] == buf[j],
{
}

/// Law: a write that fits, read back from the same offset with the same
/// length, returns exactly the bytes written, and its transfer count is the
/// full length of the data.
pub proof fn lemma_write_then_read(buf: Seq<u8>, offset: int, data: Seq<u8>)
    requires
        buf.len() == CAPACITY as int,
        0 <= offset < CAPACITY as int,
        data.len() <= CAPACITY as int - offset,
    ensures
        spec_transfer_len(offset, data.len() as int) == data.len(),
        spec_read(spec_write(buf, offset, data), offset, data.len() as int) == data,
{
    lemma_write_pointwise(buf, offset, data);
    assert(spec_read(spec_write(buf, offset, data), offset, data.len() as int) =~= data);
}

/// Law: a write that overruns the buffer's end is clamped to it. The
/// transfer count is exactly the room left from `offset`, the bytes from
/// `offset` to the end hold the front of `data`, the bytes below `offset`
/// keep their values, and the buffer never grows past its capacity, so no
/// byte beyond it exists to be touched.
pub proof fn lemma_short_write(buf: Seq<u8>, offset: int, data: Seq<u8>)
    requires
        buf.len() == CAPACITY as int,
        0 <= offset <= CAPACITY as int,
        offset + data.len() > CAPACITY as int,
    ensures
        spec_transfer_len(offset, data.len() as int) == CAPACITY as int - offset,
        spec_write(buf, offset, data).len() == CAPACITY as int,
        forall|j: int| 0 <= j < offset ==> spec_write(buf, offset, data)[j] == buf[j],
        forall|j: int|
            offset <= j < CAPACITY as int ==> spec_write(buf, offset, data)[j] == data[j - offset],
{
    lemma_write_pointwise(buf, offset, data);
}

/// Law: two writes whose ranges are disjoint land in either order on the
/// same buffer, and after both, each range reads back exactly its own data:
/// neither write corrupts the other's bytes.
pub proof fn lemma_disjoint_writes(buf: Seq<u8>, off1: int, d1: Seq<u8>, off2: int, d2: Seq<u8>)
    requires
        buf.len() == CAPACITY as int,
        0 <= off1,
        0 <= off2,
        off1 + d1.len() <= CAPACITY as int,
        off2 + d2.len() <= CAPACITY as int,
        off1 + d1.len() <= off2 || off2 + d2.len() <= off1,
    ensures
        spec_write(spec_write(buf, off1, d1), off2, d2) == spec_write(
            spec_write(buf, off2, d2),
            off1,
            d1,
        ),
        spec_read(spec_write(spec_write(buf, off1, d1), off2, d2), off1, d1.len() as int) == d1,
        spec_read(spec_write(spec_write(buf, off1, d1), off2, d2), off2, d2.len() as int) == d2,
{
    let w1 = spec_write(buf, off1, d1);
    let w12 = spec_write(w1, off2, d2);
    let w2 = spec_write(buf, off2, d2);
    let w21 = spec_write(w2, off1, d1);
    lemma_write_pointwise(buf, off1, d1);
    lemma_write_pointwise(w1, off2, d2);
    lemma_write_pointwise(buf, off2, d2);
    lemma_write_pointwise(w2, off1, d1);
    assert(w12 =~= w21);
    assert(spec_read(w12, off1, d1.len() as int) =~= d1);
    assert(spec_read(w12, off2, d2.len() as int) =~= d2);
}

} // verus!
