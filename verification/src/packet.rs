//! The fixed-capacity byte buffer and its cursor-based read operations.

use vstd::prelude::*;
use crate::error::OutOfBounds;

verus! {

/// Total number of bytes a buffer holds; fixed for the buffer's lifetime.
pub const CAPACITY: usize = 512;

/// The value of two bytes read big-endian: the first byte is the most
/// significant.
pub open spec fn be_u16(hi: u8, lo: u8) -> u16 {
    (hi * 0x100 + lo) as u16
}

/// The value of four bytes read big-endian: the first byte is the most
/// significant.
pub open spec fn be_u32(b0: u8, b1: u8, b2: u8, b3: u8) -> u32 {
    (b0 * 0x100_0000 + b1 * 0x1_0000 + b2 * 0x100 + b3) as u32
}

/// The big-endian composition of two bytes equals shifting the first byte
/// left by eight and or-ing in the second.
pub proof fn lemma_be_u16_is_shift_or(hi: u8, lo: u8)
    ensures
        be_u16(hi, lo) == ((hi as u16) << 8) | (lo as u16),
{
    assert(((hi as u16) << 8) | (lo as u16) == (hi as u16) * 0x100 + (lo as u16)) by (bit_vector);
}

/// The big-endian composition of four bytes equals shifting each byte to its
/// place and or-ing the four together.
pub proof fn lemma_be_u32_is_shift_or(b0: u8, b1: u8, b2: u8, b3: u8)
    ensures
        be_u32(b0, b1, b2, b3) == ((b0 as u32) << 24) | ((b1 as u32) << 16) | ((b2 as u32) << 8)
            | (b3 as u32),
{
    assert(((b0 as u32) << 24) | ((b1 as u32) << 16) | ((b2 as u32) << 8) | (b3 as u32)
        == (b0 as u32) * 0x100_0000 + (b1 as u32) * 0x1_0000 + (b2 as u32) * 0x100 + (b3 as u32))
        by (bit_vector);
}

/// A fixed-capacity byte container with an internal cursor: the substrate
/// for decoding binary-encoded structures. Created zero-filled with the
/// cursor at the start; every access is validated against `CAPACITY` before
/// any byte is touched.
pub struct BytePacketBuffer {
    buf: [u8; CAPACITY],
    pos: usize,
}

impl BytePacketBuffer {
    /// The bytes the buffer holds, as a sequence of length `CAPACITY`.
    pub closed spec fn storage(&self) -> Seq<u8> {
        self.buf@
    }

    /// The cursor: the position the next sequential read uses.
    pub closed spec fn cursor(&self) -> nat {
        self.pos as nat
    }

    /// Validity: the storage holds exactly `CAPACITY` bytes, and the cursor,
    /// which is updated only after a bounds check succeeds, stays within
    /// `CAPACITY`.
    pub open spec fn wf(&self) -> bool {
        &&& self.storage().len() == CAPACITY
        &&& self.cursor() <= CAPACITY
    }

    /// A fresh buffer: fully zero-filled storage, cursor at the start.
    pub fn new() -> (buffer: BytePacketBuffer)
        ensures
            buffer.wf(),
            buffer.cursor() == 0,
            forall|i: int| 0 <= i < CAPACITY ==> buffer.storage()[i] == 0u8,
    {
        BytePacketBuffer { buf: [0; CAPACITY], pos: 0 }
    }

    /// Pure observer: the current cursor.
    pub fn pos(&self) -> (position: usize)
        ensures
            position == self.cursor(),
    {
        self.pos
    }

    /// Moves the cursor forward by `steps`. Succeeds exactly when the cursor
    /// would land strictly below `CAPACITY`; on failure the cursor is
    /// unchanged.
    pub fn step(&mut self, steps: usize) -> (result: Result<(), OutOfBounds>)
        requires
            old(self).wf(),
        ensures
            final(self).wf(),
            final(self).storage() == old(self).storage(),
            old(self).cursor() + steps < CAPACITY ==> (result == Ok::<(), OutOfBounds>(())
                && final(self).cursor() == old(self).cursor() + steps),
            old(self).cursor() + steps >= CAPACITY ==> (result == Err::<(), OutOfBounds>(
                (OutOfBounds::Step {
                    steps,
                    position: old(self).cursor() as usize,
                    capacity: CAPACITY,
                }),
            ) && final(self).cursor() == old(self).cursor()),
    {
        if steps >= CAPACITY || self.pos + steps >= CAPACITY {
            return Err(OutOfBounds::Step { steps, position: self.pos, capacity: CAPACITY });
        }
        self.pos = self.pos + steps;
        Ok(())
    }

    /// Sets the cursor to the absolute position `pos`. Succeeds exactly when
    /// `pos` lies strictly below `CAPACITY`; on failure the cursor is
    /// unchanged.
    pub fn seek(&mut self, pos: usize) -> (result: Result<(), OutOfBounds>)
        requires
            old(self).wf(),
        ensures
            final(self).wf(),
            final(self).storage() == old(self).storage(),
            pos < CAPACITY ==> (result == Ok::<(), OutOfBounds>(()) && final(self).cursor()
                == pos),
            pos >= CAPACITY ==> (result == Err::<(), OutOfBounds>(
                (OutOfBounds::Seek { position: pos, capacity: CAPACITY }),
            ) && final(self).cursor() == old(self).cursor()),
    {
        if pos >= CAPACITY {
            return Err(OutOfBounds::Seek { position: pos, capacity: CAPACITY });
        }
        self.pos = pos;
        Ok(())
    }

    /// The byte at `pos`, without moving the cursor. By design the bounds
    /// check guards the cursor, not the requested position: the call fails
    /// exactly when the cursor itself stands at `CAPACITY`. Whenever the
    /// byte is actually fetched, `pos` must therefore be in range.
    pub fn get(&self, pos: usize) -> (result: Result<u8, OutOfBounds>)
        requires
            self.wf(),
            self.cursor() < CAPACITY ==> pos < CAPACITY,
        ensures
            self.cursor() < CAPACITY ==> result == Ok::<u8, OutOfBounds>(
                self.storage()[pos as int],
            ),
            self.cursor() >= CAPACITY ==> result == Err::<u8, OutOfBounds>(OutOfBounds::Read),
    {
        if self.pos >= CAPACITY {
            return Err(OutOfBounds::Read);
        }
        Ok(self.buf[pos])
    }

    /// Reads the byte at the cursor and advances the cursor by one. Fails
    /// exactly when the cursor stands at `CAPACITY`, leaving it unchanged.
    pub fn read(&mut self) -> (result: Result<u8, OutOfBounds>)
        requires
            old(self).wf(),
        ensures
            final(self).wf(),
            final(self).storage() == old(self).storage(),
            old(self).cursor() < CAPACITY ==> (result == Ok::<u8, OutOfBounds>(
                old(self).storage()[old(self).cursor() as int],
            ) && final(self).cursor() == old(self).cursor() + 1),
            old(self).cursor() >= CAPACITY ==> (result == Err::<u8, OutOfBounds>(
                OutOfBounds::Read,
            ) && final(self).cursor() == old(self).cursor()),
    {
        let value: u8 = match self.get(self.pos) {
            Ok(byte) => byte,
            Err(error) => {
                return Err(error);
            },
        };
        self.pos = self.pos + 1;
        Ok(value)
    }

    /// A read-only view of `len` bytes starting at `start`, without moving
    /// the cursor. Fails exactly when `start + len` reaches `CAPACITY`.
    pub fn get_range(&self, start: usize, len: usize) -> (result: Result<&[u8], OutOfBounds>)
        requires
            self.wf(),
        ensures
            start + len < CAPACITY ==> (result matches Ok(bytes) && bytes@ == self.storage()
                .subrange(start as int, start + len)),
            start + len >= CAPACITY ==> result == Err::<&[u8], OutOfBounds>(
                (OutOfBounds::Range { start, length: len, capacity: CAPACITY }),
            ),
    {
        if start >= CAPACITY || len >= CAPACITY - start {
            return Err(OutOfBounds::Range { start, length: len, capacity: CAPACITY });
        }
        Ok(vstd::slice::slice_subrange(self.buf.as_slice(), start, start + len))
    }

    /// Big-endian 16-bit read: two sequential `read` calls composed with the
    /// first byte most significant. On failure the cursor keeps the advance
    /// of whatever reads succeeded, so it ends at `CAPACITY`.
    pub fn read_u16(&mut self) -> (result: Result<u16, OutOfBounds>)
        requires
            old(self).wf(),
        ensures
            final(self).wf(),
            final(self).storage() == old(self).storage(),
            old(self).cursor() + 2 <= CAPACITY ==> (result == Ok::<u16, OutOfBounds>(
                be_u16(
                    old(self).storage()[old(self).cursor() as int],
                    old(self).storage()[old(self).cursor() as int + 1],
                ),
            ) && final(self).cursor() == old(self).cursor() + 2),
            old(self).cursor() + 2 > CAPACITY ==> (result == Err::<u16, OutOfBounds>(
                OutOfBounds::Read,
            ) && final(self).cursor() == CAPACITY),
    {
        let hi: u8 = match self.read() {
            Ok(byte) => byte,
            Err(error) => {
                return Err(error);
            },
        };
        let lo: u8 = match self.read() {
            Ok(byte) => byte,
            Err(error) => {
                return Err(error);
            },
        };
        Ok((hi as u16) * 0x100 + (lo as u16))
    }

    /// Big-endian 32-bit read: four sequential `read` calls composed with
    /// the first byte most significant. On failure the cursor keeps the
    /// advance of whatever reads succeeded, so it ends at `CAPACITY`.
    pub fn read_u32(&mut self) -> (result: Result<u32, OutOfBounds>)
        requires
            old(self).wf(),
        ensures
            final(self).wf(),
            final(self).storage() == old(self).storage(),
            old(self).cursor() + 4 <= CAPACITY ==> (result == Ok::<u32, OutOfBounds>(
                be_u32(
                    old(self).storage()[old(self).cursor() as int],
                    old(self).storage()[old(self).cursor() as int + 1],
                    old(self).storage()[old(self).cursor() as int + 2],
                    old(self).storage()[old(self).cursor() as int + 3],
                ),
            ) && final(self).cursor() == old(self).cursor() + 4),
            old(self).cursor() + 4 > CAPACITY ==> (result == Err::<u32, OutOfBounds>(
                OutOfBounds::Read,
            ) && final(self).cursor() == CAPACITY),
    {
        let b0: u8 = match self.read() {
            Ok(byte) => byte,
            Err(error) => {
                return Err(error);
            },
        };
        let b1: u8 = match self.read() {
            Ok(byte) => byte,
            Err(error) => {
                return Err(error);
            },
        };
        let b2: u8 = match self.read() {
            Ok(byte) => byte,
            Err(error) => {
                return Err(error);
            },
        };
        let b3: u8 = match self.read() {
            Ok(byte) => byte,
            Err(error) => {
                return Err(error);
            },
        };
        Ok((b0 as u32) * 0x100_0000 + (b1 as u32) * 0x1_0000 + (b2 as u32) * 0x100 + (b3 as u32))
    }

    /// The fixed capacity: the total number of bytes the storage holds.
    pub fn capacity(&self) -> (cap: usize)
        ensures
            cap == CAPACITY,
            cap == self.storage().len(),
    {
        CAPACITY
    }
}

} // verus!

