use vstd::prelude::*;

use crate::error::GifError;

verus! {

/// The value of the two bytes at `i` composed little-endian: the first byte
/// supplies the low eight bits, the second the high eight.
pub open spec fn le16_at(s: Seq<u8>, i: int) -> u16
    recommends
        0 <= i,
        i + 2 <= s.len(),
{
    (s[i] + 256 * s[i + 1]) as u16
}

/// The value of the two bytes at `i` composed the way `read_u16` does: the
/// first byte shifted left by seven, or-ed with the second.
pub open spec fn shift7_16_at(s: Seq<u8>, i: int) -> u16
    recommends
        0 <= i,
        i + 2 <= s.len(),
{
    ((s[i] as u16) << 7) | (s[i + 1] as u16)
}

/// The value of the four bytes at `i` composed the way `read_u32` does: two
/// `shift7_16_at` halves, the first shifted left by fifteen, or-ed together.
pub open spec fn shift15_32_at(s: Seq<u8>, i: int) -> u32
    recommends
        0 <= i,
        i + 4 <= s.len(),
{
    ((shift7_16_at(s, i) as u32) << 15) | (shift7_16_at(s, i + 2) as u32)
}

/// A sequential cursor over the full contents of a GIF stream held in
/// memory: the bytes, their count, and a zero-based read position.
///
/// Invariant (`wf`): the position never passes the end of the buffer, and
/// `size` always records the buffer length. Reads that would pass the end
/// fail with `GifError::BufferUnderrun` and leave the position unchanged.
#[derive(Debug, PartialEq)]
pub struct GifBuffer {
    pub buffer: Vec<u8>,
    pub size: usize,
    pub pointer: usize,
}

impl GifBuffer {
    /// Well-formedness: the read position stays within the buffer and
    /// `size` is the buffer length.
    pub open spec fn wf(&self) -> bool {
        self.pointer <= self.size && self.size == self.buffer@.len()
    }

    /// How many bytes are left to read.
    pub open spec fn remaining(&self) -> int {
        self.size - self.pointer
    }

    /// Wraps a fully loaded byte sequence in a cursor positioned at the
    /// start.
    pub fn new(bytes: Vec<u8>) -> (buf: GifBuffer)
        ensures
            buf.wf(),
            buf.buffer@ == bytes@,
            buf.pointer == 0,
            buf.size == bytes@.len(),
    {
        let size = bytes.len();
        GifBuffer { buffer: bytes, size, pointer: 0 }
    }

    /// The current read position.
    pub fn get_pointer(&self) -> (p: usize)
        ensures
            p == self.pointer,
    {
        self.pointer
    }

    /// The total number of bytes in the buffer.
    pub fn get_size(&self) -> (s: usize)
        ensures
            s == self.size,
    {
        self.size
    }

    /// Reads the byte at the current position and advances by one.
    pub fn read_u8(&mut self) -> (r: Result<u8, GifError>)
        requires
            old(self).wf(),
        ensures
            final(self).wf(),
            final(self).buffer@ == old(self).buffer@,
            final(self).size == old(self).size,
            match r {
                Ok(b) => {
                    &&& old(self).remaining() >= 1
                    &&& b == old(self).buffer@[old(self).pointer as int]
                    &&& final(self).pointer == old(self).pointer + 1
                },
                Err(e) => {
                    &&& e == GifError::BufferUnderrun
                    &&& old(self).remaining() == 0
                    &&& final(self).pointer == old(self).pointer
                },
            },
    {
        if self.pointer >= self.size {
            return Err(GifError::BufferUnderrun);
        }
        let b = self.buffer[self.pointer];
        self.pointer = self.pointer + 1;
        Ok(b)
    }

    /// Returns the byte at the current position without advancing.
    pub fn peek_u8(&self) -> (r: Result<u8, GifError>)
        requires
            self.wf(),
        ensures
            match r {
                Ok(b) => self.remaining() >= 1 && b == self.buffer@[self.pointer as int],
                Err(e) => e == GifError::BufferUnderrun && self.remaining() == 0,
            },
    {
        if self.pointer >= self.size {
            return Err(GifError::BufferUnderrun);
        }
        Ok(self.buffer[self.pointer])
    }

    /// Reads two bytes as a little-endian 16-bit value (low byte first).
    pub fn read_le_u16(&mut self) -> (r: Result<u16, GifError>)
        requires
            old(self).wf(),
        ensures
            final(self).wf(),
            final(self).buffer@ == old(self).buffer@,
            final(self).size == old(self).size,
            match r {
                Ok(v) => {
                    &&& old(self).remaining() >= 2
                    &&& v == le16_at(old(self).buffer@, old(self).pointer as int)
                    &&& final(self).pointer == old(self).pointer + 2
                },
                Err(e) => {
                    &&& e == GifError::BufferUnderrun
                    &&& old(self).remaining() < 2
                    &&& final(self).pointer == old(self).pointer
                },
            },
    {
        if self.size - self.pointer < 2 {
            return Err(GifError::BufferUnderrun);
        }
        let b0 = self.buffer[self.pointer];
        let b1 = self.buffer[self.pointer + 1];
        self.pointer = self.pointer + 2;
        let v = (b0 as u16) | ((b1 as u16) << 8);
        proof {
            assert((b0 as u16) | ((b1 as u16) << 8) == b0 + 256 * b1) by (bit_vector);
        }
        Ok(v)
    }

    /// Reads two bytes, composing the first shifted left by seven with the
    /// second. The two bit ranges overlap at bit seven; this reproduces the
    /// historical composition of this decoder, not a big-endian read.
    pub fn read_u16(&mut self) -> (r: Result<u16, GifError>)
        requires
            old(self).wf(),
        ensures
            final(self).wf(),
            final(self).buffer@ == old(self).buffer@,
            final(self).size == old(self).size,
            match r {
                Ok(v) => {
                    &&& old(self).remaining() >= 2
                    &&& v == shift7_16_at(old(self).buffer@, old(self).pointer as int)
                    &&& final(self).pointer == old(self).pointer + 2
                },
                Err(e) => {
                    &&& e == GifError::BufferUnderrun
                    &&& old(self).remaining() < 2
                    &&& final(self).pointer == old(self).pointer
                },
            },
    {
        if self.size - self.pointer < 2 {
            return Err(GifError::BufferUnderrun);
        }
        let b0 = self.buffer[self.pointer];
        let b1 = self.buffer[self.pointer + 1];
        self.pointer = self.pointer + 2;
        Ok(((b0 as u16) << 7) | (b1 as u16))
    }

    /// Reads four bytes as two `read_u16` halves, composing the first
    /// shifted left by fifteen with the second.
    pub fn read_u32(&mut self) -> (r: Result<u32, GifError>)
        requires
            old(self).wf(),
        ensures
            final(self).wf(),
            final(self).buffer@ == old(self).buffer@,
            final(self).size == old(self).size,
            match r {
                Ok(v) => {
                    &&& old(self).remaining() >= 4
                    &&& v == shift15_32_at(old(self).buffer@, old(self).pointer as int)
                    &&& final(self).pointer == old(self).pointer + 4
                },
                Err(e) => {
                    &&& e == GifError::BufferUnderrun
                    &&& old(self).remaining() < 4
                    &&& final(self).pointer == old(self).pointer
                },
            },
    {
        if self.size - self.pointer < 4 {
            return Err(GifError::BufferUnderrun);
        }
        let hi = match self.read_u16() {
            Ok(v) => v,
            Err(e) => {
                return Err(e);
            },
        };
        let lo = match self.read_u16() {
            Ok(v) => v,
            Err(e) => {
                return Err(e);
            },
        };
        Ok(((hi as u32) << 15) | (lo as u32))
    }

    /// Reads the next `n` bytes as an owned vector, advancing by `n`.
    pub fn read_slice(&mut self, n: usize) -> (r: Result<Vec<u8>, GifError>)
        requires
            old(self).wf(),
        ensures
            final(self).wf(),
            final(self).buffer@ == old(self).buffer@,
            final(self).size == old(self).size,
            match r {
                Ok(bytes) => {
                    &&& old(self).remaining() >= n
                    &&& bytes@ == old(self).buffer@.subrange(
                        old(self).pointer as int,
                        old(self).pointer + n,
                    )
                    &&& final(self).pointer == old(self).pointer + n
                },
                Err(e) => {
                    &&& e == GifError::BufferUnderrun
                    &&& old(self).remaining() < n
                    &&& final(self).pointer == old(self).pointer
                },
            },
    {
        if self.size - self.pointer < n {
            return Err(GifError::BufferUnderrun);
        }
        let mut out: Vec<u8> = Vec::new();
        let mut i: usize = 0;
        while i < n
            invariant
                self.wf(),
                i <= n,
                self.pointer + n <= self.size,
                out@ == self.buffer@.subrange(self.pointer as int, self.pointer + i),
            decreases n - i,
        {
            out.push(self.buffer[self.pointer + i]);
            proof {
                assert(out@ =~= self.buffer@.subrange(
                    self.pointer as int,
                    self.pointer + i + 1,
                ));
            }
            i = i + 1;
        }
        self.pointer = self.pointer + n;
        Ok(out)
    }

    /// Advances past one byte without reading it.
    pub fn skip_u8(&mut self) -> (r: Result<(), GifError>)
        requires
            old(self).wf(),
        ensures
            final(self).wf(),
            final(self).buffer@ == old(self).buffer@,
            final(self).size == old(self).size,
            match r {
                Ok(()) => old(self).remaining() >= 1 && final(self).pointer == old(self).pointer + 1,
                Err(e) => {
                    &&& e == GifError::BufferUnderrun
                    &&& old(self).remaining() == 0
                    &&& final(self).pointer == old(self).pointer
                },
            },
    {
        if self.pointer >= self.size {
            return Err(GifError::BufferUnderrun);
        }
        self.pointer = self.pointer + 1;
        Ok(())
    }
}

} // verus!
