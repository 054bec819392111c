use vstd::prelude::*;
use crate::bytes::{be16, be32};
use crate::error::DecodeError;

verus! {

/// A bounds-checked sequential reader over a byte slice.
pub struct Cursor<'a> {
    buf: &'a [u8],
    pos: usize,
}

impl<'a> Cursor<'a> {
    /// The bytes read from.
    pub closed spec fn data(&self) -> Seq<u8> {
        self.buf@
    }

    /// The offset of the next read.
    pub closed spec fn pos(&self) -> int {
        self.pos as int
    }

    pub fn new(buf: &'a [u8]) -> (r: Self)
        ensures
            r.data() == buf@,
            r.pos() == 0,
    {
        Cursor { buf, pos: 0 }
    }

    pub fn position(&self) -> (r: usize)
        ensures
            r == self.pos(),
    {
        self.pos
    }

    /// Checks that `n` more bytes can be read, and fails with `OutOfBounds` otherwise.
    fn check(&self, n: usize) -> (r: Result<(), DecodeError>)
        ensures
            r.is_ok() == (self.pos() + n <= self.data().len()),
            r.is_err() ==> r == Err::<(), DecodeError>(
                DecodeError::OutOfBounds { offset: self.pos, len: self.buf@.len() as usize },
            ),
    {
        let len = self.buf.len();
        if self.pos > len || len - self.pos < n {
            Err(DecodeError::OutOfBounds { offset: self.pos, len })
        } else {
            Ok(())
        }
    }

    /// Reads one byte.
    pub fn read_u8(&mut self) -> (r: Result<u8, DecodeError>)
        ensures
            final(self).data() == old(self).data(),
            r.is_ok() == (old(self).pos() + 1 <= old(self).data().len()),
            r.is_ok() ==> r.unwrap() == old(self).data()[old(self).pos()] && final(self).pos()
                == old(self).pos() + 1,
            r.is_err() ==> r == Err::<u8, DecodeError>(
                DecodeError::OutOfBounds {
                    offset: old(self).pos() as usize,
                    len: old(self).data().len() as usize,
                },
            ) && final(self).pos() == old(self).pos(),
    {
        match self.check(1) {
            Err(e) => Err(e),
            Ok(()) => {
                let v = self.buf[self.pos];
                self.pos = self.pos + 1;
                Ok(v)
            },
        }
    }

    /// Reads a big-endian 16-bit value.
    pub fn read_u16(&mut self) -> (r: Result<u16, DecodeError>)
        ensures
            final(self).data() == old(self).data(),
            r.is_ok() == (old(self).pos() + 2 <= old(self).data().len()),
            r.is_ok() ==> r.unwrap() == be16(old(self).data(), old(self).pos()) && final(self).pos()
                == old(self).pos() + 2,
            r.is_err() ==> r == Err::<u16, DecodeError>(
                DecodeError::OutOfBounds {
                    offset: old(self).pos() as usize,
                    len: old(self).data().len() as usize,
                },
            ) && final(self).pos() == old(self).pos(),
    {
        match self.check(2) {
            Err(e) => Err(e),
            Ok(()) => {
                let p = self.pos;
                let v = (self.buf[p] as u16) * 256 + (self.buf[p + 1] as u16);
                self.pos = p + 2;
                Ok(v)
            },
        }
    }

    /// Reads a big-endian 32-bit value.
    pub fn read_u32(&mut self) -> (r: Result<u32, DecodeError>)
        ensures
            final(self).data() == old(self).data(),
            r.is_ok() == (old(self).pos() + 4 <= old(self).data().len()),
            r.is_ok() ==> r.unwrap() == be32(old(self).data(), old(self).pos()) && final(self).pos()
                == old(self).pos() + 4,
            r.is_err() ==> r == Err::<u32, DecodeError>(
                DecodeError::OutOfBounds {
                    offset: old(self).pos() as usize,
                    len: old(self).data().len() as usize,
                },
            ) && final(self).pos() == old(self).pos(),
    {
        match self.check(4) {
            Err(e) => Err(e),
            Ok(()) => {
                let p = self.pos;
                let v = (self.buf[p] as u32) * 16777216 + (self.buf[p + 1] as u32) * 65536
                    + (self.buf[p + 2] as u32) * 256 + (self.buf[p + 3] as u32);
                self.pos = p + 4;
                Ok(v)
            },
        }
    }

    /// Skips `n` bytes.
    pub fn skip(&mut self, n: usize) -> (r: Result<(), DecodeError>)
        ensures
            final(self).data() == old(self).data(),
            r.is_ok() == (old(self).pos() + n <= old(self).data().len()),
            r.is_ok() ==> final(self).pos() == old(self).pos() + n,
            r.is_err() ==> r == Err::<(), DecodeError>(
                DecodeError::OutOfBounds {
                    offset: old(self).pos() as usize,
                    len: old(self).data().len() as usize,
                },
            ) && final(self).pos() == old(self).pos(),
    {
        match self.check(n) {
            Err(e) => Err(e),
            Ok(()) => {
                let len = self.buf.len();
                assert(self.pos + n <= len);
                self.pos = self.pos + n;
                Ok(())
            },
        }
    }
}

} // verus!
