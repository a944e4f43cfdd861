use crate::error::{Error, ErrorKind};
use crate::utils::{be_value, read_be_u16, read_be_u32, read_be_u64, read_be_u8};
use vstd::prelude::*;

verus! {

/// A read position over a borrowed byte buffer: the in-memory byte source
/// that every parser of this library consumes.
pub struct ByteReader<'a> {
    data: &'a [u8],
    pos: usize,
}

impl<'a> ByteReader<'a> {
    #[verifier::type_invariant]
    spec fn inv(self) -> bool {
        self.pos <= self.data@.len()
    }

    /// The whole buffer, consumed bytes included.
    pub closed spec fn buffer(&self) -> Seq<u8> {
        self.data@
    }

    /// How many bytes have been consumed.
    pub closed spec fn spec_position(&self) -> int {
        self.pos as int
    }

    /// The bytes not yet consumed.
    pub open spec fn remaining(&self) -> Seq<u8> {
        self.buffer().subrange(self.spec_position(), self.buffer().len() as int)
    }

    /// `self` is `before` with `n` more bytes consumed.
    pub open spec fn advanced(&self, before: &Self, n: int) -> bool {
        &&& self.buffer() == before.buffer()
        &&& self.spec_position() == before.spec_position() + n
        &&& self.remaining() == before.remaining().skip(n)
    }

    /// `self` is `before`, with nothing consumed.
    pub open spec fn unmoved(&self, before: &Self) -> bool {
        &&& self.buffer() == before.buffer()
        &&& self.spec_position() == before.spec_position()
        &&& self.remaining() == before.remaining()
    }

    pub fn new(data: &'a [u8]) -> (r: Self)
        ensures
            r.buffer() == data@,
            r.spec_position() == 0,
            r.remaining() == data@,
    {
        let r = ByteReader { data, pos: 0 };
        assert(r.remaining() =~= data@);
        r
    }

    pub fn position(&self) -> (p: usize)
        ensures
            p == self.spec_position(),
            p <= self.buffer().len(),
    {
        proof {
            use_type_invariant(self);
        }
        self.pos
    }

    /// Number of bytes in the whole buffer.
    pub fn len(&self) -> (n: usize)
        ensures
            n == self.buffer().len(),
    {
        self.data.len()
    }

    /// Number of bytes left.
    pub fn available(&self) -> (n: usize)
        ensures
            n == self.remaining().len(),
    {
        proof {
            use_type_invariant(self);
        }
        self.data.len() - self.pos
    }

    /// Takes exactly `n` bytes, or fails with `Io` and consumes nothing.
    pub fn read_exact(&mut self, n: usize) -> (r: Result<&'a [u8], Error>)
        ensures
            match r {
                Ok(bytes) => {
                    &&& n <= old(self).remaining().len()
                    &&& bytes@ == old(self).remaining().take(n as int)
                    &&& final(self).advanced(old(self), n as int)
                },
                Err(e) => {
                    &&& n > old(self).remaining().len()
                    &&& e.kind == ErrorKind::Io
                    &&& final(self).unmoved(old(self))
                },
            },
    {
        proof {
            use_type_invariant(&*self);
        }
        if n > self.data.len() - self.pos {
            return Err(Error::new(ErrorKind::Io, "failed to fill whole buffer"));
        }
        let start = self.pos;
        let data: &'a [u8] = self.data;
        let bytes = vstd::slice::slice_subrange(data, start, start + n);
        self.pos = start + n;
        assert(bytes@ =~= old(self).remaining().take(n as int));
        assert(self.remaining() =~= old(self).remaining().skip(n as int));
        Ok(bytes)
    }

    /// Moves forward by `n` bytes, or to the end where fewer are left.
    pub fn skip(&mut self, n: usize) -> (skipped: usize)
        ensures
            skipped == (if n <= old(self).remaining().len() {
                n as int
            } else {
                old(self).remaining().len() as int
            }),
            final(self).advanced(old(self), skipped as int),
    {
        proof {
            use_type_invariant(&*self);
        }
        let left = self.data.len() - self.pos;
        let step = if n <= left {
            n
        } else {
            left
        };
        self.pos = self.pos + step;
        assert(self.remaining() =~= old(self).remaining().skip(step as int));
        step
    }

    /// Moves to `position` counted from the start of the buffer, or to the
    /// end where the buffer is shorter.
    pub fn seek(&mut self, position: usize)
        ensures
            final(self).buffer() == old(self).buffer(),
            final(self).spec_position() == (if position <= old(self).buffer().len() {
                position as int
            } else {
                old(self).buffer().len() as int
            }),
    {
        self.pos = if position <= self.data.len() {
            position
        } else {
            self.data.len()
        };
    }

    /// Reads one byte.
    pub fn read_be_u8(&mut self) -> (r: Result<u8, Error>)
        ensures
            match r {
                Ok(v) => {
                    &&& old(self).remaining().len() >= 1
                    &&& v as nat == be_value(old(self).remaining().take(1))
                    &&& final(self).advanced(old(self), 1)
                },
                Err(e) => {
                    &&& old(self).remaining().len() < 1
                    &&& e.kind == ErrorKind::Io
                    &&& final(self).unmoved(old(self))
                },
            },
    {
        let bytes = self.read_exact(1)?;
        assert(bytes@.take(1) =~= bytes@);
        match read_be_u8(bytes) {
            Some(v) => Ok(v),
            None => Err(Error::new(ErrorKind::Io, "failed to fill whole buffer")),
        }
    }

    /// Reads a big-endian 16-bit number.
    pub fn read_be_u16(&mut self) -> (r: Result<u16, Error>)
        ensures
            match r {
                Ok(v) => {
                    &&& old(self).remaining().len() >= 2
                    &&& v as nat == be_value(old(self).remaining().take(2))
                    &&& final(self).advanced(old(self), 2)
                },
                Err(e) => {
                    &&& old(self).remaining().len() < 2
                    &&& e.kind == ErrorKind::Io
                    &&& final(self).unmoved(old(self))
                },
            },
    {
        let bytes = self.read_exact(2)?;
        assert(bytes@.take(2) =~= bytes@);
        match read_be_u16(bytes) {
            Some(v) => Ok(v),
            None => Err(Error::new(ErrorKind::Io, "failed to fill whole buffer")),
        }
    }

    /// Reads a big-endian 32-bit number.
    pub fn read_be_u32(&mut self) -> (r: Result<u32, Error>)
        ensures
            match r {
                Ok(v) => {
                    &&& old(self).remaining().len() >= 4
                    &&& v as nat == be_value(old(self).remaining().take(4))
                    &&& final(self).advanced(old(self), 4)
                },
                Err(e) => {
                    &&& old(self).remaining().len() < 4
                    &&& e.kind == ErrorKind::Io
                    &&& final(self).unmoved(old(self))
                },
            },
    {
        let bytes = self.read_exact(4)?;
        assert(bytes@.take(4) =~= bytes@);
        match read_be_u32(bytes) {
            Some(v) => Ok(v),
            None => Err(Error::new(ErrorKind::Io, "failed to fill whole buffer")),
        }
    }

    /// Reads a big-endian 64-bit number.
    pub fn read_be_u64(&mut self) -> (r: Result<u64, Error>)
        ensures
            match r {
                Ok(v) => {
                    &&& old(self).remaining().len() >= 8
                    &&& v as nat == be_value(old(self).remaining().take(8))
                    &&& final(self).advanced(old(self), 8)
                },
                Err(e) => {
                    &&& old(self).remaining().len() < 8
                    &&& e.kind == ErrorKind::Io
                    &&& final(self).unmoved(old(self))
                },
            },
    {
        let bytes = self.read_exact(8)?;
        assert(bytes@.take(8) =~= bytes@);
        match read_be_u64(bytes) {
            Some(v) => Ok(v),
            None => Err(Error::new(ErrorKind::Io, "failed to fill whole buffer")),
        }
    }
}

} // verus!
