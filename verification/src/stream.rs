//! A seekable byte stream over a buffer in memory.
//!
//! Every decoder of the crate pulls its bytes through [`ByteReader`]: a
//! buffer and a position in it. A read takes the bytes at the position and
//! moves past them, or fails at the end of the buffer; a seek moves the
//! position alone and may leave it beyond the end.

use vstd::prelude::*;
use vstd::slice::slice_subrange;

verus! {

/// Why a read or a seek on a byte stream failed.
#[derive(Clone, Copy, Debug, PartialEq, Eq, Structural)]
pub enum StreamError {
    /// The buffer ended before a read was filled.
    UnexpectedEof,
    /// A seek asked for a position before the start or beyond what can be
    /// counted.
    InvalidSeek,
    /// The medium behind the stream failed. A buffer in memory never does;
    /// a caller that fills the buffer from a file may have this to report.
    Other,
}

/// Where a seek starts counting from.
#[derive(Clone, Copy, Debug, PartialEq, Eq, Structural)]
pub enum SeekFrom {
    /// From the first byte of the buffer.
    Start(u64),
    /// From the end of the buffer.
    End(i64),
    /// From the current position.
    Current(i64),
}

/// The position that a seek to `to` asks for, in a buffer of `len` bytes
/// read up to `pos`.
pub open spec fn seek_target(len: nat, pos: nat, to: SeekFrom) -> int {
    match to {
        SeekFrom::Start(n) => n as int,
        SeekFrom::End(n) => len + n,
        SeekFrom::Current(n) => pos + n,
    }
}

/// The eight bytes at `pos`, read as a little-endian 64-bit word.
pub open spec fn word_at(data: Seq<u8>, pos: int) -> u64 {
    vstd::bytes::spec_u64_from_le_bytes(data.subrange(pos, pos + 8))
}

/// A buffer of bytes and a position in it.
pub struct ByteReader<'a> {
    data: &'a [u8],
    pos: u64,
}

impl<'a> ByteReader<'a> {
    /// The whole buffer, read or not.
    pub closed spec fn data(&self) -> Seq<u8> {
        self.data@
    }

    /// The position of the next read.
    pub closed spec fn pos(&self) -> nat {
        self.pos as nat
    }

    /// Whether `count` more bytes can be read.
    pub open spec fn can_read(&self, count: nat) -> bool {
        self.pos() + count <= self.data().len()
    }

    /// A reader at the start of `data`.
    pub fn new(data: &'a [u8]) -> (reader: Self)
        ensures
            reader.data() == data@,
            reader.pos() == 0,
    {
        ByteReader { data, pos: 0 }
    }

    pub fn position(&self) -> (pos: u64)
        ensures
            pos == self.pos(),
    {
        self.pos
    }

    /// Reads exactly `count` bytes. At the end of the buffer nothing is
    /// handed out and the position is left at the end.
    pub fn read_exact(&mut self, count: usize) -> (read: Result<&'a [u8], StreamError>)
        ensures
            final(self).data() == old(self).data(),
            old(self).can_read(count as nat) ==> {
                &&& read matches Ok(bytes)
                &&& bytes@ == old(self).data().subrange(
                    old(self).pos() as int,
                    old(self).pos() + count,
                )
                &&& final(self).pos() == old(self).pos() + count
            },
            !old(self).can_read(count as nat) ==> {
                &&& read == Err::<&[u8], StreamError>(StreamError::UnexpectedEof)
                &&& final(self).pos() == old(self).data().len()
            },
    {
        let len = self.data.len();
        if self.pos <= len as u64 && count <= len - (self.pos as usize) {
            let start = self.pos as usize;
            let bytes = slice_subrange(self.data, start, start + count);
            self.pos = self.pos + count as u64;
            Ok(bytes)
        } else {
            self.pos = len as u64;
            Err(StreamError::UnexpectedEof)
        }
    }

    /// Reads eight bytes as a little-endian 64-bit word.
    pub fn read_u64(&mut self) -> (read: Result<u64, StreamError>)
        ensures
            final(self).data() == old(self).data(),
            old(self).can_read(8) ==> {
                &&& read == Ok::<u64, StreamError>(
                    word_at(old(self).data(), old(self).pos() as int),
                )
                &&& final(self).pos() == old(self).pos() + 8
            },
            !old(self).can_read(8) ==> {
                &&& read == Err::<u64, StreamError>(StreamError::UnexpectedEof)
                &&& final(self).pos() == old(self).data().len()
            },
    {
        match self.read_exact(8) {
            Ok(bytes) => Ok(vstd::bytes::u64_from_le_bytes(bytes)),
            Err(e) => Err(e),
        }
    }

    /// Moves the position without reading. The new position may lie beyond
    /// the end of the buffer; one before the start, or beyond 64 bits, is
    /// refused and the position stays.
    pub fn seek(&mut self, to: SeekFrom) -> (moved: Result<u64, StreamError>)
        ensures
            final(self).data() == old(self).data(),
            ({
                let target = seek_target(old(self).data().len(), old(self).pos(), to);
                if 0 <= target <= u64::MAX {
                    &&& moved == Ok::<u64, StreamError>(target as u64)
                    &&& final(self).pos() == target
                } else {
                    &&& moved == Err::<u64, StreamError>(StreamError::InvalidSeek)
                    &&& final(self).pos() == old(self).pos()
                }
            }),
    {
        let (base, offset): (u64, i64) = match to {
            SeekFrom::Start(n) => {
                self.pos = n;
                return Ok(n);
            },
            SeekFrom::End(n) => (self.data.len() as u64, n),
            SeekFrom::Current(n) => (self.pos, n),
        };
        if offset >= 0 {
            let forward = offset as u64;
            if forward <= u64::MAX - base {
                self.pos = base + forward;
                Ok(self.pos)
            } else {
                Err(StreamError::InvalidSeek)
            }
        } else {
            // `offset` may be `i64::MIN`, whose negation does not fit in an `i64`.
            let back = (-(offset + 1)) as u64 + 1;
            if back <= base {
                self.pos = base - back;
                Ok(self.pos)
            } else {
                Err(StreamError::InvalidSeek)
            }
        }
    }
}

} // verus!
