//! A sequential big-endian reader over a byte slice.
//!
//! Every primitive read either returns the value at the current position and
//! advances past it, or fails with `Error::Truncation` and leaves the
//! position unchanged. The specification functions below give the exact
//! big-endian value of each width at a position; all structure decoders state
//! their contracts in terms of them.

use vstd::prelude::*;
use vstd::slice::{slice_index_get, slice_subrange, slice_to_vec};

use crate::error::Error;

verus! {

/// True when `n` bytes are available at position `i` of `s`.
pub open spec fn can_read(s: Seq<u8>, i: int, n: int) -> bool {
    0 <= i && i + n <= s.len()
}

/// The big-endian 16-bit value at position `i` of `s`.
pub open spec fn be_u16_at(s: Seq<u8>, i: int) -> u16 {
    (s[i] * 0x100 + s[i + 1]) as u16
}

/// The big-endian 32-bit value at position `i` of `s`.
pub open spec fn be_u32_at(s: Seq<u8>, i: int) -> u32 {
    (s[i] * 0x100_0000 + s[i + 1] * 0x1_0000 + s[i + 2] * 0x100 + s[i + 3]) as u32
}

/// The big-endian 64-bit value at position `i` of `s`.
pub open spec fn be_u64_at(s: Seq<u8>, i: int) -> u64 {
    (be_u32_at(s, i) * 0x1_0000_0000 + be_u32_at(s, i + 4)) as u64
}

/// The big-endian 32-bit value at position `i` of `s`, reinterpreted as
/// a two's-complement signed value.
pub open spec fn be_i32_at(s: Seq<u8>, i: int) -> i32 {
    be_u32_at(s, i) as i32
}

/// The big-endian 64-bit value at position `i` of `s`, reinterpreted as
/// a two's-complement signed value.
pub open spec fn be_i64_at(s: Seq<u8>, i: int) -> i64 {
    be_u64_at(s, i) as i64
}

/// A byte source: a borrowed byte slice and a cursor, consumed strictly
/// left to right with no backtracking.
pub struct Reader<'a> {
    data: &'a [u8],
    pos: usize,
}

impl<'a> Reader<'a> {
    /// The underlying byte sequence.
    pub closed spec fn bytes(&self) -> Seq<u8> {
        self.data@
    }

    /// The cursor position.
    pub closed spec fn position(&self) -> int {
        self.pos as int
    }

    /// The cursor never lies beyond the end of the data.
    pub open spec fn wf(&self) -> bool {
        0 <= self.position() <= self.bytes().len()
    }

    /// A reader positioned at the start of `data`.
    pub fn new(data: &'a [u8]) -> (r: Reader<'a>)
        ensures
            r.bytes() == data@,
            r.position() == 0,
            r.wf(),
    {
        Reader { data, pos: 0 }
    }

    /// How many bytes remain.
    pub fn remaining(&self) -> (n: usize)
        requires
            self.wf(),
        ensures
            n == self.bytes().len() - self.position(),
    {
        self.data.len() - self.pos
    }

    /// Reads one byte.
    pub fn read_u8(&mut self) -> (r: Result<u8, Error>)
        requires
            old(self).wf(),
        ensures
            final(self).bytes() == old(self).bytes(),
            final(self).wf(),
            match r {
                Ok(b) => {
                    &&& can_read(old(self).bytes(), old(self).position(), 1)
                    &&& b == old(self).bytes()[old(self).position()]
                    &&& final(self).position() == old(self).position() + 1
                },
                Err(e) => {
                    &&& e == Error::Truncation
                    &&& !can_read(old(self).bytes(), old(self).position(), 1)
                    &&& final(self).position() == old(self).position()
                },
            },
    {
        if self.data.len() - self.pos >= 1 {
            let b = *slice_index_get(self.data, self.pos);
            self.pos = self.pos + 1;
            Ok(b)
        } else {
            Err(Error::Truncation)
        }
    }

    /// Reads a big-endian 16-bit value.
    pub fn read_u16(&mut self) -> (r: Result<u16, Error>)
        requires
            old(self).wf(),
        ensures
            final(self).bytes() == old(self).bytes(),
            final(self).wf(),
            match r {
                Ok(v) => {
                    &&& can_read(old(self).bytes(), old(self).position(), 2)
                    &&& v == be_u16_at(old(self).bytes(), old(self).position())
                    &&& final(self).position() == old(self).position() + 2
                },
                Err(e) => {
                    &&& e == Error::Truncation
                    &&& !can_read(old(self).bytes(), old(self).position(), 2)
                    &&& final(self).position() == old(self).position()
                },
            },
    {
        if self.data.len() - self.pos >= 2 {
            let b0 = *slice_index_get(self.data, self.pos);
            let b1 = *slice_index_get(self.data, self.pos + 1);
            self.pos = self.pos + 2;
            Ok((b0 as u16) * 0x100 + (b1 as u16))
        } else {
            Err(Error::Truncation)
        }
    }

    /// Reads a big-endian 32-bit value.
    pub fn read_u32(&mut self) -> (r: Result<u32, Error>)
        requires
            old(self).wf(),
        ensures
            final(self).bytes() == old(self).bytes(),
            final(self).wf(),
            match r {
                Ok(v) => {
                    &&& can_read(old(self).bytes(), old(self).position(), 4)
                    &&& v == be_u32_at(old(self).bytes(), old(self).position())
                    &&& final(self).position() == old(self).position() + 4
                },
                Err(e) => {
                    &&& e == Error::Truncation
                    &&& !can_read(old(self).bytes(), old(self).position(), 4)
                    &&& final(self).position() == old(self).position()
                },
            },
    {
        if self.data.len() - self.pos >= 4 {
            let b0 = *slice_index_get(self.data, self.pos);
            let b1 = *slice_index_get(self.data, self.pos + 1);
            let b2 = *slice_index_get(self.data, self.pos + 2);
            let b3 = *slice_index_get(self.data, self.pos + 3);
            self.pos = self.pos + 4;
            Ok((b0 as u32) * 0x100_0000 + (b1 as u32) * 0x1_0000 + (b2 as u32) * 0x100
                + (b3 as u32))
        } else {
            Err(Error::Truncation)
        }
    }

    /// Reads a big-endian 64-bit value.
    pub fn read_u64(&mut self) -> (r: Result<u64, Error>)
        requires
            old(self).wf(),
        ensures
            final(self).bytes() == old(self).bytes(),
            final(self).wf(),
            match r {
                Ok(v) => {
                    &&& can_read(old(self).bytes(), old(self).position(), 8)
                    &&& v == be_u64_at(old(self).bytes(), old(self).position())
                    &&& final(self).position() == old(self).position() + 8
                },
                Err(e) => {
                    &&& e == Error::Truncation
                    &&& !can_read(old(self).bytes(), old(self).position(), 8)
                    &&& final(self).position() == old(self).position()
                },
            },
    {
        if self.data.len() - self.pos >= 8 {
            let hi = match self.read_u32() {
                Ok(v) => v,
                Err(e) => { return Err(e); },
            };
            let lo = match self.read_u32() {
                Ok(v) => v,
                Err(e) => { return Err(e); },
            };
            Ok((hi as u64) * 0x1_0000_0000 + (lo as u64))
        } else {
            Err(Error::Truncation)
        }
    }

    /// Reads a big-endian 32-bit value as a two's-complement signed value.
    pub fn read_i32(&mut self) -> (r: Result<i32, Error>)
        requires
            old(self).wf(),
        ensures
            final(self).bytes() == old(self).bytes(),
            final(self).wf(),
            match r {
                Ok(v) => {
                    &&& can_read(old(self).bytes(), old(self).position(), 4)
                    &&& v == be_i32_at(old(self).bytes(), old(self).position())
                    &&& final(self).position() == old(self).position() + 4
                },
                Err(e) => {
                    &&& e == Error::Truncation
                    &&& !can_read(old(self).bytes(), old(self).position(), 4)
                    &&& final(self).position() == old(self).position()
                },
            },
    {
        match self.read_u32() {
            Ok(v) => Ok(#[verifier::truncate] (v as i32)),
            Err(e) => Err(e),
        }
    }

    /// Reads a big-endian 64-bit value as a two's-complement signed value.
    pub fn read_i64(&mut self) -> (r: Result<i64, Error>)
        requires
            old(self).wf(),
        ensures
            final(self).bytes() == old(self).bytes(),
            final(self).wf(),
            match r {
                Ok(v) => {
                    &&& can_read(old(self).bytes(), old(self).position(), 8)
                    &&& v == be_i64_at(old(self).bytes(), old(self).position())
                    &&& final(self).position() == old(self).position() + 8
                },
                Err(e) => {
                    &&& e == Error::Truncation
                    &&& !can_read(old(self).bytes(), old(self).position(), 8)
                    &&& final(self).position() == old(self).position()
                },
            },
    {
        match self.read_u64() {
            Ok(v) => Ok(#[verifier::truncate] (v as i64)),
            Err(e) => Err(e),
        }
    }

    /// Reads exactly `n` bytes into an owned vector.
    pub fn read_exact(&mut self, n: usize) -> (r: Result<Vec<u8>, Error>)
        requires
            old(self).wf(),
        ensures
            final(self).bytes() == old(self).bytes(),
            final(self).wf(),
            match r {
                Ok(v) => {
                    &&& can_read(old(self).bytes(), old(self).position(), n as int)
                    &&& v@ == old(self).bytes().subrange(
                        old(self).position(),
                        old(self).position() + n,
                    )
                    &&& final(self).position() == old(self).position() + n
                },
                Err(e) => {
                    &&& e == Error::Truncation
                    &&& !can_read(old(self).bytes(), old(self).position(), n as int)
                    &&& final(self).position() == old(self).position()
                },
            },
    {
        if self.data.len() - self.pos >= n {
            let s = slice_subrange(self.data, self.pos, self.pos + n);
            let v = slice_to_vec(s);
            self.pos = self.pos + n;
            Ok(v)
        } else {
            Err(Error::Truncation)
        }
    }
}

} // verus!
