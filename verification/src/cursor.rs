//! A sequential, forward-only reader over a finite byte source.
//!
//! The cursor is the only state that persists across instructions.
//! Its contracts are stated over the immutable underlying stream and
//! the current position; `remaining()` is the suffix still to be read.

use vstd::prelude::*;

verus! {

/// Forward-only cursor over a finite sequence of bytes.
pub struct ByteCursor {
    bytes: Vec<u8>,
    pos: usize,
}

impl ByteCursor {
    /// The whole underlying byte stream; never changed by reads.
    pub closed spec fn stream(&self) -> Seq<u8> {
        self.bytes@
    }

    /// How many bytes have been consumed so far.
    pub closed spec fn position(&self) -> int {
        self.pos as int
    }

    /// The suffix of the stream that has not been consumed yet.
    pub open spec fn remaining(&self) -> Seq<u8> {
        self.stream().skip(self.position())
    }

    /// The position never runs past the end of the stream.
    pub open spec fn wf(&self) -> bool {
        0 <= self.position() <= self.stream().len()
    }

    pub fn new(bytes: Vec<u8>) -> (c: ByteCursor)
        ensures
            c.wf(),
            c.stream() == bytes@,
            c.position() == 0,
    {
        ByteCursor { bytes, pos: 0 }
    }

    /// Read the next byte, or report clean exhaustion with `None`.
    pub fn next_byte(&mut self) -> (r: Option<u8>)
        requires
            old(self).wf(),
        ensures
            final(self).wf(),
            final(self).stream() == old(self).stream(),
            old(self).remaining().len() > 0 ==> (r == Some(old(self).remaining()[0])
                && final(self).position() == old(self).position() + 1),
            old(self).remaining().len() == 0 ==> (r is None
                && final(self).position() == old(self).position()),
    {
        if self.pos < self.bytes.len() {
            let b = self.bytes[self.pos];
            self.pos = self.pos + 1;
            Some(b)
        } else {
            None
        }
    }

    /// Read the next two bytes at once; fails without consuming
    /// anything when fewer than two bytes remain.
    pub fn next_two(&mut self) -> (r: Option<(u8, u8)>)
        requires
            old(self).wf(),
        ensures
            final(self).wf(),
            final(self).stream() == old(self).stream(),
            old(self).remaining().len() >= 2 ==> (r == Some(
                (old(self).remaining()[0], old(self).remaining()[1]),
            ) && final(self).position() == old(self).position() + 2),
            old(self).remaining().len() < 2 ==> (r is None
                && final(self).position() == old(self).position()),
    {
        if self.pos < self.bytes.len() && self.pos + 1 < self.bytes.len() {
            let lo = self.bytes[self.pos];
            let hi = self.bytes[self.pos + 1];
            self.pos = self.pos + 2;
            Some((lo, hi))
        } else {
            None
        }
    }
}

} // verus!
