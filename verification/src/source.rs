//! An in-memory byte source: where the decoder takes its bytes from, one at
//! a time.

use vstd::prelude::*;

verus! {

/// The error of a `BufferSource` that has handed out all its bytes.
#[derive(Debug, Clone, Copy, PartialEq, Eq, Structural)]
pub struct EndOfInput;

/// A byte source that hands out the bytes of a buffer, front to back.
#[derive(Debug)]
pub struct BufferSource {
    bytes: Vec<u8>,
    pos: usize,
}

impl BufferSource {
    /// The bytes not handed out yet, in the order in which reads return
    /// them.
    pub closed spec fn pending(&self) -> Seq<u8> {
        if self.pos <= self.bytes@.len() {
            self.bytes@.subrange(self.pos as int, self.bytes@.len() as int)
        } else {
            Seq::empty()
        }
    }

    /// A source that will hand out `bytes`, starting with the first.
    pub fn new(bytes: Vec<u8>) -> (source: BufferSource)
        ensures
            source.pending() == bytes@,
    {
        let source = BufferSource { bytes, pos: 0 };
        assert(source.pending() =~= bytes@);
        source
    }

    /// The number of bytes not handed out yet.
    pub fn remaining(&self) -> (n: usize)
        ensures
            n == self.pending().len(),
    {
        if self.pos <= self.bytes.len() {
            self.bytes.len() - self.pos
        } else {
            0
        }
    }

    /// Reads one byte. When a byte is pending, the first one is returned and
    /// the rest stays pending. When none is, the read fails with
    /// `EndOfInput` and changes nothing.
    pub fn read_byte(&mut self) -> (r: Result<u8, EndOfInput>)
        ensures
            old(self).pending().len() > 0 ==> {
                &&& r == Ok::<u8, EndOfInput>(old(self).pending()[0])
                &&& final(self).pending() == old(self).pending().skip(1)
            },
            old(self).pending().len() == 0 ==> {
                &&& r == Err::<u8, EndOfInput>(EndOfInput)
                &&& *final(self) == *old(self)
            },
    {
        if self.pos < self.bytes.len() {
            let byte = self.bytes[self.pos];
            self.pos = self.pos + 1;
            assert(self.pending() =~= old(self).pending().skip(1));
            Ok(byte)
        } else {
            Err(EndOfInput)
        }
    }
}

} // verus!
