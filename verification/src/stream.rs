//! A forward-only cursor over the bytes of a program.

use vstd::prelude::*;

verus! {

/// The cursor stood at the end of the buffer when a byte was asked for.
#[derive(Clone, Copy, Debug, PartialEq, Eq, Structural)]
pub struct EndOfStream;

/// A byte buffer together with a read position that only moves forward.
pub struct InstructionByteStream {
    bytes: Vec<u8>,
    cursor: usize,
}

impl InstructionByteStream {
    #[verifier::type_invariant]
    spec fn in_bounds(self) -> bool {
        self.cursor <= self.bytes.len()
    }

    /// The bytes of the buffer; they never change.
    pub closed spec fn content(&self) -> Seq<u8> {
        self.bytes@
    }

    /// The index of the next byte to be read.
    pub closed spec fn cursor(&self) -> int {
        self.cursor as int
    }

    /// A stream over `bytes`, positioned at its first byte.
    pub fn new(bytes: Vec<u8>) -> (stream: InstructionByteStream)
        ensures
            stream.content() == bytes@,
            stream.cursor() == 0,
    {
        InstructionByteStream { bytes, cursor: 0 }
    }

    /// Does nothing when it runs; it lets a caller conclude that the
    /// cursor lies within the buffer.
    pub fn note_bounds(&self)
        ensures
            0 <= self.cursor() <= self.content().len(),
    {
        proof {
            use_type_invariant(self);
        }
    }

    /// The index of the next byte to be read.
    pub fn position(&self) -> (position: usize)
        ensures
            position == self.cursor(),
            position <= self.content().len(),
    {
        proof {
            use_type_invariant(self);
        }
        self.cursor
    }

    /// The number of bytes in the buffer.
    pub fn len(&self) -> (length: usize)
        ensures
            length == self.content().len(),
            self.cursor() <= length,
    {
        proof {
            use_type_invariant(self);
        }
        self.bytes.len()
    }

    /// The number of bytes not yet read.
    pub fn remaining(&self) -> (count: usize)
        ensures
            count == self.content().len() - self.cursor(),
    {
        proof {
            use_type_invariant(self);
        }
        self.bytes.len() - self.cursor
    }

    /// Whether a byte is left to read.
    pub fn has_more(&self) -> (more: bool)
        ensures
            more == (self.cursor() < self.content().len()),
            self.cursor() <= self.content().len(),
    {
        proof {
            use_type_invariant(self);
        }
        self.cursor < self.bytes.len()
    }

    /// The next byte, without moving the cursor.
    pub fn peek_byte(&self) -> (result: Result<u8, EndOfStream>)
        ensures
            0 <= self.cursor() <= self.content().len(),
            match result {
                Ok(byte) => self.cursor() < self.content().len() && byte
                    == self.content()[self.cursor()],
                Err(_) => self.cursor() == self.content().len(),
            },
    {
        proof {
            use_type_invariant(self);
        }
        if self.cursor < self.bytes.len() {
            Ok(self.bytes[self.cursor])
        } else {
            Err(EndOfStream)
        }
    }

    /// The next byte, moving the cursor past it. At the end of the
    /// buffer nothing moves and `EndOfStream` is returned.
    pub fn next_byte(&mut self) -> (result: Result<u8, EndOfStream>)
        ensures
            final(self).content() == old(self).content(),
            0 <= old(self).cursor() <= final(self).cursor() <= old(self).content().len(),
            match result {
                Ok(byte) => old(self).cursor() < old(self).content().len() && byte == old(
                    self,
                ).content()[old(self).cursor()] && final(self).cursor() == old(self).cursor() + 1,
                Err(_) => old(self).cursor() == old(self).content().len() && final(self).cursor()
                    == old(self).cursor(),
            },
    {
        proof {
            use_type_invariant(&*self);
        }
        if self.cursor < self.bytes.len() {
            let byte: u8 = self.bytes[self.cursor];
            self.cursor = self.cursor + 1;
            Ok(byte)
        } else {
            Err(EndOfStream)
        }
    }
}

} // verus!
