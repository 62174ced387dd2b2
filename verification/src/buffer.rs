//! Growable byte sink with a write cursor.
//!
//! A `Buffer` owns a contiguous, resizable byte sequence. Its view is the
//! sequence of bytes written so far; the capacity of the underlying vector
//! may exceed that length but is not part of the model.

use vstd::prelude::*;

verus! {

/// An owned, growable byte buffer. The current length is the write cursor;
/// every byte below it is meaningful, and appends only ever grow it
/// (except for the explicit cursor reset used by rollback).
pub struct Buffer {
    data: Vec<u8>,
}

impl View for Buffer {
    type V = Seq<u8>;

    closed spec fn view(&self) -> Seq<u8> {
        self.data@
    }
}

impl Buffer {
    /// An empty buffer with no backing storage yet.
    pub fn new() -> (b: Buffer)
        ensures
            b@ == Seq::<u8>::empty(),
    {
        Buffer { data: Vec::new() }
    }

    /// An empty buffer that has already reserved room for `capa` bytes.
    /// The capacity hint never shows in the contents.
    pub fn with_capacity(capa: usize) -> (b: Buffer)
        ensures
            b@ == Seq::<u8>::empty(),
    {
        Buffer { data: Vec::with_capacity(capa) }
    }

    /// The write cursor: how many bytes stand in the buffer.
    pub fn get_current_position(&self) -> (pos: usize)
        ensures
            pos == self@.len(),
    {
        self.data.len()
    }

    /// Truncates the buffer back to `pos`, discarding everything written
    /// after that point.
    pub fn set_current_position(&mut self, pos: usize)
        requires
            pos <= old(self)@.len(),
        ensures
            final(self)@ == old(self)@.subrange(0, pos as int),
    {
        self.data.truncate(pos);
    }

    /// Resets the length to zero; the allocated storage is retained.
    pub fn clear(&mut self)
        ensures
            final(self)@ == Seq::<u8>::empty(),
    {
        self.data.clear();
    }

    /// Direct access to the underlying byte vector.
    pub fn as_mut_ref(&mut self) -> (v: &mut Vec<u8>)
        ensures
            v@ == old(self)@,
            final(self)@ == final(v)@,
    {
        &mut self.data
    }

    /// Reserves room for at least `additional` more bytes, so that the
    /// writes of one composite operation need no further capacity check.
    /// The contents do not change.
    pub(crate) fn reserve(&mut self, additional: usize)
        ensures
            final(self)@ == old(self)@,
    {
        self.data.reserve(additional);
    }

    /// Appends one byte.
    pub fn push(&mut self, byte: u8)
        ensures
            final(self)@ == old(self)@.push(byte),
    {
        self.data.push(byte);
    }

    /// Appends all of `bytes`.
    pub fn push_all(&mut self, bytes: &[u8])
        ensures
            final(self)@ == old(self)@ + bytes@,
    {
        let n = bytes.len();
        let mut i: usize = 0;
        proof {
            assert(old(self)@ + bytes@.subrange(0, 0) =~= old(self)@);
        }
        while i < n
            invariant
                n == bytes@.len(),
                i <= n,
                self@ == old(self)@ + bytes@.subrange(0, i as int),
            decreases n - i,
        {
            let b = bytes[i];
            self.data.push(b);
            i = i + 1;
            proof {
                assert(self@ =~= old(self)@ + bytes@.subrange(0, i as int));
            }
        }
        proof {
            assert(bytes@.subrange(0, n as int) =~= bytes@);
        }
    }

    /// Appends `around`, then all of `bytes`, then `around` again, as one
    /// delimited block.
    pub fn push_all_around(&mut self, around: u8, bytes: &[u8])
        ensures
            final(self)@ == old(self)@ + seq![around] + bytes@ + seq![around],
    {
        self.reserve(bytes.len().saturating_add(2));
        self.data.push(around);
        self.push_all(bytes);
        self.data.push(around);
        proof {
            assert(self@ =~= old(self)@ + seq![around] + bytes@ + seq![around]);
        }
    }

    /// Appends `before`, then `bytes`, then `after`, as one block.
    pub fn push_all_around2(&mut self, before: &[u8], bytes: &[u8], after: &[u8])
        ensures
            final(self)@ == old(self)@ + before@ + bytes@ + after@,
    {
        self.reserve(before.len().saturating_add(bytes.len()).saturating_add(after.len()));
        self.push_all(before);
        self.push_all(bytes);
        self.push_all(after);
        proof {
            assert(self@ =~= old(self)@ + before@ + bytes@ + after@);
        }
    }

    /// Consumes the buffer and hands out the bytes written so far.
    pub fn into_vec(self) -> (v: Vec<u8>)
        ensures
            v@ == self@,
    {
        self.data
    }
}

} // verus!
