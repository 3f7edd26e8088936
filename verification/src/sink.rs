//! Where the bytes of a hash go.
//!
//! Hashing an uncased string means handing its folded bytes, one at a time
//! and in order, to something that consumes bytes. [`ByteSink`] is that
//! consumer together with a record of what it was given, so that the
//! hashing functions can say what they feed. [`HasherSink`] makes a sink of
//! any [`Hasher`].
use vstd::prelude::*;
use core::hash::Hasher;

verus! {

/// A consumer of bytes that knows what it has consumed.
pub trait ByteSink {
    /// Every byte fed so far, oldest first.
    spec fn fed(&self) -> Seq<u8>;

    /// Takes one more byte.
    fn feed(&mut self, byte: u8)
        ensures
            final(self).fed() == old(self).fed().push(byte),
    ;
}

/// A vector collects the bytes it is fed.
impl ByteSink for Vec<u8> {
    open spec fn fed(&self) -> Seq<u8> {
        self@
    }

    fn feed(&mut self, byte: u8) {
        self.push(byte);
    }
}

/// A borrowed hasher, with the bytes written to it through this sink.
pub struct HasherSink<'h, H: Hasher> {
    hasher: &'h mut H,
    written: Ghost<Seq<u8>>,
}

impl<'h, H: Hasher> HasherSink<'h, H> {
    /// A sink over `hasher` to which nothing has been written yet.
    pub fn new(hasher: &'h mut H) -> (r: Self)
        ensures
            r.fed() == Seq::<u8>::empty(),
    {
        HasherSink { hasher, written: Ghost(Seq::empty()) }
    }
}

impl<'h, H: Hasher> ByteSink for HasherSink<'h, H> {
    closed spec fn fed(&self) -> Seq<u8> {
        self.written@
    }

    fn feed(&mut self, byte: u8) {
        write_u8(self.hasher, byte);
        self.written = Ghost(self.written@.push(byte));
    }
}

/// Calls [`Hasher::write_u8`] on `hasher`. What a hasher makes of a byte is
/// its own affair, so nothing is claimed of its state afterwards.
#[verifier::external_body]
fn write_u8<H: Hasher>(hasher: &mut H, byte: u8) {
    hasher.write_u8(byte)
}

} // verus!
