//! The abstract byte-container capability: read-only indexed access plus,
//! where the concrete container supports it, grow-or-overwrite access.
//!
//! Three container shapes implement it: `Vec<u8>` (owned, growable),
//! `&mut [u8]` (borrowed fixed-size mutable region) and `Box<[u8]>`
//! (owned fixed-size heap region). The stream adapter is generic over
//! this trait, so the cursor bookkeeping is written and proved once.

use vstd::prelude::*;

verus! {

/// A container of bytes that a stream cursor can walk over.
///
/// `contents` is the mathematical value of the container; `growable`
/// says whether writing past the end may extend it. Fixed-size
/// containers never grow: their `growable` is false and `push_byte`
/// is never reachable on them (its precondition demands `growable`).
pub trait ByteContainer: Sized {
    /// The bytes currently held, as a mathematical sequence.
    spec fn contents(&self) -> Seq<u8>;

    /// Whether a write past the current end may extend the container.
    spec fn growable(&self) -> bool;

    /// Number of bytes currently held.
    fn byte_len(&self) -> (n: usize)
        ensures
            n == self.contents().len(),
    ;

    /// Whether this container can grow (the executable mirror of `growable`).
    fn is_growable(&self) -> (g: bool)
        ensures
            g == self.growable(),
    ;

    /// The byte at offset `i`.
    fn byte_at(&self, i: usize) -> (b: u8)
        requires
            i < self.contents().len(),
        ensures
            b == self.contents()[i as int],
    ;

    /// Overwrite the byte at offset `i` in place.
    fn set_byte(&mut self, i: usize, b: u8)
        requires
            i < old(self).contents().len(),
        ensures
            final(self).contents() == old(self).contents().update(i as int, b),
            final(self).growable() == old(self).growable(),
    ;

    /// Append one byte at the end; only growable containers offer this.
    fn push_byte(&mut self, b: u8)
        requires
            old(self).growable(),
        ensures
            final(self).contents() == old(self).contents().push(b),
            final(self).growable() == old(self).growable(),
    ;
}

impl ByteContainer for Vec<u8> {
    open spec fn contents(&self) -> Seq<u8> {
        self@
    }

    open spec fn growable(&self) -> bool {
        true
    }

    fn byte_len(&self) -> (n: usize) {
        self.len()
    }

    fn is_growable(&self) -> (g: bool) {
        true
    }

    fn byte_at(&self, i: usize) -> (b: u8) {
        self[i]
    }

    fn set_byte(&mut self, i: usize, b: u8) {
        self[i] = b;
    }

    fn push_byte(&mut self, b: u8) {
        self.push(b);
    }
}

impl<'a> ByteContainer for &'a mut [u8] {
    open spec fn contents(&self) -> Seq<u8> {
        (**self)@
    }

    open spec fn growable(&self) -> bool {
        false
    }

    fn byte_len(&self) -> (n: usize) {
        (**self).len()
    }

    fn is_growable(&self) -> (g: bool) {
        false
    }

    fn byte_at(&self, i: usize) -> (b: u8) {
        (**self)[i]
    }

    fn set_byte(&mut self, i: usize, b: u8) {
        (**self)[i] = b;
    }

    fn push_byte(&mut self, b: u8) {
        // unreachable: a borrowed region is never growable, so the
        // precondition rules every call out
    }
}

impl ByteContainer for Box<[u8]> {
    open spec fn contents(&self) -> Seq<u8> {
        (**self)@
    }

    open spec fn growable(&self) -> bool {
        false
    }

    fn byte_len(&self) -> (n: usize) {
        (**self).len()
    }

    fn is_growable(&self) -> (g: bool) {
        false
    }

    fn byte_at(&self, i: usize) -> (b: u8) {
        (**self)[i]
    }

    fn set_byte(&mut self, i: usize, b: u8) {
        (**self)[i] = b;
    }

    fn push_byte(&mut self, b: u8) {
        // unreachable: a fixed heap region is never growable, so the
        // precondition rules every call out
    }
}

} // verus!
