//! The buffered stream adapter: a byte container plus a read/write cursor.

use vstd::prelude::*;
use crate::container::ByteContainer;

verus! {

/// How many bytes a read into a destination of length `want` transfers,
/// out of a container of length `len` with the cursor at `pos`.
pub open spec fn read_count(len: nat, pos: nat, want: nat) -> nat
    recommends
        pos <= len,
{
    if want <= len - pos {
        want
    } else {
        (len - pos) as nat
    }
}

/// The bytes a read into a destination of length `want` yields: the
/// window of the container starting at the cursor, clamped to the end.
pub open spec fn read_window(b: Seq<u8>, pos: nat, want: nat) -> Seq<u8>
    recommends
        pos <= b.len(),
{
    b.subrange(pos as int, (pos + read_count(b.len(), pos, want)) as int)
}

/// How many bytes a write of `src_len` bytes transfers, out of a container
/// of length `len` with the cursor at `pos`. A growable container accepts
/// everything; a fixed one clamps to the room that is left.
pub open spec fn write_count(len: nat, pos: nat, src_len: nat, grow: bool) -> nat
    recommends
        pos <= len,
{
    if grow {
        src_len
    } else if src_len <= len - pos {
        src_len
    } else {
        (len - pos) as nat
    }
}

/// The container contents after writing `src` at `pos` into contents `b`.
/// The transferred prefix of `src` lands at offsets `pos ..`, possibly
/// extending a growable container; everything else is untouched.
pub open spec fn written(b: Seq<u8>, pos: nat, src: Seq<u8>, grow: bool) -> Seq<u8>
    recommends
        pos <= b.len(),
{
    let n = write_count(b.len(), pos, src.len(), grow);
    let new_len: nat = if pos + n > b.len() {
        (pos + n) as nat
    } else {
        b.len()
    };
    Seq::new(
        new_len,
        |j: int|
            if pos <= j < pos + n {
                src[j - pos]
            } else {
                b[j]
            },
    )
}

/// A byte container with a cursor marking the next offset to read or write.
pub struct BufStream<T> {
    container: T,
    position: usize,
}

impl<T: ByteContainer> BufStream<T> {
    /// The bytes currently held by the underlying container.
    pub closed spec fn bytes(&self) -> Seq<u8> {
        self.container.contents()
    }

    /// The cursor: the offset of the next byte to read or write.
    pub closed spec fn pos(&self) -> nat {
        self.position as nat
    }

    /// Whether writes may extend the underlying container.
    pub closed spec fn grows(&self) -> bool {
        self.container.growable()
    }

    /// The cursor never runs past the end of the container.
    pub open spec fn wf(&self) -> bool {
        self.pos() <= self.bytes().len()
    }

    /// Wrap a container in a stream; the cursor starts at offset zero.
    pub fn new(container: T) -> (s: BufStream<T>)
        ensures
            s.wf(),
            s.bytes() == container.contents(),
            s.pos() == 0,
            s.grows() == container.growable(),
    {
        BufStream { container, position: 0 }
    }

    /// Copy bytes from the cursor onward into the front of `dest`.
    ///
    /// Transfers `min(dest.len(), remaining)` bytes and advances the
    /// cursor by that count. A count of zero with a non-empty `dest`
    /// signals end-of-stream; with an empty `dest` it signals nothing.
    pub fn read(&mut self, dest: &mut [u8]) -> (n: usize)
        requires
            old(self).wf(),
        ensures
            final(self).wf(),
            old(self).pos() <= final(self).pos(),
            n == read_count(old(self).bytes().len(), old(self).pos(), old(dest)@.len()),
            final(self).bytes() == old(self).bytes(),
            final(self).grows() == old(self).grows(),
            final(self).pos() == old(self).pos() + n,
            final(dest)@.len() == old(dest)@.len(),
            final(dest)@.take(n as int) == read_window(
                old(self).bytes(),
                old(self).pos(),
                old(dest)@.len(),
            ),
            forall|j: int|
                0 <= j < n ==> final(dest)@[j] == old(self).bytes()[old(self).pos() + j],
            forall|j: int| n <= j < old(dest)@.len() ==> final(dest)@[j] == old(dest)@[j],
    {
        let len = self.container.byte_len();
        let mut i: usize = 0;
        while i < dest.len() && self.position < len
            invariant
                self.wf(),
                len == self.bytes().len(),
                self.bytes() == old(self).bytes(),
                self.grows() == old(self).grows(),
                i <= dest@.len(),
                dest@.len() == old(dest)@.len(),
                self.position == old(self).pos() + i,
                forall|j: int|
                    0 <= j < i ==> dest@[j] == old(self).bytes()[old(self).pos() + j],
                forall|j: int| i <= j < dest@.len() ==> dest@[j] == old(dest)@[j],
            decreases old(dest)@.len() - i,
        {
            let b = self.container.byte_at(self.position);
            dest[i] = b;
            self.position = self.position + 1;
            i = i + 1;
        }
        proof {
            assert(dest@.take(i as int) =~= read_window(
                old(self).bytes(),
                old(self).pos(),
                old(dest)@.len(),
            ));
        }
        i
    }

    /// Copy bytes from the front of `src` into the container at the cursor.
    ///
    /// A growable container takes all of `src`, extending itself past its
    /// old end as needed; a fixed one takes `min(src.len(), remaining)`
    /// bytes and reports the short write through the returned count. The
    /// cursor advances by the count; nothing else changes.
    pub fn write(&mut self, src: &[u8]) -> (n: usize)
        requires
            old(self).wf(),
        ensures
            final(self).wf(),
            old(self).pos() <= final(self).pos(),
            n == write_count(old(self).bytes().len(), old(self).pos(), src@.len(), old(self).grows()),
            final(self).bytes() == written(old(self).bytes(), old(self).pos(), src@, old(self).grows()),
            final(self).grows() == old(self).grows(),
            final(self).pos() == old(self).pos() + n,
    {
        let grow = self.container.is_growable();
        let len0 = self.container.byte_len();
        let avail = len0 - self.position;
        let target: usize = if grow {
            src.len()
        } else if src.len() <= avail {
            src.len()
        } else {
            avail
        };
        let mut i: usize = 0;
        proof {
            assert(self.bytes() =~= written(
                old(self).bytes(),
                old(self).pos(),
                src@.take(0),
                grow,
            ));
        }
        while i < target
            invariant
                old(self).wf(),
                self.wf(),
                self.grows() == old(self).grows(),
                grow == self.grows(),
                i <= target,
                target <= src@.len(),
                target == write_count(old(self).bytes().len(), old(self).pos(), src@.len(), grow),
                self.position == old(self).pos() + i,
                self.bytes() == written(old(self).bytes(), old(self).pos(), src@.take(i as int), grow),
            decreases target - i,
        {
            let b = src[i];
            if self.position < self.container.byte_len() {
                self.container.set_byte(self.position, b);
                self.position = self.position + 1;
            } else {
                self.container.push_byte(b);
                // the grown length is a usize, so the cursor can follow it
                let _grown_len: usize = self.container.byte_len();
                self.position = self.position + 1;
            }
            i = i + 1;
            proof {
                assert(self.bytes() =~= written(
                    old(self).bytes(),
                    old(self).pos(),
                    src@.take(i as int),
                    grow,
                ));
            }
        }
        proof {
            assert(self.bytes() =~= written(old(self).bytes(), old(self).pos(), src@, grow));
        }
        target
    }

    /// Push any buffered data through: a no-op that always succeeds,
    /// for every container shape, since the data is already resident
    /// in memory.
    pub fn flush(&mut self)
        ensures
            *final(self) == *old(self),
    {
    }

    /// Consume the stream and hand the underlying container back.
    /// The cursor is discarded; the bytes are exactly the stream's bytes.
    pub fn into_inner(self) -> (c: T)
        ensures
            c.contents() == self.bytes(),
            c.growable() == self.grows(),
    {
        self.container
    }
}

/// The capability marker a framing layer requires of a transport: the
/// type both reads and writes. It is a pure declaration, adding no
/// state and no operations beyond the read/write pair, and is offered
/// only by the stream variants where both directions make sense.
pub trait Io {
}

impl Io for BufStream<Vec<u8>> {
}

impl<'a> Io for BufStream<&'a mut [u8]> {
}

impl Io for BufStream<Box<[u8]>> {
}

impl Default for BufStream<Vec<u8>> {
    /// An empty growable stream: no bytes, cursor at zero.
    fn default() -> (s: BufStream<Vec<u8>>)
        ensures
            s.wf(),
            s.bytes() == Seq::<u8>::empty(),
            s.pos() == 0,
            s.grows(),
    {
        BufStream::new(Vec::new())
    }
}

} // verus!
