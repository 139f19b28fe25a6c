//! Laws of the stream model, stated once over the specification
//! functions that the read/write contracts use.

use vstd::prelude::*;
use crate::stream::{read_count, read_window, write_count, written};

verus! {

/// Round trip: writing any byte sequence into an empty growable stream
/// accepts every byte and leaves the container holding exactly that
/// sequence, so extracting the container afterwards returns it intact.
pub proof fn lemma_round_trip(s: Seq<u8>)
    ensures
        write_count(0, 0, s.len(), true) == s.len(),
        written(Seq::<u8>::empty(), 0, s, true) == s,
{
    assert(written(Seq::<u8>::empty(), 0, s, true) =~= s);
}

/// Read exhaustion: while the cursor is short of the end, a single-byte
/// read transfers exactly the byte under the cursor, so successive reads
/// walk the container in order; once the cursor has reached the end, the
/// count is zero.
pub proof fn lemma_read_exhaustion(b: Seq<u8>, k: nat)
    requires
        k <= b.len(),
    ensures
        k < b.len() ==> read_count(b.len(), k, 1) == 1,
        k < b.len() ==> read_window(b, k, 1) == seq![b[k as int]],
        k == b.len() ==> read_count(b.len(), k, 1) == 0,
{
    if k < b.len() {
        assert(read_window(b, k, 1) =~= seq![b[k as int]]);
    }
}

/// Fixed-length write clamp: writing more bytes than a fixed container
/// holds, from the start, transfers exactly the container's length and
/// leaves it equal to the written prefix; any further non-empty write
/// then transfers nothing and changes nothing.
pub proof fn lemma_fixed_write_clamp(b: Seq<u8>, src: Seq<u8>, later: Seq<u8>)
    requires
        src.len() > b.len(),
        later.len() > 0,
    ensures
        write_count(b.len(), 0, src.len(), false) == b.len(),
        written(b, 0, src, false) == src.take(b.len() as int),
        write_count(b.len(), b.len(), later.len(), false) == 0,
        written(src.take(b.len() as int), b.len(), later, false) == src.take(b.len() as int),
{
    assert(written(b, 0, src, false) =~= src.take(b.len() as int));
    assert(written(src.take(b.len() as int), b.len(), later, false) =~= src.take(
        b.len() as int,
    ));
}

/// Zero-length request idempotence: an empty read or write request
/// transfers nothing and leaves the container as it was, whatever the
/// stream's state; the contracts then keep the cursor where it was.
pub proof fn lemma_zero_length_request(b: Seq<u8>, pos: nat, grow: bool)
    requires
        pos <= b.len(),
    ensures
        read_count(b.len(), pos, 0) == 0,
        write_count(b.len(), pos, 0, grow) == 0,
        written(b, pos, Seq::<u8>::empty(), grow) == b,
{
    assert(written(b, pos, Seq::<u8>::empty(), grow) =~= b);
}

} // verus!
