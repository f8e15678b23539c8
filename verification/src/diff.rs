//! Comparing two files' contents chunk by chunk.
//!
//! Both files are read through buffers of [`BUF_SIZE`] bytes, one chunk of
//! each at a time. [`diff_chunks`] judges one pair of chunks; [`diff_files`]
//! says what the whole comparison comes to when every read fills its buffer
//! as far as the file reaches.

use vstd::prelude::*;
use crate::text::same_bytes;

verus! {

/// The number of bytes asked for in one read.
pub const BUF_SIZE: usize = 4096;

/// What one pair of chunks tells about two files.
#[derive(Clone, Copy, Debug, PartialEq, Eq, Structural)]
pub enum Verdict {
    /// Both files ended together and no chunk differed.
    Same,
    /// The chunks differ in length or in a byte.
    Different,
    /// The chunks agree and the files go on.
    Undecided,
}

/// The verdict on a chunk of the source and the chunk of the destination
/// read next to it.
pub open spec fn verdict(src: Seq<u8>, dst: Seq<u8>) -> Verdict {
    if src.len() != dst.len() {
        Verdict::Different
    } else if src.len() == 0 {
        Verdict::Same
    } else if src != dst {
        Verdict::Different
    } else {
        Verdict::Undecided
    }
}

/// Judges one chunk of the source against one chunk of the destination.
pub fn diff_chunks(src: &[u8], dst: &[u8]) -> (v: Verdict)
    ensures
        v == verdict(src@, dst@),
{
    if src.len() != dst.len() {
        Verdict::Different
    } else if src.len() == 0 {
        Verdict::Same
    } else if !same_bytes(src, dst) {
        Verdict::Different
    } else {
        Verdict::Undecided
    }
}

/// The chunk that a read of [`BUF_SIZE`] bytes takes off the front of `unread`.
pub open spec fn chunk(unread: Seq<u8>) -> Seq<u8> {
    if unread.len() <= BUF_SIZE {
        unread
    } else {
        unread.take(BUF_SIZE as int)
    }
}

/// What is left of `unread` after one read.
pub open spec fn after_chunk(unread: Seq<u8>) -> Seq<u8> {
    unread.skip(chunk(unread).len() as int)
}

/// Whether the chunk-by-chunk comparison finds `src` and `dst` the same.
pub open spec fn diff_files(src: Seq<u8>, dst: Seq<u8>) -> bool
    decreases src.len(),
{
    match verdict(chunk(src), chunk(dst)) {
        Verdict::Same => true,
        Verdict::Different => false,
        Verdict::Undecided => diff_files(after_chunk(src), after_chunk(dst)),
    }
}

/// The number of chunk pairs that the comparison of `src` and `dst` reads.
pub open spec fn rounds(src: Seq<u8>, dst: Seq<u8>) -> nat
    decreases src.len(),
{
    match verdict(chunk(src), chunk(dst)) {
        Verdict::Undecided => 1 + rounds(after_chunk(src), after_chunk(dst)),
        _ => 1,
    }
}

/// The chunk-by-chunk comparison finds two contents the same exactly when
/// they are equal, byte for byte and in length.
pub proof fn lemma_diff_files_is_equality(src: Seq<u8>, dst: Seq<u8>)
    ensures
        diff_files(src, dst) == (src == dst),
    decreases src.len(),
{
    let a = chunk(src);
    let b = chunk(dst);
    assert(src == a + after_chunk(src));
    assert(dst == b + after_chunk(dst));
    if verdict(a, b) == Verdict::Undecided {
        lemma_diff_files_is_equality(after_chunk(src), after_chunk(dst));
        if src == dst {
            assert(after_chunk(src) == after_chunk(dst));
        }
    } else if verdict(a, b) == Verdict::Same {
        assert(src == dst);
    } else {
        if src == dst {
            assert(a == b);
        }
    }
}

/// A content compared with itself is found the same.
pub proof fn lemma_diff_files_reflexive(bytes: Seq<u8>)
    ensures
        diff_files(bytes, bytes),
{
    lemma_diff_files_is_equality(bytes, bytes);
}

/// The comparison gives the same answer whichever content is taken as the
/// source.
pub proof fn lemma_diff_files_symmetric(src: Seq<u8>, dst: Seq<u8>)
    ensures
        diff_files(src, dst) == diff_files(dst, src),
{
    lemma_diff_files_is_equality(src, dst);
    lemma_diff_files_is_equality(dst, src);
}

/// Contents of different lengths are found different, and the comparison
/// stops with the pair of chunks in which the shorter one ends: it reads no
/// chunk that begins behind the shorter content's end.
pub proof fn lemma_diff_files_lengths(src: Seq<u8>, dst: Seq<u8>)
    requires
        src.len() != dst.len(),
    ensures
        !diff_files(src, dst),
        (rounds(src, dst) - 1) * BUF_SIZE <= src.len(),
        (rounds(src, dst) - 1) * BUF_SIZE <= dst.len(),
    decreases src.len(),
{
    if verdict(chunk(src), chunk(dst)) == Verdict::Undecided {
        lemma_diff_files_lengths(after_chunk(src), after_chunk(dst));
    }
}

} // verus!
