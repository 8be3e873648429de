//! The metadata locator: a reverse scan of the database for the last
//! occurrence of the fixed metadata marker. The metadata region begins just
//! past that occurrence.
//!
//! The scan walks the file tail-first in chunks, each overlapping the next
//! by one byte less than the marker's length, so a marker split across a
//! chunk boundary is still found; the offset returned is the same for every
//! chunk size of at least the marker's length.

use vstd::prelude::*;
use vstd::slice::slice_subrange;

use crate::decoder::invalid;
use crate::error::MaxMindDBError;

verus! {

/// The marker bytes: `AB CD EF` followed by "MaxMind.com".
pub open spec fn spec_marker() -> Seq<u8> {
    seq![
        0xabu8,
        0xcdu8,
        0xefu8,
        0x4du8,
        0x61u8,
        0x78u8,
        0x4du8,
        0x69u8,
        0x6eu8,
        0x64u8,
        0x2eu8,
        0x63u8,
        0x6fu8,
        0x6du8,
    ]
}

/// `needle` occurs in `haystack` at position `i`.
pub open spec fn match_at(haystack: Seq<u8>, needle: Seq<u8>, i: int) -> bool {
    &&& 0 <= i
    &&& i + needle.len() <= haystack.len()
    &&& haystack.subrange(i, i + needle.len()) == needle
}

/// The metadata marker occurs in `data` at position `i`.
pub open spec fn marker_at(data: Seq<u8>, i: int) -> bool {
    match_at(data, spec_marker(), i)
}

/// `off` is what the locator owes on `data`: the offset just past the last
/// occurrence of the marker.
pub open spec fn is_metadata_start(data: Seq<u8>, off: int) -> bool {
    &&& marker_at(data, off - 14)
    &&& forall|j: int| j > off - 14 ==> !marker_at(data, j)
}

/// The marker, as bytes.
fn metadata_marker() -> (m: Vec<u8>)
    ensures
        m@ == spec_marker(),
{
    let mut m: Vec<u8> = Vec::new();
    m.push(0xab);
    m.push(0xcd);
    m.push(0xef);
    m.push(0x4d);
    m.push(0x61);
    m.push(0x78);
    m.push(0x4d);
    m.push(0x69);
    m.push(0x6e);
    m.push(0x64);
    m.push(0x2e);
    m.push(0x63);
    m.push(0x6f);
    m.push(0x6d);
    proof {
        assert(m@ =~= spec_marker());
    }
    m
}

/// Relies on `memchr::memmem::rfind`: it returns the index of the last
/// occurrence of `needle` in `haystack`, or `None` when it does not occur.
#[verifier::external_body]
fn rfind(haystack: &[u8], needle: &[u8]) -> (r: Option<usize>)
    ensures
        match r {
            Some(i) => {
                &&& match_at(haystack@, needle@, i as int)
                &&& forall|j: int| j > i ==> !match_at(haystack@, needle@, j)
            },
            None => forall|j: int| !match_at(haystack@, needle@, j),
        },
{
    memchr::memmem::rfind(haystack, needle)
}

/// Scans `data` tail-first in chunks of at most `chunk_size` bytes for the
/// last occurrence of the metadata marker, and returns the offset just past
/// it. The offset depends on the bytes alone, never on the chunk size.
#[verifier::loop_isolation(false)]
pub fn find_metadata_start_chunked(data: &Vec<u8>, chunk_size: usize) -> (r: Result<
    usize,
    MaxMindDBError,
>)
    requires
        chunk_size >= 14,
    ensures
        match r {
            Ok(off) => 14 <= off <= data@.len() && is_metadata_start(data@, off as int),
            Err(e) => {
                &&& e is InvalidDatabaseError
                &&& e.spec_message() == "Could not find MaxMind DB metadata in file."@
                &&& forall|j: int| !marker_at(data@, j)
            },
        },
{
    let ghost d = data@;
    let marker = metadata_marker();
    let mut end: usize = data.len();
    loop
        invariant
            end <= d.len(),
            forall|j: int| j > end - 14 ==> !marker_at(d, j),
        decreases end,
    {
        if end < 14 {
            proof {
                assert forall|j: int| !marker_at(d, j) by {
                    if marker_at(d, j) {
                        assert(j >= 0 && j + 14 <= d.len());
                        assert(j > end - 14);
                    }
                }
            }
            return Err(invalid("Could not find MaxMind DB metadata in file."));
        }
        let start = if end >= chunk_size {
            end - chunk_size
        } else {
            0
        };
        let chunk = slice_subrange(data.as_slice(), start, end);
        let ghost ch = d.subrange(start as int, end as int);
        match rfind(chunk, marker.as_slice()) {
            Some(i) => {
                proof {
                    assert(ch.subrange(i as int, i + 14) =~= d.subrange(
                        start + i,
                        start + i + 14,
                    ));
                    assert(marker_at(d, start + i));
                    assert forall|j: int| j > start + i implies !marker_at(d, j) by {
                        if marker_at(d, j) {
                            if j + 14 <= end {
                                assert(ch.subrange(j - start, j - start + 14) =~= d.subrange(
                                    j,
                                    j + 14,
                                ));
                                assert(match_at(ch, spec_marker(), j - start));
                                assert(!match_at(ch, spec_marker(), j - start));
                            } else {
                                assert(j > end - 14);
                            }
                        }
                    }
                }
                return Ok(start + i + 14);
            },
            None => {
                proof {
                    assert forall|j: int| j > start - 1 implies !marker_at(d, j) by {
                        if marker_at(d, j) && j + 14 <= end {
                            assert(ch.subrange(j - start, j - start + 14) =~= d.subrange(
                                j,
                                j + 14,
                            ));
                            assert(match_at(ch, spec_marker(), j - start));
                            assert(!match_at(ch, spec_marker(), j - start));
                        }
                    }
                }
                if start == 0 {
                    return Err(invalid("Could not find MaxMind DB metadata in file."));
                }
                end = start + 13;
            },
        }
    }
}

/// Finds the offset just past the last occurrence of the metadata marker,
/// scanning with the default chunk size.
pub fn find_metadata_start(data: &Vec<u8>) -> (r: Result<usize, MaxMindDBError>)
    ensures
        match r {
            Ok(off) => 14 <= off <= data@.len() && is_metadata_start(data@, off as int),
            Err(e) => {
                &&& e is InvalidDatabaseError
                &&& e.spec_message() == "Could not find MaxMind DB metadata in file."@
                &&& forall|j: int| !marker_at(data@, j)
            },
        },
{
    find_metadata_start_chunked(data, 1024)
}

/// Law: the locator's answer is a function of the database bytes alone. Any
/// two offsets that both point just past a last marker occurrence are equal,
/// so every chunk size of at least the marker's length returns the same
/// offset.
pub proof fn lemma_metadata_start_unique(data: Seq<u8>, off1: int, off2: int)
    requires
        is_metadata_start(data, off1),
        is_metadata_start(data, off2),
    ensures
        off1 == off2,
{
    if off1 < off2 {
        assert(!marker_at(data, off2 - 14));
    } else if off2 < off1 {
        assert(!marker_at(data, off1 - 14));
    }
}

} // verus!
