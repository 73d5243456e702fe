use vstd::prelude::*;

use crate::bytes::{be32, read_u32_be};
use crate::tags::{TAG_8BIM, TAG_EVER};

verus! {

/// The version found by scanning a chunk stream from `pos`. Where the four
/// bytes at `pos` are not `8BIM` the scan moves on by one byte; an `8BIM`
/// record has a key and a big-endian length, and an `eVER` record holds a
/// second length and then the version word; any other record is skipped by
/// its length, and one that runs past the end ends the scan. The scan also
/// ends once fewer than nine bytes are left.
pub open spec fn chunk_scan(s: Seq<u8>, pos: int) -> Option<u32>
    decreases s.len() - pos,
{
    if pos < 0 || pos + 8 >= s.len() {
        None
    } else if be32(s, pos) != TAG_8BIM {
        chunk_scan(s, pos + 1)
    } else if pos + 12 > s.len() {
        None
    } else if be32(s, pos + 4) == TAG_EVER {
        if pos + 20 <= s.len() {
            Some(be32(s, pos + 16))
        } else {
            None
        }
    } else if pos + 12 + be32(s, pos + 8) > s.len() {
        None
    } else {
        chunk_scan(s, pos + 12 + be32(s, pos + 8))
    }
}

/// The version held in a chunk stream, scanned from its first byte.
pub open spec fn chunk_stream_version(s: Seq<u8>) -> Option<u32> {
    chunk_scan(s, 0)
}

/// From `pos` to the end, `s` is a run of whole `8BIM` records, none of them
/// keyed `eVER`.
pub open spec fn only_other_chunks(s: Seq<u8>, pos: int) -> bool
    decreases s.len() - pos,
{
    if pos >= s.len() {
        pos == s.len()
    } else {
        &&& 0 <= pos
        &&& pos + 12 <= s.len()
        &&& be32(s, pos) == TAG_8BIM
        &&& be32(s, pos + 4) != TAG_EVER
        &&& pos + 12 + be32(s, pos + 8) <= s.len()
        &&& only_other_chunks(s, pos + 12 + be32(s, pos + 8))
    }
}

/// Scans a chunk stream for its `eVER` record and returns the version word.
pub fn parse_8bim_format(data: &[u8]) -> (r: Option<u32>)
    ensures
        r == chunk_stream_version(data@),
{
    let mut pos: usize = 0;
    while data.len() > 8 && pos < data.len() - 8
        invariant
            pos <= data@.len(),
            chunk_stream_version(data@) == chunk_scan(data@, pos as int),
        decreases data@.len() - pos,
    {
        if read_u32_be(data, pos) == TAG_8BIM {
            if data.len() - pos < 12 {
                return None;
            }
            let key = read_u32_be(data, pos + 4);
            let length = read_u32_be(data, pos + 8);
            if key == TAG_EVER {
                if data.len() - pos < 20 {
                    return None;
                }
                return Some(read_u32_be(data, pos + 16));
            }
            if length as usize > data.len() - (pos + 12) {
                return None;
            }
            pos = pos + 12 + length as usize;
        } else {
            pos = pos + 1;
        }
    }
    None
}

proof fn lemma_other_chunks_from(s: Seq<u8>, pos: int)
    requires
        only_other_chunks(s, pos),
    ensures
        chunk_scan(s, pos) is None,
    decreases s.len() - pos,
{
    if pos < s.len() {
        lemma_other_chunks_from(s, pos + 12 + be32(s, pos + 8));
    }
}

/// A stream made only of `8BIM` records that are not keyed `eVER` holds no
/// version.
pub proof fn lemma_other_chunks_not_found(s: Seq<u8>)
    requires
        only_other_chunks(s, 0),
    ensures
        chunk_stream_version(s) is None,
{
    lemma_other_chunks_from(s, 0);
}

} // verus!
