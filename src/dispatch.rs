use vstd::prelude::*;

use crate::bytes::{be32, read_u32_be};
use crate::chunk::{chunk_stream_version, parse_8bim_format};
use crate::rsrc::{parse_mac_resource_fork, resource_fork_version};
use crate::version::{decoded, extract_pf_version, VersionInfo};

verus! {

/// The offsets at the start of `s` look like a resource fork's header: a
/// data area and a map inside the buffer, the map after the data area with
/// room for its header, and more than 400 bytes between the two.
pub open spec fn is_resource_fork_layout(s: Seq<u8>) -> bool {
    s.len() >= 16 && {
        let data_start = be32(s, 0) as int;
        let map_start = be32(s, 4) as int;
        &&& data_start < s.len()
        &&& map_start < s.len()
        &&& data_start > 0
        &&& map_start > data_start
        &&& map_start + 32 < s.len()
        &&& map_start - data_start > 400
    }
}

/// The version that a container holds: read as a resource fork where its
/// header looks like one, and as a chunk stream otherwise.
pub open spec fn container_version(s: Seq<u8>, align: bool) -> Option<u32> {
    if is_resource_fork_layout(s) {
        resource_fork_version(s, align)
    } else {
        chunk_stream_version(s)
    }
}

/// Why no version came out of a buffer.
#[derive(Debug, Clone, Copy, PartialEq, Eq, Structural)]
pub enum LookupError {
    /// The buffer is too short for either container to be searched at all.
    TooShort,
    /// The containers were searched and hold no version property.
    NotFound,
}

/// Tells whether the start of a buffer looks like a resource fork's header.
pub fn looks_like_resource_fork(data: &[u8]) -> (r: bool)
    ensures
        r == is_resource_fork_layout(data@),
{
    if data.len() < 16 {
        return false;
    }
    let data_start = read_u32_be(data, 0) as u64;
    let map_start = read_u32_be(data, 4) as u64;
    let len = data.len() as u64;
    data_start < len && map_start < len && data_start > 0 && map_start > data_start && map_start
        + 32 < len && map_start - data_start > 400
}

/// Finds the packed version word in a resource fork or chunk stream.
/// With `align`, skipped property values are rounded up to four bytes.
pub fn parse_rsrc_file(data: &[u8], align: bool) -> (r: Option<u32>)
    ensures
        r == container_version(data@, align),
{
    if looks_like_resource_fork(data) {
        parse_mac_resource_fork(data, align)
    } else {
        parse_8bim_format(data)
    }
}

/// Finds the packed version word of a container and decodes it, giving the
/// word and its fields.
pub fn extract_version(data: &[u8], align: bool) -> (r: Result<(u32, VersionInfo), LookupError>)
    ensures
        data@.len() <= 8 ==> r == Err::<(u32, VersionInfo), LookupError>(LookupError::TooShort),
        data@.len() > 8 ==> match container_version(data@, align) {
            Some(e) => r == Ok::<(u32, VersionInfo), LookupError>((e, decoded(e))),
            None => r == Err::<(u32, VersionInfo), LookupError>(LookupError::NotFound),
        },
{
    if data.len() <= 8 {
        return Err(LookupError::TooShort);
    }
    match parse_rsrc_file(data, align) {
        Some(encoded) => Ok((encoded, extract_pf_version(encoded))),
        None => Err(LookupError::NotFound),
    }
}

/// A buffer whose map offset does not lie after its data offset is always
/// read as a chunk stream.
pub proof fn lemma_map_not_after_data_is_chunk_stream(s: Seq<u8>, align: bool)
    requires
        s.len() >= 8,
        be32(s, 4) <= be32(s, 0),
    ensures
        !is_resource_fork_layout(s),
        container_version(s, align) == chunk_stream_version(s),
{
}

} // verus!
