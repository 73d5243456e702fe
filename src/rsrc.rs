use vstd::prelude::*;
use vstd::slice::slice_subrange;

use crate::bytes::{be16, be32, read_u16_be, read_u32_be};
use crate::pipl::{parse_pipl_data, pipl_property};
use crate::tags::TAG_PIPL;

verus! {

/// The true number of entries in a list whose count is stored as one less.
pub open spec fn true_count(stored: u16) -> nat {
    (stored + 1) as nat
}

/// The byte offset, within the data area, that a reference entry's packed
/// attributes-and-offset word gives: its low 24 bits.
pub open spec fn data_offset_of(packed: u32) -> int {
    packed as int % 0x100_0000
}

/// The version found among the `left` reference entries that start at `pos`.
/// Each entry is 12 bytes: an id, a name offset, a packed word whose low 24
/// bits locate the resource within the data area at `data_start`, and a
/// handle. A resource is a big-endian length and that many bytes of property
/// list; the first that holds a version gives it. Entries end early where
/// fewer than 12 bytes are left; a resource that does not fit is passed over.
#[verifier::opaque]
pub open spec fn reference_scan(s: Seq<u8>, data_start: int, pos: int, left: nat, align: bool) -> Option<
    u32,
>
    decreases left,
{
    if left == 0 || pos + 12 > s.len() {
        None
    } else {
        let start = data_start + data_offset_of(be32(s, pos + 4));
        let found = if start + 4 < s.len() && start + 4 + be32(s, start) <= s.len() {
            pipl_property(s.subrange(start + 4, start + 4 + be32(s, start)), align)
        } else {
            None
        };
        if found is Some {
            found
        } else {
            reference_scan(s, data_start, pos + 12, (left - 1) as nat, align)
        }
    }
}

/// The version found among the `left` type entries that start at `pos`.
/// Each entry is 8 bytes: a type code, a resource count stored as one less,
/// and the offset of its reference list from `list_start`, the start of the
/// type list. Only `PiPL` entries whose reference list starts inside the
/// buffer are searched. Entries end early where fewer than 8 bytes are left.
#[verifier::opaque]
pub open spec fn type_scan(
    s: Seq<u8>,
    data_start: int,
    list_start: int,
    pos: int,
    left: nat,
    align: bool,
) -> Option<u32>
    decreases left,
{
    if left == 0 || pos + 8 > s.len() {
        None
    } else {
        let refs = list_start + be16(s, pos + 6);
        let found = if be32(s, pos) == TAG_PIPL && refs < s.len() {
            reference_scan(s, data_start, refs, true_count(be16(s, pos + 4)), align)
        } else {
            None
        };
        if found is Some {
            found
        } else {
            type_scan(s, data_start, list_start, pos + 8, (left - 1) as nat, align)
        }
    }
}

/// The version held in a resource fork. The header gives the data area's
/// offset and the map's offset. The map repeats the 16-byte header, then
/// holds 10 bytes of handles and file reference, then the type list's
/// offset from the map. The type list starts with its entry count, stored as
/// one less. Anything that lies past the end gives no version.
pub open spec fn resource_fork_version(s: Seq<u8>, align: bool) -> Option<u32> {
    if s.len() < 16 {
        None
    } else {
        let data_start = be32(s, 0) as int;
        let map_start = be32(s, 4) as int;
        if map_start + 28 > s.len() {
            None
        } else {
            let list_start = map_start + be16(s, map_start + 26);
            if list_start + 2 >= s.len() {
                None
            } else {
                type_scan(
                    s,
                    data_start,
                    list_start,
                    list_start + 2,
                    true_count(be16(s, list_start)),
                    align,
                )
            }
        }
    }
}

/// Reads a count that is stored as one less than its value.
fn stored_count(stored: u16) -> (r: u32)
    ensures
        r == true_count(stored),
{
    stored as u32 + 1
}

/// Walks a reference list for a resource whose property list holds a version.
fn scan_references(data: &[u8], data_start: u32, list_pos: usize, count: u32, align: bool) -> (r:
    Option<u32>)
    requires
        list_pos <= data@.len(),
    ensures
        r == reference_scan(data@, data_start as int, list_pos as int, count as nat, align),
{
    let mut pos: usize = list_pos;
    let mut j: u32 = 0;
    while j < count
        invariant
            pos <= data@.len(),
            j <= count,
            reference_scan(data@, data_start as int, list_pos as int, count as nat, align)
                == reference_scan(data@, data_start as int, pos as int, (count - j) as nat, align),
        decreases count - j,
    {
        proof {
            reveal(reference_scan);
        }
        if data.len() - pos < 12 {
            return None;
        }
        let packed = read_u32_be(data, pos + 4);
        let offset = packed & 0x00ff_ffff;
        assert(packed & 0x00ff_ffffu32 == packed % 0x100_0000u32) by (bit_vector);
        let start: u64 = data_start as u64 + offset as u64;
        let len = data.len() as u64;
        if start + 4 < len {
            let at = start as usize;
            let length = read_u32_be(data, at);
            if length as u64 <= len - (start + 4) {
                let payload = slice_subrange(data, at + 4, at + 4 + length as usize);
                let found = parse_pipl_data(payload, align);
                if found.is_some() {
                    return found;
                }
            }
        }
        pos = pos + 12;
        j = j + 1;
    }
    proof {
        reveal(reference_scan);
    }
    None
}

/// Walks a classic resource fork for a `PiPL` resource whose property list
/// holds a version, and returns the first version found.
pub fn parse_mac_resource_fork(data: &[u8], align: bool) -> (r: Option<u32>)
    ensures
        r == resource_fork_version(data@, align),
{
    if data.len() < 16 {
        return None;
    }
    let data_start = read_u32_be(data, 0);
    let map_start = read_u32_be(data, 4);
    let len = data.len() as u64;
    if map_start as u64 + 28 > len {
        return None;
    }
    let list_offset = read_u16_be(data, (map_start as u64 + 26) as usize);
    let list_start: u64 = map_start as u64 + list_offset as u64;
    if list_start + 2 >= len {
        return None;
    }
    let first_entry = (list_start + 2) as usize;
    let list_start = list_start as usize;
    let num_types = stored_count(read_u16_be(data, list_start));
    scan_types(data, data_start, list_start, first_entry, num_types, align)
}

/// Walks the type list that starts at `list_start`, with its first entry at
/// `first_entry`, for `PiPL` entries whose resources hold a version.
fn scan_types(
    data: &[u8],
    data_start: u32,
    list_start: usize,
    first_entry: usize,
    count: u32,
    align: bool,
) -> (r: Option<u32>)
    requires
        first_entry == list_start + 2,
        first_entry < data@.len(),
    ensures
        r == type_scan(
            data@,
            data_start as int,
            list_start as int,
            list_start + 2,
            count as nat,
            align,
        ),
{
    let mut pos: usize = first_entry;
    let mut i: u32 = 0;
    while i < count
        invariant
            pos <= data@.len(),
            list_start < data@.len(),
            i <= count,
            type_scan(data@, data_start as int, list_start as int, list_start + 2, count as nat, align)
                == type_scan(
                data@,
                data_start as int,
                list_start as int,
                pos as int,
                (count - i) as nat,
                align,
            ),
        decreases count - i,
    {
        proof {
            reveal(type_scan);
        }
        if data.len() - pos < 8 {
            return None;
        }
        let code = read_u32_be(data, pos);
        let entries = stored_count(read_u16_be(data, pos + 4));
        let refs_offset = read_u16_be(data, pos + 6);
        if code == TAG_PIPL && (refs_offset as usize) < data.len() - list_start {
            let refs = list_start + refs_offset as usize;
            let found = scan_references(data, data_start, refs, entries, align);
            if found.is_some() {
                return found;
            }
        }
        pos = pos + 8;
        i = i + 1;
    }
    proof {
        reveal(type_scan);
    }
    None
}

/// A buffer too short to hold the map's 16-byte header copy holds no
/// resource-fork version.
pub proof fn lemma_short_map_not_found(s: Seq<u8>, align: bool)
    requires
        s.len() >= 8,
        s.len() < be32(s, 4) + 16,
    ensures
        resource_fork_version(s, align) is None,
{
}

} // verus!
