use vstd::prelude::*;

use crate::bytes::{be32, read_u32_be};
use crate::tags::TAG_EVER;

verus! {

/// The bytes that round a property value of `length` bytes up to a multiple
/// of four.
pub open spec fn alignment_padding(length: u32) -> int {
    if length % 4 != 0 {
        4 - (length % 4) as int
    } else {
        0
    }
}

/// The version found among the `left` property records that start at `pos`:
/// each record is a signature, a key, four bytes of padding and a big-endian
/// length, followed by that many bytes of value (rounded up to four when
/// `align` is set). The first record keyed `eVER` gives the four bytes after
/// its header; a record that runs past the end ends the search.
pub open spec fn property_scan(s: Seq<u8>, pos: int, left: nat, align: bool) -> Option<u32>
    decreases left,
{
    if left == 0 || pos + 16 > s.len() {
        None
    } else if be32(s, pos + 4) == TAG_EVER {
        if pos + 20 <= s.len() {
            Some(be32(s, pos + 16))
        } else {
            None
        }
    } else {
        let length = be32(s, pos + 12);
        let skip = if align {
            length + alignment_padding(length)
        } else {
            length as int
        };
        property_scan(s, pos + 16 + skip, (left - 1) as nat, align)
    }
}

/// The version held in a property list: four bytes of list version, a
/// big-endian property count, then the property records.
pub open spec fn pipl_property(s: Seq<u8>, align: bool) -> Option<u32> {
    if s.len() < 8 {
        None
    } else {
        property_scan(s, 8, be32(s, 4) as nat, align)
    }
}

/// Finds the `eVER` property of a property list and returns its value.
/// With `align`, each skipped value is rounded up to a four-byte boundary.
pub fn parse_pipl_data(data: &[u8], align: bool) -> (r: Option<u32>)
    ensures
        r == pipl_property(data@, align),
{
    if data.len() < 8 {
        return None;
    }
    let count = read_u32_be(data, 4);
    let mut pos: usize = 8;
    let mut k: u32 = 0;
    while k < count
        invariant
            8 <= pos <= data@.len(),
            k <= count,
            count == be32(data@, 4),
            pipl_property(data@, align) == property_scan(data@, pos as int, (count - k) as nat, align),
        decreases count - k,
    {
        if data.len() - pos < 16 {
            return None;
        }
        let key = read_u32_be(data, pos + 4);
        let length = read_u32_be(data, pos + 12);
        if key == TAG_EVER {
            if data.len() - pos < 20 {
                return None;
            }
            return Some(read_u32_be(data, pos + 16));
        }
        let rest = data.len() - (pos + 16);
        let pad: usize = if align && length % 4 != 0 {
            (4 - length % 4) as usize
        } else {
            0
        };
        assert(pad == if align { alignment_padding(length) } else { 0 });
        if length as usize > rest || pad > rest - length as usize {
            assert(property_scan(data@, pos + 16 + length + pad, (count - k - 1) as nat, align)
                is None);
            return None;
        }
        pos = pos + 16 + length as usize + pad;
        k = k + 1;
    }
    None
}

} // verus!
