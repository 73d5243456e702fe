use vstd::prelude::*;

verus! {

/// `"8BIM"`, the signature that opens each record of a chunk stream.
pub const TAG_8BIM: u32 = 0x3842_494d;

/// `"eVER"`, the key of the packed version property.
pub const TAG_EVER: u32 = 0x6556_4552;

/// `"PiPL"`, the resource type of a plug-in property list.
pub const TAG_PIPL: u32 = 0x5069_504c;

} // verus!
