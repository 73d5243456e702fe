use vstd::prelude::*;

verus! {

/// How mature a release is, as packed into two bits of the version word.
#[derive(Debug, Clone, Copy, PartialEq, Eq, Structural)]
pub enum Stage {
    Develop,
    Alpha,
    Beta,
    Release,
}

/// The fields of a packed plugin version word.
#[derive(Debug, Clone, Copy, PartialEq, Eq, Structural)]
pub struct VersionInfo {
    pub version: u32,
    pub subversion: u32,
    pub bugversion: u32,
    pub stage: Stage,
    pub build: u32,
}

/// The stage that a two-bit stage code stands for; any other code reads as
/// `Develop`.
pub open spec fn stage_of_code(code: u32) -> Stage {
    if code == 1 {
        Stage::Alpha
    } else if code == 2 {
        Stage::Beta
    } else if code == 3 {
        Stage::Release
    } else {
        Stage::Develop
    }
}

/// The two-bit code of a stage.
pub open spec fn stage_code(stage: Stage) -> u32 {
    match stage {
        Stage::Develop => 0,
        Stage::Alpha => 1,
        Stage::Beta => 2,
        Stage::Release => 3,
    }
}

/// The record that a packed version word stands for: build in bits 0..9,
/// stage in bits 9..11, bugfix in bits 11..15, subversion in bits 15..19,
/// and the version split into a low part in bits 19..22 and a high part in
/// bits 26..30.
pub open spec fn decoded(encoded: u32) -> VersionInfo {
    VersionInfo {
        version: (((encoded >> 26u32) & 0xfu32) << 3u32) | ((encoded >> 19u32) & 0x7u32),
        subversion: (encoded >> 15u32) & 0xfu32,
        bugversion: (encoded >> 11u32) & 0xfu32,
        stage: stage_of_code((encoded >> 9u32) & 0x3u32),
        build: encoded & 0x1ffu32,
    }
}

/// The word that packs the fields of `v` back at their places.
pub open spec fn encoded_fields(v: VersionInfo) -> u32 {
    ((v.version >> 3u32) << 26u32) | ((v.version & 0x7u32) << 19u32) | (v.subversion << 15u32)
        | (v.bugversion << 11u32) | (stage_code(v.stage) << 9u32) | v.build
}

/// The bits of a version word that carry a field.
pub const FIELD_BITS: u32 = 0x3c3f_ffff;

/// Decodes a packed version word; every word decodes.
pub fn extract_pf_version(encoded: u32) -> (r: VersionInfo)
    ensures
        r == decoded(encoded),
{
    let build = encoded & 0x1ff;
    let stage_num = (encoded >> 9) & 0x3;
    let bugversion = (encoded >> 11) & 0xf;
    let subversion = (encoded >> 15) & 0xf;
    let version_low = (encoded >> 19) & 0x7;
    let version_high = (encoded >> 26) & 0xf;
    let version = (version_high << 3) | version_low;
    let stage = if stage_num == 0 {
        Stage::Develop
    } else if stage_num == 1 {
        Stage::Alpha
    } else if stage_num == 2 {
        Stage::Beta
    } else if stage_num == 3 {
        Stage::Release
    } else {
        Stage::Develop
    };
    VersionInfo { version, subversion, bugversion, stage, build }
}

/// Packing the decoded fields of a word back at their places gives the
/// word's field bits exactly.
pub proof fn lemma_decode_then_encode(encoded: u32)
    ensures
        encoded_fields(decoded(encoded)) == encoded & FIELD_BITS,
{
    let c = (encoded >> 9u32) & 0x3u32;
    assert(stage_code(stage_of_code(c)) == c) by {
        assert(c <= 3) by (bit_vector)
            requires
                c == (encoded >> 9u32) & 0x3u32,
        ;
    }
    let hi = (encoded >> 26u32) & 0xfu32;
    let lo = (encoded >> 19u32) & 0x7u32;
    let v = (hi << 3u32) | lo;
    assert(((v >> 3u32) << 26u32) | ((v & 0x7u32) << 19u32) | (((encoded >> 15u32) & 0xfu32)
        << 15u32) | (((encoded >> 11u32) & 0xfu32) << 11u32) | (c << 9u32) | (encoded & 0x1ffu32)
        == encoded & 0x3c3f_ffffu32) by (bit_vector)
        requires
            hi == (encoded >> 26u32) & 0xfu32,
            lo == (encoded >> 19u32) & 0x7u32,
            v == (hi << 3u32) | lo,
            c == (encoded >> 9u32) & 0x3u32,
    ;
}

/// A word whose stage bits are `0b11` decodes to `Release`, `0b10` to `Beta`,
/// `0b01` to `Alpha` and `0b00` to `Develop`.
pub proof fn lemma_stage_bits(encoded: u32)
    ensures
        (encoded >> 9u32) & 0x3u32 == 3 ==> decoded(encoded).stage == Stage::Release,
        (encoded >> 9u32) & 0x3u32 == 2 ==> decoded(encoded).stage == Stage::Beta,
        (encoded >> 9u32) & 0x3u32 == 1 ==> decoded(encoded).stage == Stage::Alpha,
        (encoded >> 9u32) & 0x3u32 == 0 ==> decoded(encoded).stage == Stage::Develop,
{
}

} // verus!
