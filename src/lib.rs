//! Locates the packed plugin version ("eVER") inside a PiPL resource
//! container, either a classic resource fork or an "8BIM" chunk stream, and
//! decodes it into its version fields.

mod bytes;
mod chunk;
mod dispatch;
mod pipl;
mod rsrc;
mod tags;
mod version;

pub use bytes::{be16, be32, read_u16_be, read_u32_be};
pub use chunk::{
    chunk_scan, chunk_stream_version, lemma_other_chunks_not_found, only_other_chunks,
    parse_8bim_format,
};
pub use dispatch::{
    container_version, extract_version, is_resource_fork_layout, lemma_map_not_after_data_is_chunk_stream,
    looks_like_resource_fork, parse_rsrc_file, LookupError,
};
pub use pipl::{alignment_padding, parse_pipl_data, pipl_property, property_scan};
pub use rsrc::{
    data_offset_of, lemma_short_map_not_found, parse_mac_resource_fork, reference_scan,
    resource_fork_version, true_count, type_scan,
};
pub use tags::{TAG_8BIM, TAG_EVER, TAG_PIPL};
pub use version::{
    decoded, encoded_fields, extract_pf_version, lemma_decode_then_encode, lemma_stage_bits,
    stage_code, stage_of_code, Stage, VersionInfo, FIELD_BITS,
};
