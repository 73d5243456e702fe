use pipl_version::{
    extract_pf_version, extract_version, looks_like_resource_fork, parse_8bim_format,
    parse_mac_resource_fork, parse_pipl_data, parse_rsrc_file, LookupError,
};

fn be(v: u32) -> [u8; 4] {
    v.to_be_bytes()
}

fn chunk(key: &[u8; 4], body: &[u8]) -> Vec<u8> {
    let mut out = b"8BIM".to_vec();
    out.extend_from_slice(key);
    out.extend_from_slice(&be(body.len() as u32));
    out.extend_from_slice(body);
    out
}

fn version_chunk(value: u32) -> Vec<u8> {
    let mut out = b"8BIMeVER".to_vec();
    out.extend_from_slice(&be(8));
    out.extend_from_slice(&be(4));
    out.extend_from_slice(&be(value));
    out
}

fn property(key: &[u8; 4], value: &[u8], align: bool) -> Vec<u8> {
    let mut out = b"8BIM".to_vec();
    out.extend_from_slice(key);
    out.extend_from_slice(&[0, 0, 0, 0]);
    out.extend_from_slice(&be(value.len() as u32));
    out.extend_from_slice(value);
    if align {
        while out.len() % 4 != 0 {
            out.push(0);
        }
    }
    out
}

fn property_list(props: &[Vec<u8>]) -> Vec<u8> {
    let mut out = be(0).to_vec();
    out.extend_from_slice(&be(props.len() as u32));
    for p in props {
        out.extend_from_slice(p);
    }
    out
}

/// A resource fork with its data area at 16 and its map at 500, holding one
/// `PiPL` resource whose property list is `payload`.
fn resource_fork(payload: &[u8]) -> Vec<u8> {
    let data_start: u32 = 16;
    let map_start: u32 = 500;
    let mut out = Vec::new();
    out.extend_from_slice(&be(data_start));
    out.extend_from_slice(&be(map_start));
    out.extend_from_slice(&be(map_start - data_start));
    out.extend_from_slice(&be(56));
    out.extend_from_slice(&be(payload.len() as u32));
    out.extend_from_slice(payload);
    assert!(out.len() <= map_start as usize);
    out.resize(map_start as usize, 0);
    let header: Vec<u8> = out[0..16].to_vec();
    out.extend_from_slice(&header);
    out.extend_from_slice(&[0; 10]);
    out.extend_from_slice(&30u16.to_be_bytes());
    out.extend_from_slice(&52u16.to_be_bytes());
    // type list: one type
    out.extend_from_slice(&0u16.to_be_bytes());
    out.extend_from_slice(b"PiPL");
    out.extend_from_slice(&0u16.to_be_bytes());
    out.extend_from_slice(&10u16.to_be_bytes());
    // reference list: one resource at offset 0 of the data area
    out.extend_from_slice(&16000i16.to_be_bytes());
    out.extend_from_slice(&0xffffu16.to_be_bytes());
    out.extend_from_slice(&be(0));
    out.extend_from_slice(&be(0));
    out.extend_from_slice(&[0; 4]);
    out
}

#[test]
fn chunk_stream_version_record_is_found() {
    let mut data = b"8BIMeVER".to_vec();
    data.extend_from_slice(&be(8));
    data.extend_from_slice(&be(4));
    data.extend_from_slice(&[0x00, 0x01, 0x02, 0x03]);
    assert_eq!(parse_8bim_format(&data), Some(0x0001_0203));
    assert_eq!(parse_rsrc_file(&data, false), Some(0x0001_0203));
}

#[test]
fn chunk_stream_skips_other_records_and_noise() {
    let mut data = vec![0xaa, 0xbb, 0xcc];
    data.extend(chunk(b"abcd", &[1, 2, 3, 4, 5]));
    data.extend([0x11]);
    data.extend(version_chunk(0xcafe_f00d));
    assert_eq!(parse_8bim_format(&data), Some(0xcafe_f00d));
}

#[test]
fn chunk_stream_without_version_is_not_found() {
    let mut data = chunk(b"abcd", &[1, 2, 3, 4, 5]);
    data.extend(chunk(b"wxyz", &[]));
    data.extend(chunk(b"eVEr", &[9; 12]));
    assert_eq!(parse_8bim_format(&data), None);
}

#[test]
fn chunk_stream_truncated_version_is_not_found() {
    let data = version_chunk(7);
    assert_eq!(parse_8bim_format(&data[..19]), None);
    assert_eq!(parse_8bim_format(&data[..11]), None);
}

#[test]
fn chunk_stream_record_past_the_end_is_not_found() {
    let mut data = b"8BIMabcd".to_vec();
    data.extend_from_slice(&be(0xffff_fff0));
    data.extend(version_chunk(1));
    assert_eq!(parse_8bim_format(&data), None);
}

#[test]
fn chunk_stream_needs_nine_bytes() {
    assert_eq!(parse_8bim_format(&[]), None);
    assert_eq!(parse_8bim_format(b"8BIMeVER"), None);
}

#[test]
fn property_list_gives_first_version() {
    let list = property_list(&[
        property(b"kind", b"eFKT", false),
        property(b"eVER", &be(0x0102_0304), false),
        property(b"eVER", &be(9), false),
    ]);
    assert_eq!(parse_pipl_data(&list, false), Some(0x0102_0304));
}

#[test]
fn property_list_alignment_changes_the_skip() {
    let list = property_list(&[property(b"name", b"abc", true), property(b"eVER", &be(42), true)]);
    assert_eq!(parse_pipl_data(&list, true), Some(42));
    assert_eq!(parse_pipl_data(&list, false), None);
    let packed =
        property_list(&[property(b"name", b"abc", false), property(b"eVER", &be(43), false)]);
    assert_eq!(parse_pipl_data(&packed, false), Some(43));
}

#[test]
fn property_list_count_limits_the_search() {
    let mut list = property_list(&[property(b"kind", b"eFKT", false), property(b"eVER", &be(5), false)]);
    list[7] = 1;
    assert_eq!(parse_pipl_data(&list, false), None);
}

#[test]
fn property_list_overlong_or_short_is_not_found() {
    let mut list = property_list(&[property(b"kind", b"eFKT", false), property(b"eVER", &be(5), false)]);
    list[23] = 0xff;
    assert_eq!(parse_pipl_data(&list, false), None);
    assert_eq!(parse_pipl_data(&[0, 0, 0, 0, 0, 0, 0], false), None);
    let one = property_list(&[property(b"eVER", &be(5), false)]);
    assert_eq!(parse_pipl_data(&one[..one.len() - 1], false), None);
}

#[test]
fn resource_fork_too_short_for_map_is_not_found() {
    let mut data = vec![0u8; 40];
    data[0..4].copy_from_slice(&be(16));
    data[4..8].copy_from_slice(&be(30));
    assert_eq!(parse_mac_resource_fork(&data, false), None);
    assert_eq!(parse_mac_resource_fork(&data[..10], false), None);
    assert_eq!(parse_mac_resource_fork(&[], true), None);
}

#[test]
fn map_not_after_data_selects_chunk_stream() {
    let mut data = vec![0u8; 600];
    data[0..4].copy_from_slice(&be(500));
    data[4..8].copy_from_slice(&be(16));
    assert!(!looks_like_resource_fork(&data));
    data[4..8].copy_from_slice(&be(500));
    assert!(!looks_like_resource_fork(&data));
    data.extend(version_chunk(0x0bad_cafe));
    assert_eq!(parse_rsrc_file(&data, false), Some(0x0bad_cafe));
}

#[test]
fn resource_fork_heuristic_edges() {
    let fork = resource_fork(&property_list(&[property(b"eVER", &be(1), false)]));
    assert!(looks_like_resource_fork(&fork));
    assert!(!looks_like_resource_fork(&fork[..532]));
    assert!(looks_like_resource_fork(&fork[..533]));
    let mut close = fork.clone();
    close[0..4].copy_from_slice(&be(100));
    assert!(!looks_like_resource_fork(&close));
    close[0..4].copy_from_slice(&be(99));
    assert!(looks_like_resource_fork(&close));
    assert!(!looks_like_resource_fork(&fork[..15]));
}

#[test]
fn resource_fork_round_trip_matches_direct_decode() {
    let fork = resource_fork(&property_list(&[property(b"eVER", &be(0x1234_5678), false)]));
    assert_eq!(parse_mac_resource_fork(&fork, false), Some(0x1234_5678));
    assert_eq!(parse_rsrc_file(&fork, false), Some(0x1234_5678));
    assert_eq!(
        extract_version(&fork, false),
        Ok((0x1234_5678, extract_pf_version(0x1234_5678)))
    );
}

#[test]
fn resource_fork_without_version_property_is_not_found() {
    let fork = resource_fork(&property_list(&[property(b"kind", b"eFKT", false)]));
    assert_eq!(parse_rsrc_file(&fork, false), None);
    assert_eq!(extract_version(&fork, false), Err(LookupError::NotFound));
    let mut other = resource_fork(&property_list(&[property(b"eVER", &be(3), false)]));
    let at = 500 + 32;
    other[at..at + 4].copy_from_slice(b"PiPl");
    assert_eq!(parse_rsrc_file(&other, false), None);
}

#[test]
fn resource_fork_resource_past_the_end_is_skipped() {
    let mut fork = resource_fork(&property_list(&[property(b"eVER", &be(3), false)]));
    fork[16..20].copy_from_slice(&be(10_000));
    assert_eq!(parse_rsrc_file(&fork, false), None);
}

#[test]
fn lookup_reports_short_buffers() {
    assert_eq!(extract_version(&[], false), Err(LookupError::TooShort));
    assert_eq!(extract_version(b"8BIMeVER", false), Err(LookupError::TooShort));
    assert_eq!(extract_version(b"8BIMeVER\0", false), Err(LookupError::NotFound));
}

#[test]
fn reference_entry_ending_at_buffer_end_is_read() {
    let fork = resource_fork(&property_list(&[property(b"eVER", &be(0x1234_5678), false)]));
    let cut = &fork[..552];
    assert_eq!(parse_mac_resource_fork(cut, false), Some(0x1234_5678));
    assert_eq!(parse_rsrc_file(cut, false), Some(0x1234_5678));
    assert_eq!(parse_mac_resource_fork(&fork[..551], false), None);
}

#[test]
fn type_entry_ending_at_buffer_end_is_read() {
    let fork = resource_fork(&property_list(&[property(b"eVER", &be(0x0a0b_0c0d), false)]));
    let mut data = fork[..530].to_vec();
    // two types; the reference entry of the last one overlaps the first
    data.extend_from_slice(&1u16.to_be_bytes());
    data.extend_from_slice(b"junk");
    data.extend_from_slice(&[0, 0, 0, 0]);
    data.extend_from_slice(b"PiPL");
    data.extend_from_slice(&0u16.to_be_bytes());
    data.extend_from_slice(&2u16.to_be_bytes());
    assert_eq!(data.len(), 548);
    assert_eq!(parse_mac_resource_fork(&data, false), Some(0x0a0b_0c0d));
    assert_eq!(parse_mac_resource_fork(&data[..547], false), None);
}
