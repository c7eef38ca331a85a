use astra_emu_cmvs::error::CmvsError;
use astra_emu_cmvs::mgv::{mgv1_embedded_ogg, parse_mgv1, parse_mgv1_header, MGV1_MAGIC};

fn fixture() -> Vec<u8> {
    let mut bytes = vec![0_u8; 32 + 12 + 5 + 9];
    bytes[..4].copy_from_slice(&MGV1_MAGIC);
    bytes[4..8].copy_from_slice(&32_u32.to_le_bytes());
    bytes[12..16].copy_from_slice(&5_u32.to_le_bytes());
    bytes[16..20].copy_from_slice(&3_u32.to_le_bytes());
    bytes[44..48].copy_from_slice(b"OggS");
    bytes
}

#[test]
fn parses_bounded_mgv1_ranges() {
    let parsed = parse_mgv1(&fixture()).expect("fixture should parse");
    assert_eq!(parsed.index_offset, 32);
    assert_eq!(parsed.index_bytes, 12);
    assert_eq!(parsed.ogg_offset, 44);
    assert_eq!(parsed.ogg_bytes, 5);
    assert_eq!(parsed.video_offset, 49);
    assert_eq!(parsed.video_bytes, 9);
}

#[test]
fn header_parser_does_not_require_payload_bytes() {
    let bytes = fixture();
    let parsed = parse_mgv1_header(&bytes[..32], bytes.len() as u64)
        .expect("header and source length should be sufficient");
    assert_eq!(parsed.ogg_offset, 44);
}

#[test]
fn rejects_a_truncated_embedded_ogg_range() {
    let mut bytes = fixture();
    bytes.truncate(48);
    let error = parse_mgv1(&bytes).expect_err("range must be bounded");
    assert_eq!(error.code(), "ASTRA_EMU_CMVS_MGV_RANGE");
}

#[test]
fn returns_only_the_bounded_embedded_ogg_stream() {
    let bytes = fixture();
    assert_eq!(mgv1_embedded_ogg(&bytes).unwrap(), b"OggS\0");
}

#[test]
fn rejects_a_non_ogg_embedded_audio_range() {
    let mut bytes = fixture();
    bytes[44..48].copy_from_slice(b"RIFF");
    assert_eq!(
        mgv1_embedded_ogg(&bytes).unwrap_err().code(),
        "ASTRA_EMU_CMVS_MGV_OGG"
    );
}

#[test]
fn mgv1_header_errors_name_their_cause() {
    assert_eq!(parse_mgv1(&[0; 31]).unwrap_err(), CmvsError::MgvHeader);
    let mut bytes = fixture();
    bytes[0] = b'X';
    assert_eq!(parse_mgv1(&bytes).unwrap_err(), CmvsError::MgvMagic);
    let mut bytes = fixture();
    bytes[4] = 33;
    assert_eq!(parse_mgv1(&bytes).unwrap_err(), CmvsError::MgvHeader);
    let mut bytes = fixture();
    bytes[16..20].copy_from_slice(&0x0100_0001_u32.to_le_bytes());
    assert_eq!(parse_mgv1(&bytes).unwrap_err(), CmvsError::MgvIndex);
    let mut bytes = fixture();
    bytes[12..16].copy_from_slice(&3_u32.to_le_bytes());
    assert_eq!(mgv1_embedded_ogg(&bytes).unwrap_err(), CmvsError::MgvOgg);
}
