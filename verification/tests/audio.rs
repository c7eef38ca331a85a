use astra_emu_cmvs::audio::{audio_payload, check_encoded_audio_size, MAX_ENCODED_AUDIO_BYTES};
use astra_emu_cmvs::error::CmvsError;
use astra_emu_cmvs::mgv::MGV1_MAGIC;

fn mgv_fixture() -> Vec<u8> {
    let mut bytes = vec![0_u8; 32 + 12 + 5 + 9];
    bytes[..4].copy_from_slice(&MGV1_MAGIC);
    bytes[4..8].copy_from_slice(&32_u32.to_le_bytes());
    bytes[12..16].copy_from_slice(&5_u32.to_le_bytes());
    bytes[16..20].copy_from_slice(&3_u32.to_le_bytes());
    bytes[44..48].copy_from_slice(b"OggS");
    bytes
}

#[test]
fn invalid_mgv_is_not_retried_as_another_audio_format() {
    assert_eq!(
        audio_payload(b"MGV1invalid").err().unwrap().code(),
        "ASTRA_EMU_CMVS_MGV_HEADER"
    );
}

#[test]
fn mgv_audio_decodes_only_its_embedded_ogg_stream() {
    let bytes = mgv_fixture();
    assert_eq!(audio_payload(&bytes), Ok(&b"OggS\0"[..]));
    assert_eq!(audio_payload(b"OggS plain"), Ok(&b"OggS plain"[..]));
    assert_eq!(audio_payload(b"MGV"), Ok(&b"MGV"[..]));
    assert_eq!(audio_payload(b""), Ok(&b""[..]));
}

#[test]
fn encoded_audio_size_is_bounded() {
    assert_eq!(check_encoded_audio_size(0), Err(CmvsError::AudioBound));
    assert_eq!(check_encoded_audio_size(1), Ok(()));
    assert_eq!(check_encoded_audio_size(MAX_ENCODED_AUDIO_BYTES), Ok(()));
    assert_eq!(check_encoded_audio_size(MAX_ENCODED_AUDIO_BYTES + 1), Err(CmvsError::AudioBound));
}
