use astra_emu_cmvs::cmvs_md5::compute;

#[test]
fn mirai_matches_standard_md5_for_sixteen_zero_bytes() {
    assert_eq!(
        compute([0; 4], "Mirai").unwrap(),
        [0x3613_e74a, 0xbff9_4be4, 0x2e75_d279, 0xa518_4823]
    );
}

#[test]
fn unknown_variant_is_blocking() {
    assert_eq!(
        compute([0; 4], "unknown").unwrap_err().code(),
        "ASTRA_EMU_CMVS_MD5_VARIANT"
    );
}
