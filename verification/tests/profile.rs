use astra_emu_cmvs::error::CmvsError;
use astra_emu_cmvs::profile::{CmvsProfile, CMVS_PROFILE_FILE, CMVS_PROFILE_SCHEMA};
use astra_emu_cmvs::scheme::CmvsSchemeProfile;
use std::collections::BTreeMap;

fn scheme(version: u8) -> CmvsSchemeProfile {
    CmvsSchemeProfile {
        version,
        cpz5_secret: vec![0; 24],
        md5_variant: "A".to_string(),
        decoder_factor: 0,
        entry_init_key: 0,
        entry_sub_key: 0,
        entry_tail_key: 0,
        entry_key_pos: 0,
        index_seed: 0,
        index_addend: 0,
        index_subtrahend: 0,
        dir_key_addend: vec![0, 0, 0, 0],
    }
}

fn profile(version: u8) -> CmvsProfile {
    CmvsProfile {
        schema: CMVS_PROFILE_SCHEMA.to_string(),
        scheme: scheme(version),
        archives: BTreeMap::from([("script".to_string(), "missing.cpz".to_string())]),
        loose_files: BTreeMap::new(),
    }
}

#[test]
fn profile_names_its_schema_and_file() {
    assert_eq!(CMVS_PROFILE_SCHEMA, "astra.emu.cmvs.profile.v1");
    assert_eq!(CMVS_PROFILE_FILE, "cmvs.profile.json");
}

#[test]
fn cpz5_profile_with_one_archive_is_accepted() {
    assert_eq!(profile(5).validate(true), Ok(()));
}

#[test]
fn unsupported_scheme_version_is_rejected_after_the_shape_checks() {
    assert_eq!(profile(6).validate(true).unwrap_err().code(), "ASTRA_EMU_CMVS_CPZ_VERSION");
    assert_eq!(profile(8).validate(true), Err(CmvsError::PrivateScheme));
    assert_eq!(profile(8).validate(false), Err(CmvsError::Profile));
}

#[test]
fn malformed_profiles_are_rejected() {
    let mut p = profile(5);
    p.schema = "astra.emu.cmvs.profile.v2".to_string();
    assert_eq!(p.validate(true), Err(CmvsError::Profile));

    let mut p = profile(5);
    p.archives.clear();
    assert_eq!(p.validate(true), Err(CmvsError::Profile));

    let mut p = profile(5);
    for i in 0..256 {
        p.loose_files.insert(format!("loose{i}"), format!("file{i}.ogg"));
    }
    assert_eq!(p.validate(true), Ok(()));
    p.loose_files.insert("one_more".to_string(), "x.ogg".to_string());
    assert_eq!(p.validate(true), Err(CmvsError::Profile));

    assert_eq!(profile(5).validate(false), Err(CmvsError::Profile));

    let mut p = profile(5);
    p.scheme.md5_variant = "Z".to_string();
    assert_eq!(p.validate(true), Err(CmvsError::PrivateScheme));
}
