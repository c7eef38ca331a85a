use astra_emu_cmvs::cpz::index::Cpz5IndexEntry;
use astra_emu_cmvs::cpz::CmvsCpzVersion;
use astra_emu_cmvs::error::CmvsError;
use astra_emu_cmvs::mount::{
    check_archive_source, check_entry_count, check_loose_source, check_mount_request, check_mounted_entry,
    entry_id, entry_uri, loose_id, loose_uri, CmvsMountPlan, MAX_ARCHIVES, MAX_ENTRIES, MAX_ENTRY_BYTES,
};
use astra_emu_cmvs::scheme::CmvsSchemeProfile;
use sha2::{Digest, Sha256};

fn scheme(version: u8) -> CmvsSchemeProfile {
    CmvsSchemeProfile {
        version,
        cpz5_secret: vec![0; 24],
        md5_variant: "A".to_string(),
        decoder_factor: 0,
        entry_init_key: 0,
        entry_sub_key: 0,
        entry_tail_key: 0,
        entry_key_pos: 0,
        index_seed: 0,
        index_addend: 0,
        index_subtrahend: 0,
        dir_key_addend: vec![0, 0, 0, 0],
    }
}

#[test]
fn mount_requests_need_a_scheme_the_prefix_and_bounded_archives() {
    assert_eq!(check_mount_request(&scheme(5), "cmvs:/", 1), Ok(()));
    assert_eq!(check_mount_request(&scheme(5), "cmvs:/", MAX_ARCHIVES), Ok(()));
    assert_eq!(check_mount_request(&scheme(9), "cmvs:/", 1), Err(CmvsError::PrivateScheme));
    assert_eq!(check_mount_request(&scheme(5), "other:/", 1), Err(CmvsError::MountArchives));
    assert_eq!(check_mount_request(&scheme(5), "cmvs:/", 0), Err(CmvsError::MountArchives));
    assert_eq!(
        check_mount_request(&scheme(5), "cmvs:/", MAX_ARCHIVES + 1).unwrap_err().code(),
        "ASTRA_EMU_CMVS_MOUNT_ARCHIVES"
    );
}

#[test]
fn archive_sources_must_be_non_empty_cpz5() {
    assert_eq!(check_archive_source(10, CmvsCpzVersion::Cpz5), Ok(()));
    assert_eq!(check_archive_source(0, CmvsCpzVersion::Cpz5), Err(CmvsError::ArchiveEmpty));
    assert_eq!(check_archive_source(10, CmvsCpzVersion::Cpz6), Err(CmvsError::CpzVersion));
}

#[test]
fn entries_must_fit_their_archive_and_the_limits() {
    assert_eq!(check_mounted_entry(0, 10, 10), Ok(()));
    assert_eq!(check_mounted_entry(5, 5, 10), Ok(()));
    assert_eq!(check_mounted_entry(6, 5, 10), Err(CmvsError::EntryRange));
    assert_eq!(check_mounted_entry(u64::MAX, 5, u64::MAX), Err(CmvsError::EntryRange));
    assert_eq!(check_mounted_entry(0, 0, 10), Err(CmvsError::EntrySize));
    assert_eq!(check_mounted_entry(0, MAX_ENTRY_BYTES + 1, u64::MAX), Err(CmvsError::EntrySize));
    assert_eq!(check_entry_count(MAX_ENTRIES), Ok(()));
    assert_eq!(check_entry_count(MAX_ENTRIES + 1), Err(CmvsError::EntryLimit));
    assert_eq!(check_loose_source(0, 1), Ok(()));
    assert_eq!(check_loose_source(MAX_ARCHIVES, 1), Err(CmvsError::LooseLimit));
    assert_eq!(check_loose_source(3, 0), Err(CmvsError::LooseSize));
    assert_eq!(check_loose_source(3, MAX_ENTRY_BYTES + 1), Err(CmvsError::LooseSize));
}

#[test]
fn mounted_names_follow_the_prefix_and_roles() {
    assert_eq!(entry_uri("cmvs:/", "scene/start.ps3"), "cmvs:/scene/start.ps3");
    assert_eq!(entry_id("script", 0), "script-0");
    assert_eq!(entry_id("data", 1234), "data-1234");
    assert_eq!(loose_uri("cmvs:/", "bgm"), "cmvs:/loose/bgm");
    assert_eq!(loose_id("bgm"), "loose-bgm");
}

fn record(path: &str, offset: u64, stored_size: u64) -> Cpz5IndexEntry {
    Cpz5IndexEntry { relative_path: path.to_string(), offset, stored_size, checksum: 7, key: 9 }
}

fn plan() -> CmvsMountPlan {
    CmvsMountPlan::new(&scheme(5), "cmvs:/", 2).unwrap()
}

#[test]
fn a_mount_plan_maps_entries_and_loose_resources_in_order() {
    let p = plan()
        .add_archive("data", 100, &[record("scene/start.ps3", 0, 10), record("image/a.pb3", 10, 90)])
        .unwrap()
        .add_archive("patch", 50, &[record("scene/patch.ps3", 0, 50)])
        .unwrap()
        .add_loose("movie.mgv", 40)
        .unwrap();
    let (entries, loose) = p.into_parts();
    let got: Vec<(String, String, usize, u64, u64)> = entries
        .iter()
        .map(|e| (e.uri.clone(), e.entry_id.clone(), e.archive, e.entry.offset, e.entry.stored_size))
        .collect();
    assert_eq!(
        got,
        vec![
            ("cmvs:/scene/start.ps3".to_string(), "data-0".to_string(), 0, 0, 10),
            ("cmvs:/image/a.pb3".to_string(), "data-1".to_string(), 0, 10, 90),
            ("cmvs:/scene/patch.ps3".to_string(), "patch-0".to_string(), 1, 0, 50),
        ]
    );
    assert_eq!(entries[0].entry.relative_path, "scene/start.ps3");
    assert_eq!((entries[0].entry.checksum, entries[0].entry.key), (7, 9));
    assert_eq!(loose.len(), 1);
    assert_eq!(
        (loose[0].role.as_str(), loose[0].uri.as_str(), loose[0].source_id.as_str(), loose[0].byte_size),
        ("movie.mgv", "cmvs:/loose/movie.mgv", "loose-movie.mgv", 40)
    );
}

#[test]
fn a_mount_plan_needs_a_valid_request() {
    assert_eq!(CmvsMountPlan::new(&scheme(9), "cmvs:/", 1).err(), Some(CmvsError::PrivateScheme));
    assert_eq!(CmvsMountPlan::new(&scheme(5), "other:/", 1).err(), Some(CmvsError::MountArchives));
    assert_eq!(CmvsMountPlan::new(&scheme(5), "cmvs:/", 0).err(), Some(CmvsError::MountArchives));
}

#[test]
fn a_mount_plan_refuses_duplicate_uris_and_entry_ids() {
    let twice = plan().add_archive("data", 100, &[record("a.ps3", 0, 1), record("a.ps3", 1, 1)]);
    assert_eq!(twice.err().unwrap().code(), "ASTRA_EMU_CMVS_ENTRY_DUPLICATE");
    let across = plan()
        .add_archive("data", 100, &[record("a.ps3", 0, 1)])
        .unwrap()
        .add_archive("patch", 100, &[record("a.ps3", 0, 1)]);
    assert_eq!(across.err(), Some(CmvsError::EntryDuplicate));
    let same_role = plan()
        .add_archive("data", 100, &[record("a.ps3", 0, 1)])
        .unwrap()
        .add_archive("data", 100, &[record("b.ps3", 0, 1)]);
    assert_eq!(same_role.err(), Some(CmvsError::EntryDuplicate));
    let same_role_no_clash = plan()
        .add_archive("data", 100, &[])
        .unwrap()
        .add_archive("data", 100, &[record("b.ps3", 0, 1)]);
    assert!(same_role_no_clash.is_ok());
}

#[test]
fn a_mount_plan_checks_each_entry() {
    let p = || plan();
    assert_eq!(p().add_archive("data", 100, &[record("a.ps3", 0, 0)]).err(), Some(CmvsError::EntrySize));
    assert_eq!(p().add_archive("data", 100, &[record("a.ps3", 95, 10)]).err(), Some(CmvsError::EntryRange));
    assert_eq!(p().add_archive("data", u64::MAX, &[record("a.ps3", u64::MAX, 1)]).err(), Some(CmvsError::EntryRange));
    for bad in ["", "../a.ps3", "a/../b.ps3", "a//b.ps3", "/a.ps3", "a:b.ps3", "./a.ps3"] {
        let r = p().add_archive("data", 100, &[record(bad, 0, 1)]);
        assert_eq!(r.err().unwrap().code(), "ASTRA_EMU_VFS_URI", "{bad}");
    }
}

#[test]
fn a_mount_plan_checks_each_loose_resource() {
    let base = || plan().add_archive("data", 100, &[record("loose/x", 0, 1)]).unwrap();
    assert_eq!(base().add_loose("x", 1).err().unwrap().code(), "ASTRA_EMU_CMVS_LOOSE_DUPLICATE");
    assert_eq!(base().add_loose("y", 1).unwrap().add_loose("y", 2).err(), Some(CmvsError::LooseDuplicate));
    assert_eq!(base().add_loose("y", 0).err(), Some(CmvsError::LooseSize));
    assert_eq!(base().add_loose("y", MAX_ENTRY_BYTES + 1).err(), Some(CmvsError::LooseSize));
    assert_eq!(base().add_loose("..", 1).err(), Some(CmvsError::VfsUri));
    assert_eq!(base().add_loose("", 1).err(), Some(CmvsError::VfsUri));
    let mut full = base();
    for i in 0..MAX_ARCHIVES {
        full = full.add_loose(&format!("r{i}"), 1).unwrap();
    }
    assert_eq!(full.add_loose("one-more", 1).err(), Some(CmvsError::LooseLimit));
}

#[test]
fn a_mount_manifest_lists_sources_and_entries_in_published_order() {
    let p = plan()
        .add_archive("data", 100, &[record("scene/start.ps3", 0, 10), record("image/a.pb3", 10, 90)])
        .unwrap()
        .add_archive("patch", 50, &[record("scene/patch.ps3", 0, 50)])
        .unwrap()
        .add_loose("zeta.ogg", 40)
        .unwrap()
        .add_loose("alpha.mgv", 30)
        .unwrap();
    let (h_data, h_patch, h_zeta, h_alpha) = ([1u8; 32], [2u8; 32], [3u8; 32], [4u8; 32]);
    let m = p.manifest(&[h_data, h_patch], &[h_zeta, h_alpha], &["audio", "video"]);
    let sources: Vec<(&str, &str, u64, u32, [u8; 32])> = m
        .sources
        .iter()
        .map(|s| (s.source_id.as_str(), s.archive_role.as_str(), s.byte_size, s.part_count, s.source_hash))
        .collect();
    assert_eq!(
        sources,
        vec![
            ("data", "data", 100, 1, h_data),
            ("patch", "patch", 50, 1, h_patch),
            ("loose-alpha.mgv", "loose-alpha.mgv", 30, 1, h_alpha),
            ("loose-zeta.ogg", "loose-zeta.ogg", 40, 1, h_zeta),
        ]
    );
    let entries: Vec<(&str, &str, &str, u64, u64, u64, [u8; 32], &str, &str)> = m
        .entries
        .iter()
        .map(|e| {
            (
                e.uri.as_str(),
                e.entry_id.as_str(),
                e.source_id.as_str(),
                e.source_offset,
                e.stored_size,
                e.decoded_size,
                e.source_hash,
                e.method.as_str(),
                e.media_kind.as_str(),
            )
        })
        .collect();
    assert_eq!(
        entries,
        vec![
            ("cmvs:/image/a.pb3", "data-1", "data", 10, 90, 90, h_data, "cpz5-encrypted", "image"),
            ("cmvs:/scene/patch.ps3", "patch-0", "patch", 0, 50, 50, h_patch, "cpz5-encrypted", "script"),
            ("cmvs:/scene/start.ps3", "data-0", "data", 0, 10, 10, h_data, "cpz5-encrypted", "script"),
            ("cmvs:/loose/alpha.mgv", "loose-alpha.mgv", "loose-alpha.mgv", 0, 30, 30, h_alpha, "loose", "video"),
            ("cmvs:/loose/zeta.ogg", "loose-zeta.ogg", "loose-zeta.ogg", 0, 40, 40, h_zeta, "loose", "audio"),
        ]
    );
    let mut joined = Vec::new();
    for h in [h_data, h_patch, h_alpha, h_zeta] {
        joined.extend_from_slice(&h);
    }
    let expected: [u8; 32] = Sha256::digest(&joined).into();
    assert_eq!(m.reader_hash, expected);
}
