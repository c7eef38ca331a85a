use astra_emu_cmvs::error::CmvsError;
use astra_emu_cmvs::vfs::{check_read_range, read_dir, stat, CmvsArchiveNode, CmvsArchiveStat, CmvsEntryRecord, CmvsLooseRecord, CmvsNodeKind};

fn node(uri: &str, name: &str, kind: CmvsNodeKind) -> CmvsArchiveNode {
    CmvsArchiveNode { uri: uri.to_string(), name: name.to_string(), kind }
}

const ENTRIES: [&str; 4] = ["cmvs:/a/b.ps3", "cmvs:/a/c/d.pb3", "cmvs:/b.txt", "cmvs:/bb/x"];

#[test]
fn root_lists_first_segments_in_name_order() {
    assert_eq!(
        read_dir("cmvs:/", "cmvs:/", &ENTRIES, &[]).unwrap(),
        vec![
            node("cmvs:/a", "a", CmvsNodeKind::Directory),
            node("cmvs:/b.txt", "b.txt", CmvsNodeKind::File),
            node("cmvs:/bb", "bb", CmvsNodeKind::Directory),
        ]
    );
}

#[test]
fn subdirectories_list_with_or_without_a_trailing_slash() {
    let expected = vec![
        node("cmvs:/a/b.ps3", "b.ps3", CmvsNodeKind::File),
        node("cmvs:/a/c", "c", CmvsNodeKind::Directory),
    ];
    assert_eq!(read_dir("cmvs:/", "cmvs:/a", &ENTRIES, &[]).unwrap(), expected);
    assert_eq!(read_dir("cmvs:/", "cmvs:/a/", &ENTRIES, &[]).unwrap(), expected);
}

#[test]
fn empty_directories_are_not_found_except_the_root() {
    assert_eq!(read_dir("cmvs:/", "cmvs:/zzz", &ENTRIES, &[]), Err(CmvsError::VfsNotFound));
    assert_eq!(
        read_dir("cmvs:/", "cmvs:/b.txt", &ENTRIES, &[]).unwrap_err().code(),
        "ASTRA_EMU_VFS_NOT_FOUND"
    );
    assert_eq!(read_dir("cmvs:/", "cmvs:/", &[], &[]), Ok(Vec::new()));
}

#[test]
fn loose_resources_list_under_their_own_directory() {
    let roles = ["bgm", "voice"];
    assert_eq!(
        read_dir("cmvs:/", "cmvs:/loose", &ENTRIES, &roles).unwrap(),
        vec![
            node("cmvs:/loose/bgm", "bgm", CmvsNodeKind::File),
            node("cmvs:/loose/voice", "voice", CmvsNodeKind::File),
        ]
    );
    let root = read_dir("cmvs:/", "cmvs:/", &ENTRIES, &roles).unwrap();
    let names: Vec<&str> = root.iter().map(|n| n.name.as_str()).collect();
    assert_eq!(names, vec!["a", "b.txt", "bb", "loose"]);
    assert_eq!(root[3], node("cmvs:/loose", "loose", CmvsNodeKind::Directory));
    // Without loose resources there is no loose directory.
    assert_eq!(read_dir("cmvs:/", "cmvs:/loose", &ENTRIES, &[]), Err(CmvsError::VfsNotFound));
}

#[test]
fn the_first_entry_of_a_name_decides_its_kind() {
    let entries = ["cmvs:/a", "cmvs:/a/x"];
    assert_eq!(
        read_dir("cmvs:/", "cmvs:/", &entries, &[]).unwrap(),
        vec![node("cmvs:/a", "a", CmvsNodeKind::File)]
    );
    let entries = ["cmvs:/a/x", "cmvs:/a"];
    assert_eq!(
        read_dir("cmvs:/", "cmvs:/", &entries, &[]).unwrap(),
        vec![node("cmvs:/a", "a", CmvsNodeKind::Directory)]
    );
}

fn records() -> (Vec<CmvsEntryRecord>, Vec<CmvsLooseRecord>) {
    let entry = |uri: &str, id: &str, size: u64| CmvsEntryRecord {
        uri: uri.to_string(),
        entry_id: id.to_string(),
        stored_size: size,
        archive_role: "base".to_string(),
    };
    (
        vec![entry("cmvs:/a/b.ps3", "base-0", 10), entry("cmvs:/b.txt", "base-1", 7)],
        vec![CmvsLooseRecord { role: "bgm".to_string(), byte_size: 100 }],
    )
}

fn directory(uri: &str) -> CmvsArchiveStat {
    CmvsArchiveStat {
        uri: uri.to_string(),
        entry_id: None,
        kind: CmvsNodeKind::Directory,
        size: 0,
        archive_role: None,
        method: None,
    }
}

#[test]
fn stat_reports_loose_resources_and_their_directory() {
    let (entries, loose) = records();
    assert_eq!(
        stat("cmvs:/", "cmvs:/loose/bgm", &entries, &loose).unwrap(),
        CmvsArchiveStat {
            uri: "cmvs:/loose/bgm".to_string(),
            entry_id: Some("loose-bgm".to_string()),
            kind: CmvsNodeKind::File,
            size: 100,
            archive_role: Some("loose-bgm".to_string()),
            method: Some("loose".to_string()),
        }
    );
    assert_eq!(stat("cmvs:/", "cmvs:/loose", &entries, &loose).unwrap(), directory("cmvs:/loose"));
    assert_eq!(stat("cmvs:/", "cmvs:/loose/nope", &entries, &loose), Err(CmvsError::VfsNotFound));
    assert_eq!(stat("cmvs:/", "cmvs:/loose", &entries, &[]), Err(CmvsError::VfsNotFound));
}

#[test]
fn stat_reports_directories_and_mounted_entries() {
    let (entries, loose) = records();
    assert_eq!(stat("cmvs:/", "cmvs:/", &entries, &loose).unwrap(), directory("cmvs:/"));
    assert_eq!(stat("cmvs:/", "cmvs:/a", &entries, &loose).unwrap(), directory("cmvs:/a"));
    assert_eq!(stat("cmvs:/", "cmvs:/a//", &entries, &loose).unwrap(), directory("cmvs:/a//"));
    assert_eq!(
        stat("cmvs:/", "cmvs:/b.txt", &entries, &loose).unwrap(),
        CmvsArchiveStat {
            uri: "cmvs:/b.txt".to_string(),
            entry_id: Some("base-1".to_string()),
            kind: CmvsNodeKind::File,
            size: 7,
            archive_role: Some("base".to_string()),
            method: Some("cpz5-encrypted".to_string()),
        }
    );
    assert_eq!(stat("cmvs:/", "cmvs:/c", &entries, &loose).unwrap_err().code(), "ASTRA_EMU_VFS_NOT_FOUND");
}

#[test]
fn reads_stay_within_the_resource_and_the_read_bound() {
    assert_eq!(check_read_range(0, 10, 10, 64), Ok(true));
    assert_eq!(check_read_range(2, 3, 10, 64), Ok(false));
    assert_eq!(check_read_range(10, 0, 10, 64), Ok(true));
    assert_eq!(check_read_range(8, 3, 10, 64), Err(CmvsError::VfsReadRange));
    assert_eq!(check_read_range(11, 0, 10, 64), Err(CmvsError::VfsReadRange));
    assert_eq!(check_read_range(u64::MAX, 2, 10, 64), Err(CmvsError::VfsReadRange));
    assert_eq!(check_read_range(0, 65, 100, 64).unwrap_err().code(), "ASTRA_EMU_VFS_READ_LIMIT");
}
