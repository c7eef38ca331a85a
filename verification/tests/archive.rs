use astra_emu_cmvs::archive::{loose_media_kind, media_kind, resolve_pb3_base_uri, resolve_script_name, CmvsScriptUri};
use astra_emu_cmvs::error::CmvsError;

fn file_name(path: &str) -> Option<&str> {
    std::path::Path::new(path).file_name().and_then(|name| name.to_str())
}

#[test]
fn bare_names_follow_archive_order_instead_of_uri_sort_order() {
    let entries = [(1, "cmvs:/a/start.ps3"), (0, "cmvs:/z/START.PS3")];
    assert_eq!(
        resolve_script_name("cmvs:/", "start.ps3", &entries).unwrap(),
        CmvsScriptUri::Entry("cmvs:/z/START.PS3".to_string())
    );
}

#[test]
fn missing_script_diagnostic_does_not_echo_private_names() {
    let error = resolve_script_name("cmvs:/", "private-title.ps3", &[]).unwrap_err();
    assert_eq!(error.code(), "ASTRA_EMU_CMVS_SCRIPT_NOT_FOUND");
    assert!(!error.message().contains("private-title"));
}

#[test]
fn classifies_loose_resources_from_the_source_extension() {
    assert_eq!(loose_media_kind(file_name("startup.ps3")).unwrap(), "script");
    assert_eq!(loose_media_kind(file_name("opening.mgv")).unwrap(), "video");
}

#[test]
fn explicit_paths_normalize_game_separators_without_permitting_escape() {
    for name in ["scene/start.ps3", "scene\\start.ps3", "/scene/start.ps3"] {
        assert_eq!(
            resolve_script_name("cmvs:/", name, &[]).unwrap(),
            CmvsScriptUri::Path("cmvs:/scene/start.ps3".to_string())
        );
    }
    for name in [
        "",
        "../start.ps3",
        "scene/../start.ps3",
        "//host/start.ps3",
        "C:\\start.ps3",
        "scene//start.ps3",
        "start",
        ".ps3",
        "start.",
        "bad\0.ps3",
    ] {
        assert_eq!(
            resolve_script_name("cmvs:/", name, &[]).unwrap_err().code(),
            "ASTRA_EMU_CMVS_SCRIPT_URI"
        );
    }
}

#[test]
fn malformed_names_are_refused() {
    for name in ["..", "scene/./a.ps3", "scene/", "a\\..\\b.ps3"] {
        assert_eq!(resolve_script_name("cmvs:/", name, &[]).unwrap_err(), CmvsError::ScriptUri);
    }
    let long = format!("{}.ps3", "a".repeat(509));
    assert_eq!(resolve_script_name("cmvs:/", &long, &[]).unwrap_err(), CmvsError::ScriptUri);
}

#[test]
fn first_entry_of_the_earliest_archive_wins() {
    let entries = [(2, "cmvs:/x/a.ps3"), (1, "cmvs:/y/A.PS3"), (1, "cmvs:/z/a.Ps3"), (0, "cmvs:/w/b.ps3")];
    assert_eq!(
        resolve_script_name("cmvs:/", "a.ps3", &entries).unwrap(),
        CmvsScriptUri::Entry("cmvs:/y/A.PS3".to_string())
    );
}

#[test]
fn media_kinds_follow_the_extension_in_any_case() {
    assert_eq!(media_kind("bg.PB3"), "image");
    assert_eq!(media_kind("voice.Ogg"), "audio");
    assert_eq!(media_kind("x.mv2"), "audio");
    assert_eq!(media_kind("movie.wmv"), "video");
    assert_eq!(media_kind("main.ps2"), "script");
    assert_eq!(media_kind("data.bin"), "binary");
    assert_eq!(media_kind("ps3"), "script");
    assert_eq!(loose_media_kind(None).unwrap_err(), CmvsError::LooseName);
}

#[test]
fn resolves_pb3_base_in_the_current_vfs_directory() {
    assert_eq!(
        resolve_pb3_base_uri("cmvs:/", "cmvs:/scene/current.pb3", "base.pb3").unwrap(),
        "cmvs:/scene/base.pb3"
    );
    assert_eq!(
        resolve_pb3_base_uri("cmvs:/", "cmvs:/scene/current.pb3", "../base.pb3")
            .unwrap_err()
            .code(),
        "ASTRA_EMU_CMVS_PB3_BASE_REFERENCE"
    );
}

#[test]
fn pb3_base_references_must_be_bare_names_under_the_prefix() {
    assert_eq!(resolve_pb3_base_uri("cmvs:/", "cmvs:/a.pb3", "b.pb3").unwrap(), "cmvs:/b.pb3");
    for reference in ["", "x/b.pb3", "x\\b.pb3", "b..pb3"] {
        assert_eq!(
            resolve_pb3_base_uri("cmvs:/", "cmvs:/scene/current.pb3", reference),
            Err(CmvsError::Pb3BaseReference)
        );
    }
    assert_eq!(
        resolve_pb3_base_uri("cmvs:/", "other:/scene/current.pb3", "base.pb3"),
        Err(CmvsError::Pb3BaseReference)
    );
    assert_eq!(resolve_pb3_base_uri("", "current.pb3", "base.pb3"), Err(CmvsError::Pb3BaseReference));
}
