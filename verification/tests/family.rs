use astra_emu_cmvs::error::CmvsError;
use astra_emu_cmvs::family::{has_cpz5_magic, is_cpz_name, session_name, CmvsProvider};

#[test]
fn probe_recognises_cpz5_archives_by_extension_and_magic() {
    assert!(is_cpz_name("any.cpz"));
    assert!(is_cpz_name("ANY.Cpz"));
    assert!(is_cpz_name("a.b.cpz"));
    assert!(!is_cpz_name(".cpz"));
    assert!(!is_cpz_name("any.cpz5"));
    assert!(!is_cpz_name("cpz"));
    assert!(has_cpz5_magic(b"CPZ5"));
    assert!(has_cpz5_magic(b"CPZ5\x01\x02"));
    assert!(!has_cpz5_magic(b"CPZ6"));
    assert!(!has_cpz5_magic(b"CPZ"));
    assert!(!has_cpz5_magic(b""));
}

#[test]
fn cmvs_sessions_are_numbered_and_named() {
    let mut provider = CmvsProvider::default();
    assert_eq!(provider.allocate_session_id(), Ok(0));
    assert_eq!(provider.allocate_session_id(), Ok(1));
    assert_eq!(CmvsProvider::new().allocate_session_id(), Ok(0));
    assert_eq!(session_name(1), "cmvs-1");
    assert_eq!(session_name(907), "cmvs-907");
    assert_eq!(CmvsError::SessionId.code(), "ASTRA_EMU_CMVS_SESSION_ID");
}
