//! The CMVS family provider's own bookkeeping: session numbering and how a
//! probe recognises a CPZ5 archive among a game directory's files.
use vstd::prelude::*;
use crate::error::CmvsError;
use crate::archive::{path_extension_is, file_extension_is};
use crate::text::{push_decimal, decimal_chars};

verus! {

/// The most directory entries a probe looks at.
pub const MAX_PROBE_ENTRIES: usize = 4096;

/// The probe's confidence in a CPZ5 game directory, in hundredths of a
/// percent.
pub const PROBE_CONFIDENCE_PERMYRIAD: u32 = 9500;

/// The file name's extension is `cpz`, in any ASCII case.
pub open spec fn spec_is_cpz_name(name: Seq<char>) -> bool {
    path_extension_is(name, seq!['c', 'p', 'z'])
}

/// Whether a directory entry's file name marks a CPZ archive.
pub fn is_cpz_name(file_name: &str) -> (r: bool)
    ensures
        r == spec_is_cpz_name(file_name@),
{
    let cpz = ['c', 'p', 'z'];
    assert(cpz@ =~= seq!['c', 'p', 'z']);
    file_extension_is(file_name, &cpz)
}

/// The file begins with the CPZ5 magic.
pub open spec fn spec_has_cpz5_magic(head: Seq<u8>) -> bool {
    head.len() >= 4 && head[0] == 0x43 && head[1] == 0x50 && head[2] == 0x5A && head[3] == 0x35
}

/// Whether the first bytes of a file are the CPZ5 magic; a file shorter
/// than the magic has none.
pub fn has_cpz5_magic(head: &[u8]) -> (r: bool)
    ensures
        r == spec_has_cpz5_magic(head@),
{
    head.len() >= 4 && head[0] == 0x43 && head[1] == 0x50 && head[2] == 0x5A && head[3] == 0x35
}

/// The family provider: it numbers the sessions it opens.
pub struct CmvsProvider {
    next: u64,
}

impl View for CmvsProvider {
    /// The number the next session will get.
    type V = u64;

    closed spec fn view(&self) -> u64 {
        self.next
    }
}

impl Default for CmvsProvider {
    fn default() -> (r: Self)
        ensures
            r@ == 0,
    {
        CmvsProvider { next: 0 }
    }
}

impl CmvsProvider {
    /// A provider whose first session is number 0.
    pub fn new() -> (r: Self)
        ensures
            r@ == 0,
    {
        CmvsProvider { next: 0 }
    }

    /// Takes the next session number; once every number is used, fails and
    /// keeps the provider as it was.
    pub fn allocate_session_id(&mut self) -> (r: Result<u64, CmvsError>)
        ensures
            old(self)@ < u64::MAX ==> r == Ok::<u64, CmvsError>(old(self)@) && final(self)@ == old(self)@ + 1,
            old(self)@ == u64::MAX ==> r == Err::<u64, CmvsError>(CmvsError::SessionId)
                && final(self)@ == old(self)@,
    {
        let id = self.next;
        match id.checked_add(1) {
            Some(next) => {
                self.next = next;
                Ok(id)
            },
            None => Err(CmvsError::SessionId),
        }
    }
}

/// The host-visible name of session `id`.
pub open spec fn spec_session_name(id: u64) -> Seq<char> {
    "cmvs-"@ + decimal_chars(id as nat)
}

/// The host-visible name of session `id`.
pub fn session_name(id: u64) -> (r: String)
    ensures
        r@ == spec_session_name(id),
{
    let mut s = String::from_str("cmvs-");
    push_decimal(&mut s, id);
    s
}

} // verus!
