//! Choice of the base PFS archive a session boots from: a configured file
//! name, or else the only PFS file of the game directory.
use vstd::prelude::*;
use crate::archive::{eq_ignore_ascii_case, char_eq_ignore_case, ascii_case_eq, path_extension_is, file_extension_is};
use crate::text::chars_of;
use super::ArtemisError;

verus! {

/// `c` separates path components or names a drive.
pub open spec fn is_path_separator(c: char) -> bool {
    c == '/' || c == '\\' || c == ':'
}

/// A configured base archive is a direct file name ending in `.pfs`, in
/// any ASCII case.
pub open spec fn spec_archive_name_ok(name: Seq<char>) -> bool {
    &&& forall|i: int| 0 <= i < name.len() ==> !is_path_separator(#[trigger] name[i])
    &&& name.len() >= 4
    &&& eq_ignore_ascii_case(name.subrange(name.len() - 4, name.len() as int), seq!['.', 'p', 'f', 's'])
}

/// Checks a configured base archive name.
pub fn check_selected_archive(selected: &str) -> (r: Result<(), ArtemisError>)
    ensures
        r is Ok <==> spec_archive_name_ok(selected@),
        r is Err ==> r == Err::<(), ArtemisError>(ArtemisError::Archive),
{
    let chars = chars_of(selected);
    let mut i: usize = 0;
    while i < chars.len()
        invariant
            i <= chars@.len(),
            chars@ == selected@,
            forall|k: int| 0 <= k < i ==> !is_path_separator(#[trigger] chars@[k]),
        decreases chars@.len() - i,
    {
        let c = chars[i];
        if c == '/' || c == '\\' || c == ':' {
            assert(is_path_separator(chars@[i as int]));
            return Err(ArtemisError::Archive);
        }
        i = i + 1;
    }
    let n = chars.len();
    if n < 4 {
        return Err(ArtemisError::Archive);
    }
    let suffix = ['.', 'p', 'f', 's'];
    assert(suffix@ =~= seq!['.', 'p', 'f', 's']);
    let mut j: usize = 0;
    while j < 4
        invariant
            n == chars@.len() >= 4,
            chars@ == selected@,
            suffix@ == seq!['.', 'p', 'f', 's'],
            j <= 4,
            forall|k: int| 0 <= k < j ==> #[trigger] ascii_case_eq(chars@[n - 4 + k], suffix@[k]),
        decreases 4 - j,
    {
        if !char_eq_ignore_case(chars[n - 4 + j], suffix[j]) {
            assert(!ascii_case_eq(chars@.subrange(n - 4, n as int)[j as int], suffix@[j as int]));
            return Err(ArtemisError::Archive);
        }
        j = j + 1;
    }
    assert forall|k: int| 0 <= k < 4 implies #[trigger] ascii_case_eq(chars@.subrange(n - 4, n as int)[k], suffix@[k]) by {
        assert(chars@.subrange(n - 4, n as int)[k] == chars@[n - 4 + k]);
    }
    assert(eq_ignore_ascii_case(chars@.subrange(n - 4, n as int), suffix@));
    Ok(())
}

/// The file name's extension is `pfs`, in any ASCII case.
pub open spec fn spec_is_pfs_name(name: Seq<char>) -> bool {
    path_extension_is(name, seq!['p', 'f', 's'])
}

/// Whether a directory entry's file name marks a PFS archive.
pub fn is_pfs_name(file_name: &str) -> (r: bool)
    ensures
        r == spec_is_pfs_name(file_name@),
{
    let pfs = ['p', 'f', 's'];
    assert(pfs@ =~= seq!['p', 'f', 's']);
    file_extension_is(file_name, &pfs)
}

/// The base archive among the PFS files of the game directory: the only
/// one; none, or more than one, fails.
pub fn choose_base_archive<T>(candidates: Vec<T>) -> (r: Result<T, ArtemisError>)
    ensures
        candidates@.len() == 1 ==> r == Ok::<T, ArtemisError>(candidates@[0]),
        candidates@.len() == 0 ==> r == Err::<T, ArtemisError>(ArtemisError::Archive),
        candidates@.len() > 1 ==> r == Err::<T, ArtemisError>(ArtemisError::ArchiveAmbiguous),
{
    let mut candidates = candidates;
    if candidates.len() == 0 {
        return Err(ArtemisError::Archive);
    }
    if candidates.len() > 1 {
        return Err(ArtemisError::ArchiveAmbiguous);
    }
    Ok(candidates.remove(0))
}

} // verus!
