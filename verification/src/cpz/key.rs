//! The per-archive key that a decoded `start` script stores for each CPZ
//! archive it names.
use vstd::prelude::*;
use crate::error::CmvsError;
use crate::bytes::{read_le_u32, spec_le_u32};
use crate::scan::{spec_find_zero, find_zero, lemma_find_zero};
use crate::text::{shift_jis_decode, shift_jis_decode_text, chars_of};
use crate::ps2a::payload::{spec_parse_ps2a_header, spec_decode_ps2a, parse_header_for_archive_key, decode_ps2a};
use super::names::ascii_lower;
use super::index::spec_index_u32;

verus! {

/// The four key words of one CPZ archive.
#[derive(Debug, Clone, Copy, PartialEq, Eq, Structural)]
pub struct CpzArchiveKey {
    pub index_dir: u32,
    pub index_entry: u32,
    pub entry_data_1: u32,
    pub entry_data_2: u32,
}

/// `a` and `b` are equal up to ASCII case.
pub open spec fn eq_ignore_ascii_case(a: Seq<char>, b: Seq<char>) -> bool {
    a.len() == b.len() && forall|i: int| 0 <= i < a.len() ==> #[trigger] ascii_lower(a[i]) == ascii_lower(b[i])
}

/// The pool-relative offset of the first string at or after `cursor`, below
/// `strings_end`, that names the archive.
pub open spec fn spec_find_archive_string(s: Seq<u8>, strings_start: int, cursor: int, strings_end: int, name: Seq<char>)
    -> Result<Option<u32>, CmvsError>
    decreases strings_end - cursor,
{
    if cursor >= strings_end || cursor < 0 || strings_end > s.len() {
        Ok(None)
    } else {
        let end = spec_find_zero(s.subrange(0, strings_end), cursor);
        let d = shift_jis_decode(s.subrange(cursor, end));
        if end > cursor && d.1 {
            Err(CmvsError::CpzArchiveKey)
        } else if end > cursor && eq_ignore_ascii_case(d.0, name) {
            if cursor - strings_start > u32::MAX { Err(CmvsError::CpzArchiveKey) } else { Ok(Some((cursor - strings_start) as u32)) }
        } else if end >= strings_end {
            Ok(None)
        } else {
            proof { lemma_find_zero(s.subrange(0, strings_end), cursor); }
            spec_find_archive_string(s, strings_start, end + 1, strings_end, name)
        }
    }
}

/// The archive id `id` stands at `p`, preceded at `p - 0x33` by the bytes
/// `02 00 01` of the instruction that pushes it.
pub open spec fn is_key_pattern_at(s: Seq<u8>, p: int, id: u32) -> bool {
    &&& p >= 0x33
    &&& p + 4 <= s.len()
    &&& spec_le_u32(s, p) == id
    &&& s[p - 0x33] == 2 && s[p - 0x32] == 0 && s[p - 0x31] == 1
}

/// The first position in `[p, stop)` that holds the key pattern.
pub open spec fn spec_first_key_pattern(s: Seq<u8>, id: u32, p: int, stop: int) -> Option<int>
    decreases stop - p,
{
    if p >= stop {
        None
    } else if is_key_pattern_at(s, p, id) {
        Some(p)
    } else {
        spec_first_key_pattern(s, id, p + 1, stop)
    }
}

/// The key that the first pattern in `[from, stop)` carries.
pub open spec fn spec_key_from_pattern(s: Seq<u8>, id: u32, from: int, stop: int) -> Result<CpzArchiveKey, CmvsError> {
    match spec_first_key_pattern(s, id, from, stop) {
        None => Err(CmvsError::CpzArchiveKey),
        Some(p) => Ok(CpzArchiveKey {
            index_dir: spec_le_u32(s, p - 0x0c),
            index_entry: spec_le_u32(s, p - 0x18),
            entry_data_1: spec_le_u32(s, p - 0x24),
            entry_data_2: spec_le_u32(s, p - 0x30),
        }),
    }
}

/// The key of the archive named `name` in the decoded script `s`.
pub open spec fn spec_derive_archive_key(s: Seq<u8>, name: Seq<char>) -> Result<CpzArchiveKey, CmvsError> {
    if s.len() < 0x20 {
        Err(CmvsError::CpzHeader)
    } else {
        let table_count = spec_le_u32(s, 0x10);
        let bytecode_size = spec_le_u32(s, 0x14);
        let string_size = spec_le_u32(s, 0x1c);
        let bytecode_start = 0x30 + 4 * table_count;
        let strings_start = bytecode_start + bytecode_size;
        let strings_end = strings_start + string_size;
        if strings_end > usize::MAX || strings_end > s.len() {
            Err(CmvsError::CpzArchiveKey)
        } else {
            match spec_find_archive_string(s, strings_start, strings_start, strings_end, name) {
                Err(e) => Err(e),
                Ok(None) => Err(CmvsError::CpzArchiveKey),
                Ok(Some(id)) => {
                    let stop = if bytecode_start + bytecode_size < s.len() { bytecode_start + bytecode_size } else { s.len() as int };
                    spec_key_from_pattern(s, id, bytecode_start, stop)
                },
            }
        }
    }
}

fn lower_char(c: char) -> (r: char)
    ensures
        r == ascii_lower(c),
{
    if 'A' <= c && c <= 'Z' {
        (((c as u32) + 32) as u8) as char
    } else {
        c
    }
}

fn same_ignoring_ascii_case(a: &Vec<char>, b: &Vec<char>) -> (r: bool)
    ensures
        r == eq_ignore_ascii_case(a@, b@),
{
    if a.len() != b.len() {
        return false;
    }
    let mut i: usize = 0;
    while i < a.len()
        invariant
            i <= a@.len(),
            a@.len() == b@.len(),
            forall|j: int| 0 <= j < i ==> #[trigger] ascii_lower(a@[j]) == ascii_lower(b@[j]),
        decreases a@.len() - i,
    {
        if lower_char(a[i]) != lower_char(b[i]) {
            return false;
        }
        i = i + 1;
    }
    true
}

/// Finds the string of the pool `[strings_start, strings_end)` that names
/// the archive.
fn find_archive_string(start: &[u8], strings_start: usize, strings_end: usize, name: &Vec<char>)
    -> (r: Result<Option<u32>, CmvsError>)
    requires
        strings_start <= strings_end <= start@.len(),
    ensures
        r == spec_find_archive_string(start@, strings_start as int, strings_start as int, strings_end as int, name@),
{
    let pool = vstd::slice::slice_subrange(start, 0, strings_end);
    let mut cursor = strings_start;
    while cursor < strings_end
        invariant
            strings_start <= cursor,
            strings_end <= start@.len(),
            pool@ == start@.subrange(0, strings_end as int),
            spec_find_archive_string(start@, strings_start as int, strings_start as int, strings_end as int, name@)
                == spec_find_archive_string(start@, strings_start as int, cursor as int, strings_end as int, name@),
        decreases strings_end - cursor,
    {
        let end = find_zero(pool, cursor);
        proof { lemma_find_zero(pool@, cursor as int); }
        if end > cursor {
            let raw = vstd::slice::slice_subrange(start, cursor, end);
            let (text, malformed) = shift_jis_decode_text(raw);
            if malformed {
                return Err(CmvsError::CpzArchiveKey);
            }
            let chars = chars_of(text.as_str());
            if same_ignoring_ascii_case(&chars, name) {
                let rel = cursor - strings_start;
                if rel > u32::MAX as usize {
                    return Err(CmvsError::CpzArchiveKey);
                }
                return Ok(Some(rel as u32));
            }
        }
        if end >= strings_end {
            return Ok(None);
        }
        cursor = end + 1;
    }
    Ok(None)
}

/// Reads the key of the archive named `archive_file_name` from a decoded
/// `start` script: the pool string naming the archive gives its id, and the
/// first push of that id in the program section is preceded by the key.
pub fn derive_archive_key(start: &[u8], archive_file_name: &str) -> (r: Result<CpzArchiveKey, CmvsError>)
    ensures
        r == spec_derive_archive_key(start@, archive_file_name@),
{
    let len = start.len();
    if len < 0x20 {
        return Err(CmvsError::CpzHeader);
    }
    let table_count = match read_le_u32(start, 0x10) { Some(v) => v, None => return Err(CmvsError::CpzHeader) };
    let bytecode_size = match read_le_u32(start, 0x14) { Some(v) => v, None => return Err(CmvsError::CpzHeader) };
    let string_size = match read_le_u32(start, 0x1c) { Some(v) => v, None => return Err(CmvsError::CpzHeader) };
    let bytecode_start: u64 = 0x30 + 4 * (table_count as u64);
    let strings_start: u64 = bytecode_start + bytecode_size as u64;
    let strings_end: u64 = strings_start + string_size as u64;
    if strings_end > len as u64 {
        return Err(CmvsError::CpzArchiveKey);
    }
    let name = chars_of(archive_file_name);
    let id = match find_archive_string(start, strings_start as usize, strings_end as usize, &name)? {
        Some(id) => id,
        None => return Err(CmvsError::CpzArchiveKey),
    };
    let stop: usize = if bytecode_start + (bytecode_size as u64) < len as u64 {
        (bytecode_start + bytecode_size as u64) as usize
    } else {
        len
    };
    let mut p: usize = bytecode_start as usize;
    assert(spec_derive_archive_key(start@, archive_file_name@) == spec_key_from_pattern(start@, id, p as int, stop as int));
    while p < stop
        invariant
            stop <= len,
            len == start@.len(),
            spec_derive_archive_key(start@, archive_file_name@) == spec_key_from_pattern(start@, id, bytecode_start as int, stop as int),
            spec_first_key_pattern(start@, id, bytecode_start as int, stop as int)
                == spec_first_key_pattern(start@, id, p as int, stop as int),
        decreases stop - p,
    {
        if p >= 0x33 && p <= len - 4 {
            let word = match read_le_u32(start, p) { Some(v) => v, None => { assert(false); 0 } };
            if word == id && start[p - 0x33] == 2 && start[p - 0x32] == 0 && start[p - 0x31] == 1 {
                let index_dir = match read_le_u32(start, p - 0x0c) { Some(v) => v, None => { assert(false); 0 } };
                let index_entry = match read_le_u32(start, p - 0x18) { Some(v) => v, None => { assert(false); 0 } };
                let entry_data_1 = match read_le_u32(start, p - 0x24) { Some(v) => v, None => { assert(false); 0 } };
                let entry_data_2 = match read_le_u32(start, p - 0x30) { Some(v) => v, None => { assert(false); 0 } };
                return Ok(CpzArchiveKey { index_dir, index_entry, entry_data_1, entry_data_2 });
            }
        }
        p = p + 1;
    }
    Err(CmvsError::CpzArchiveKey)
}

/// The key check of a `start` script: its header and payload must decode
/// and the decoded script must hold the key of the archive.
pub open spec fn spec_validate_archive_key(start: Seq<u8>, name: Seq<char>) -> Result<(), CmvsError> {
    match spec_parse_ps2a_header(start) {
        Err(e) => Err(e),
        Ok(header) => match spec_decode_ps2a(start, header) {
            Err(e) => Err(e),
            Ok(decoded) => match spec_derive_archive_key(decoded, name) {
                Err(e) => Err(e),
                Ok(_) => Ok(()),
            },
        },
    }
}

/// Checks that the encoded `start` script holds the key of the archive named
/// `archive_file_name`.
pub fn validate_archive_key(start: &[u8], archive_file_name: &str) -> (r: Result<(), CmvsError>)
    ensures
        r == spec_validate_archive_key(start@, archive_file_name@),
{
    let header = parse_header_for_archive_key(start)?;
    let decoded = decode_ps2a(start, header)?;
    derive_archive_key(decoded.as_slice(), archive_file_name)?;
    Ok(())
}

} // verus!
