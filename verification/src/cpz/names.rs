//! Names in the CPZ5 index: bounded Shift-JIS strings and the archive-
//! relative paths built from them.
use vstd::prelude::*;
use crate::error::CmvsError;
use crate::scan::{spec_find_zero, find_zero, lemma_find_zero};
use crate::text::{shift_jis_decode, shift_jis_decode_text, chars_of, string_of};
use vstd::utf8::encode_utf8;

verus! {

/// The Shift-JIS string that `bytes` holds up to its first zero byte or its
/// end; an empty, malformed or longer than 4096 UTF-8 bytes string is
/// rejected.
pub open spec fn spec_decode_cp932_cstring(bytes: Seq<u8>) -> Result<Seq<char>, CmvsError> {
    let end = spec_find_zero(bytes, 0);
    if end == 0 {
        Err(CmvsError::CpzString)
    } else {
        let d = shift_jis_decode(bytes.subrange(0, end));
        if d.1 || encode_utf8(d.0).len() as usize > 4096 { Err(CmvsError::CpzString) } else { Ok(d.0) }
    }
}

/// Decodes the bounded Shift-JIS string of an index record; `field` names
/// the record field for the reader's benefit.
pub fn decode_cp932_cstring(bytes: &[u8], field: &'static str) -> (r: Result<String, CmvsError>)
    ensures
        match r {
            Ok(t) => spec_decode_cp932_cstring(bytes@) == Ok::<Seq<char>, CmvsError>(t@),
            Err(e) => spec_decode_cp932_cstring(bytes@) == Err::<Seq<char>, CmvsError>(e),
        },
{
    let _ = field;
    let end = find_zero(bytes, 0);
    proof { lemma_find_zero(bytes@, 0); }
    if end == 0 {
        return Err(CmvsError::CpzString);
    }
    let raw = vstd::slice::slice_subrange(bytes, 0, end);
    let (text, malformed) = shift_jis_decode_text(raw);
    if malformed || text.as_str().len() > 4096 {
        return Err(CmvsError::CpzString);
    }
    Ok(text)
}

/// `c` in lower case when it is an ASCII capital.
pub open spec fn ascii_lower(c: char) -> char {
    if 'A' <= c <= 'Z' { ((c as u32) + 32) as char } else { c }
}

/// `d` names the archive root: `root` in any ASCII case.
pub open spec fn is_root_name(d: Seq<char>) -> bool {
    d.len() == 4 && ascii_lower(d[0]) == 'r' && ascii_lower(d[1]) == 'o' && ascii_lower(d[2]) == 'o'
        && ascii_lower(d[3]) == 't'
}

/// The path of `entry` in `directory`, with every backslash made a slash.
pub open spec fn spec_joined_path(directory: Seq<char>, entry: Seq<char>) -> Seq<char> {
    let path = if is_root_name(directory) { entry } else { directory + seq!['/'] + entry };
    Seq::new(path.len(), |i: int| if path[i] == '\\' { '/' } else { path[i] })
}

/// A segment of `p` starts at `i`.
pub open spec fn segment_starts(p: Seq<char>, i: int) -> bool {
    i == 0 || p[i - 1] == '/'
}

/// A segment of `p` ends at `j`.
pub open spec fn segment_ends(p: Seq<char>, j: int) -> bool {
    j == p.len() || p[j] == '/'
}

/// Position `i` of `p` shows a forbidden form: a colon, an empty segment
/// after a slash, or a `.` or `..` segment.
pub open spec fn bad_at(p: Seq<char>, i: int) -> bool {
    ||| p[i] == ':'
    ||| p[i] == '/' && segment_ends(p, i + 1)
    ||| p[i] == '.' && segment_starts(p, i) && segment_ends(p, i + 1)
    ||| p[i] == '.' && i + 1 < p.len() && p[i + 1] == '.' && segment_starts(p, i) && segment_ends(p, i + 2)
}

/// `p` is a relative path that stays inside its archive: it is not empty,
/// does not start with a slash, holds no colon and no empty, `.` or `..`
/// segment.
pub open spec fn is_safe_path(p: Seq<char>) -> bool {
    &&& p.len() > 0
    &&& p[0] != '/'
    &&& forall|i: int| 0 <= i < p.len() ==> !#[trigger] bad_at(p, i)
}

/// The archive-relative path of `entry` in `directory`.
pub open spec fn spec_canonical_cmvs_path(directory: Seq<char>, entry: Seq<char>) -> Result<Seq<char>, CmvsError> {
    let p = spec_joined_path(directory, entry);
    if is_safe_path(p) { Ok(p) } else { Err(CmvsError::CpzPath) }
}

fn lower(c: char) -> (r: char)
    ensures
        r == ascii_lower(c),
{
    if 'A' <= c && c <= 'Z' {
        let v = (c as u32) + 32;
        assert(v < 0xD800);
        char_from(v)
    } else {
        c
    }
}

/// The character of an ASCII code point.
fn char_from(v: u32) -> (r: char)
    requires
        v < 0x80,
    ensures
        r == v as char,
{
    (v as u8) as char
}

/// Joins `entry` to `directory`, which `root` in any ASCII case omits, turns
/// backslashes into slashes and rejects a path that is empty, absolute, holds
/// a colon or has an empty, `.` or `..` segment.
pub fn canonical_cmvs_path(directory: &str, entry: &str) -> (r: Result<String, CmvsError>)
    ensures
        match r {
            Ok(p) => spec_canonical_cmvs_path(directory@, entry@) == Ok::<Seq<char>, CmvsError>(p@),
            Err(e) => spec_canonical_cmvs_path(directory@, entry@) == Err::<Seq<char>, CmvsError>(e),
        },
{
    let d = chars_of(directory);
    let e = chars_of(entry);
    let root = d.len() == 4 && lower(d[0]) == 'r' && lower(d[1]) == 'o' && lower(d[2]) == 'o' && lower(d[3]) == 't';
    let mut path: Vec<char> = Vec::new();
    let ghost joined: Seq<char> = if root { e@ } else { d@ + seq!['/'] + e@ };
    if !root {
        let mut i: usize = 0;
        while i < d.len()
            invariant
                i <= d@.len(),
                path@ == d@.subrange(0, i as int),
            decreases d@.len() - i,
        {
            path.push(d[i]);
            i = i + 1;
            assert(path@ =~= d@.subrange(0, i as int));
        }
        path.push('/');
        assert(path@ =~= d@ + seq!['/']);
    }
    let ghost prefix = path@;
    let mut j: usize = 0;
    while j < e.len()
        invariant
            j <= e@.len(),
            path@ == prefix + e@.subrange(0, j as int),
        decreases e@.len() - j,
    {
        path.push(e[j]);
        j = j + 1;
        assert(path@ =~= prefix + e@.subrange(0, j as int));
    }
    assert(path@ =~= joined);
    let n = path.len();
    let mut k: usize = 0;
    while k < n
        invariant
            n == path@.len(),
            n == joined.len(),
            k <= n,
            forall|q: int| 0 <= q < k ==> path@[q] == (if joined[q] == '\\' { '/' } else { joined[q] }),
            forall|q: int| k <= q < n ==> path@[q] == joined[q],
        decreases n - k,
    {
        if path[k] == '\\' {
            path.set(k, '/');
        }
        k = k + 1;
    }
    let ghost p = spec_joined_path(directory@, entry@);
    assert(path@ =~= p);
    if !safe_path(&path) {
        return Err(CmvsError::CpzPath);
    }
    Ok(string_of(&path))
}

/// Whether `path` is a relative path that stays inside its archive.
pub(crate) fn safe_path(path: &Vec<char>) -> (r: bool)
    ensures
        r == is_safe_path(path@),
{
    let n = path.len();
    if n == 0 || path[0] == '/' {
        return false;
    }
    let ghost p = path@;
    let mut i: usize = 0;
    while i < n
        invariant
            n == path@.len(),
            path@ == p,
            p.len() > 0 && p[0] != '/',
            i <= n,
            forall|q: int| 0 <= q < i ==> !#[trigger] bad_at(p, q),
        decreases n - i,
    {
        let c = path[i];
        let starts = i == 0 || path[i - 1] == '/';
        let end1 = i + 1 == n || path[i + 1] == '/';
        let bad = c == ':' || (c == '/' && end1) || (c == '.' && starts && end1)
            || (c == '.' && i + 1 < n && path[i + 1] == '.' && starts && (i + 2 == n || path[i + 2] == '/'));
        if bad {
            assert(bad_at(p, i as int));
            return false;
        }
        i = i + 1;
    }
    true
}

} // verus!
