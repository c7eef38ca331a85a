//! Name rules of the mounted archive: how a script call names its script
//! and how a resource's extension classifies it.
use vstd::prelude::*;
use crate::error::CmvsError;
use crate::text::{chars_of, string_of};
use crate::cpz::names::{is_safe_path, safe_path};

verus! {

/// `c` is an ASCII capital letter.
pub open spec fn is_ascii_upper(c: char) -> bool {
    'A' <= c && c <= 'Z'
}

/// `a` and `b` are the same character up to ASCII case.
pub open spec fn ascii_case_eq(a: char, b: char) -> bool {
    a == b || (is_ascii_upper(a) && a as u32 + 32 == b as u32) || (is_ascii_upper(b) && b as u32 + 32 == a as u32)
}

/// `a` and `b` are the same text up to ASCII case.
pub open spec fn eq_ignore_ascii_case(a: Seq<char>, b: Seq<char>) -> bool {
    a.len() == b.len() && forall|i: int| 0 <= i < a.len() ==> #[trigger] ascii_case_eq(a[i], b[i])
}

/// The last `/`-separated segment of `uri`.
pub open spec fn leaf_of(uri: Seq<char>) -> Seq<char>
    decreases uri.len(),
{
    if uri.len() == 0 {
        uri
    } else if uri.last() == '/' {
        Seq::empty()
    } else {
        leaf_of(uri.drop_last()).push(uri.last())
    }
}

/// Entry `i` is a candidate for the bare `name`: its leaf matches it.
pub open spec fn entry_matches(entries: Seq<(usize, Seq<char>)>, name: Seq<char>, i: int) -> bool {
    eq_ignore_ascii_case(leaf_of(entries[i].1), name)
}

/// Among the first `n` entries, entry `i` is the first candidate from the
/// earliest archive.
pub open spec fn is_chosen_among(entries: Seq<(usize, Seq<char>)>, name: Seq<char>, i: int, n: int) -> bool {
    &&& 0 <= i < n
    &&& entry_matches(entries, name, i)
    &&& forall|j: int| 0 <= j < n && entry_matches(entries, name, j) ==> entries[i].0 <= #[trigger] entries[j].0
    &&& forall|j: int| 0 <= j < i && entry_matches(entries, name, j) ==> entries[i].0 < #[trigger] entries[j].0
}

/// Entry `i` is the first candidate from the earliest archive.
pub open spec fn is_chosen_entry(entries: Seq<(usize, Seq<char>)>, name: Seq<char>, i: int) -> bool {
    is_chosen_among(entries, name, i, entries.len() as int)
}

/// How a script call names its script.
#[derive(Debug, Clone, PartialEq, Eq)]
pub enum CmvsScriptUri {
    /// A path under the mount prefix whose segments are all non-empty and
    /// neither `.` nor `..`.
    Path(String),
    /// The mounted entry a bare file name selects.
    Entry(String),
}

/// The plain value of a resolved script name.
pub enum ScriptUriV {
    Path(Seq<char>),
    Entry(Seq<char>),
}

impl View for CmvsScriptUri {
    type V = ScriptUriV;

    open spec fn view(&self) -> ScriptUriV {
        match self {
            CmvsScriptUri::Path(s) => ScriptUriV::Path(s@),
            CmvsScriptUri::Entry(s) => ScriptUriV::Entry(s@),
        }
    }
}

/// `name` with game separators `\` turned into `/` and one leading `/`
/// dropped.
pub open spec fn normalized_path(name: Seq<char>) -> Seq<char> {
    let norm = Seq::new(name.len(), |i: int| if name[i] == '\\' { '/' } else { name[i] });
    if norm.len() > 0 && norm[0] == '/' { norm.drop_first() } else { norm }
}

/// A bare name has a non-empty stem and extension around its last dot.
pub open spec fn has_stem_and_extension(name: Seq<char>) -> bool {
    exists|d: int| 0 < d < name.len() - 1 && name[d] == '.' && forall|k: int| d < k < name.len() ==> #[trigger] name[k] != '.'
}

/// How a script call name resolves: names with separators are paths under
/// the prefix, refused when they would leave it (an empty, `.` or `..`
/// segment once game separators are turned into `/`), bare names select the first matching entry of the earliest
/// archive, ignoring ASCII case.
pub open spec fn spec_resolve_script_name(prefix: Seq<char>, name: Seq<char>, name_bytes: nat,
    entries: Seq<(usize, Seq<char>)>) -> Result<ScriptUriV, CmvsError>
{
    if name.len() == 0 || name_bytes > 512 || name.contains('\0') || name.contains(':') {
        Err(CmvsError::ScriptUri)
    } else if name.contains('/') || name.contains('\\') {
        if is_safe_path(normalized_path(name)) {
            Ok(ScriptUriV::Path(prefix + normalized_path(name)))
        } else {
            Err(CmvsError::ScriptUri)
        }
    } else if !has_stem_and_extension(name) {
        Err(CmvsError::ScriptUri)
    } else if exists|i: int| is_chosen_entry(entries, name, i) {
        Ok(ScriptUriV::Entry(entries[choose|i: int| is_chosen_entry(entries, name, i)].1))
    } else {
        Err(CmvsError::ScriptNotFound)
    }
}

/// The leaf of `uri` is what follows its last `/`.
proof fn lemma_leaf_of(uri: Seq<char>, k: int)
    requires
        0 <= k <= uri.len(),
        k == 0 || uri[k - 1] == '/',
        forall|j: int| k <= j < uri.len() ==> #[trigger] uri[j] != '/',
    ensures
        leaf_of(uri) == uri.subrange(k, uri.len() as int),
    decreases uri.len(),
{
    if uri.len() == 0 {
        assert(uri.subrange(k, 0) =~= uri);
    } else if k == uri.len() {
        assert(uri.subrange(k, uri.len() as int) =~= Seq::<char>::empty());
    } else {
        lemma_leaf_of(uri.drop_last(), k);
        assert(uri.subrange(k, uri.len() as int) =~= uri.drop_last().subrange(k, uri.len() - 1).push(uri.last()));
    }
}

/// The index just after the last `/` of `chars`, or 0.
fn leaf_start(chars: &Vec<char>) -> (r: usize)
    ensures
        r <= chars@.len(),
        r == 0 || chars@[r - 1] == '/',
        forall|j: int| r <= j < chars@.len() ==> #[trigger] chars@[j] != '/',
{
    let mut k = chars.len();
    while k > 0
        invariant
            k <= chars@.len(),
            forall|j: int| k <= j < chars@.len() ==> #[trigger] chars@[j] != '/',
        decreases k,
    {
        if chars[k - 1] == '/' {
            return k;
        }
        k = k - 1;
    }
    0
}

/// Whether `c` occurs in `chars`.
fn contains_char(chars: &Vec<char>, c: char) -> (r: bool)
    ensures
        r == chars@.contains(c),
{
    let mut i: usize = 0;
    while i < chars.len()
        invariant
            i <= chars@.len(),
            forall|j: int| 0 <= j < i ==> chars@[j] != c,
        decreases chars@.len() - i,
    {
        if chars[i] == c {
            assert(chars@[i as int] == c);
            return true;
        }
        i = i + 1;
    }
    false
}

/// Compares two characters ignoring ASCII case.
pub(crate) fn char_eq_ignore_case(a: char, b: char) -> (r: bool)
    ensures
        r == ascii_case_eq(a, b),
{
    a == b || ('A' <= a && a <= 'Z' && a as u32 + 32 == b as u32) || ('A' <= b && b <= 'Z' && b as u32 + 32 == a as u32)
}

/// Whether the leaf of `uri` is `name` up to ASCII case.
fn leaf_matches(uri: &str, name: &Vec<char>) -> (r: bool)
    ensures
        r == eq_ignore_ascii_case(leaf_of(uri@), name@),
{
    let chars = chars_of(uri);
    let start = leaf_start(&chars);
    proof { lemma_leaf_of(chars@, start as int); }
    let ghost leaf = chars@.subrange(start as int, chars@.len() as int);
    let n = chars.len();
    if n - start != name.len() {
        return false;
    }
    let mut i: usize = 0;
    while i < name.len()
        invariant
            n == chars@.len(),
            leaf_of(uri@) == leaf,
            start + name@.len() == chars@.len(),
            leaf == chars@.subrange(start as int, chars@.len() as int),
            i <= name@.len(),
            forall|j: int| 0 <= j < i ==> #[trigger] ascii_case_eq(leaf[j], name@[j]),
        decreases name@.len() - i,
    {
        if !char_eq_ignore_case(chars[start + i], name[i]) {
            assert(!ascii_case_eq(leaf[i as int], name@[i as int]));
            return false;
        }
        i = i + 1;
    }
    true
}

/// At most one entry is the chosen one.
proof fn lemma_chosen_unique(entries: Seq<(usize, Seq<char>)>, name: Seq<char>, i: int, k: int)
    requires
        is_chosen_entry(entries, name, i),
        is_chosen_entry(entries, name, k),
    ensures
        i == k,
{
    if i < k {
        assert(entries[k].0 < entries[i].0);
    } else if k < i {
        assert(entries[i].0 < entries[k].0);
    }
}

/// The plain values of the mounted entries.
pub open spec fn entries_view(entries: Seq<(usize, &str)>) -> Seq<(usize, Seq<char>)> {
    entries.map_values(|e: (usize, &str)| (e.0, e.1@))
}

/// Resolves a script call name against the mounted entries `(archive
/// ordinal, URI)`: a name with separators is a path under `prefix`; a bare
/// `stem.extension` name selects the first matching entry of the earliest
/// archive, ignoring ASCII case. The error never repeats the name.
pub fn resolve_script_name(prefix: &str, name: &str, entries: &[(usize, &str)]) -> (r: Result<CmvsScriptUri, CmvsError>)
    ensures
        match spec_resolve_script_name(prefix@, name@, name.len() as nat, entries_view(entries@)) {
            Ok(v) => r matches Ok(u) && u@ == v,
            Err(e) => r matches Err(e2) && e2 == e,
        },
{
    let chars = chars_of(name);
    if chars.len() == 0 || name.len() > 512 || contains_char(&chars, '\0') || contains_char(&chars, ':') {
        return Err(CmvsError::ScriptUri);
    }
    if contains_char(&chars, '/') || contains_char(&chars, '\\') {
        let ghost norm = Seq::new(chars@.len(), |i: int| if chars@[i] == '\\' { '/' } else { chars@[i] });
        let skip0: usize = if chars[0] == '/' || chars[0] == '\\' { 1 } else { 0 };
        let mut rel: Vec<char> = Vec::new();
        let mut q: usize = skip0;
        while q < chars.len()
            invariant
                skip0 <= q <= chars@.len(),
                norm == Seq::new(chars@.len(), |i: int| if chars@[i] == '\\' { '/' } else { chars@[i] }),
                rel@ == norm.subrange(skip0 as int, q as int),
            decreases chars@.len() - q,
        {
            let c = chars[q];
            rel.push(if c == '\\' { '/' } else { c });
            q = q + 1;
            assert(rel@ =~= norm.subrange(skip0 as int, q as int));
        }
        assert(rel@ =~= normalized_path(chars@));
        if !safe_path(&rel) {
            return Err(CmvsError::ScriptUri);
        }
        let mut uri = chars_of(prefix);
        let ghost base = uri@;
        let mut i: usize = 0;
        while i < rel.len()
            invariant
                i <= rel@.len(),
                uri@ == base + rel@.subrange(0, i as int),
            decreases rel@.len() - i,
        {
            uri.push(rel[i]);
            i = i + 1;
            assert(uri@ =~= base + rel@.subrange(0, i as int));
        }
        assert(rel@.subrange(0, rel@.len() as int) =~= rel@);
        return Ok(CmvsScriptUri::Path(string_of(&uri)));
    }
    let mut k = chars.len();
    while k > 0 && chars[k - 1] != '.'
        invariant
            k <= chars@.len(),
            forall|j: int| k <= j < chars@.len() ==> #[trigger] chars@[j] != '.',
        decreases k,
    {
        k = k - 1;
    }
    if k <= 1 || k == chars.len() {
        proof {
            if has_stem_and_extension(chars@) {
                let d = choose|d: int| 0 < d < chars@.len() - 1 && chars@[d] == '.'
                    && forall|k: int| d < k < chars@.len() ==> #[trigger] chars@[k] != '.';
                if k > 0 && d != k - 1 {
                    if d < k - 1 {
                        assert(chars@[k - 1] != '.');
                    } else {
                        assert(chars@[d] != '.');
                    }
                }
            }
        }
        return Err(CmvsError::ScriptUri);
    }
    assert(chars@[k - 1] == '.');
    assert(has_stem_and_extension(chars@));
    let ghost ev = entries_view(entries@);
    let mut best: Option<usize> = None;
    let mut i: usize = 0;
    while i < entries.len()
        invariant
            i <= entries@.len(),
            ev == entries_view(entries@),
            ev.len() == entries@.len(),
            match best {
                Some(b) => is_chosen_among(ev, chars@, b as int, i as int),
                None => forall|j: int| 0 <= j < i ==> !#[trigger] entry_matches(ev, chars@, j),
            },
        decreases entries@.len() - i,
    {
        let (archive, uri) = entries[i];
        let matched = leaf_matches(uri, &chars);
        assert(ev[i as int] == (archive, uri@));
        match best {
            Some(b) => {
                let (best_archive, _) = entries[b];
                if matched && archive < best_archive {
                    best = Some(i);
                }
            },
            None => {
                if matched {
                    best = Some(i);
                }
            },
        }
        i = i + 1;
    }
    match best {
        Some(b) => {
            proof {
                let c = choose|i: int| is_chosen_entry(ev, chars@, i);
                lemma_chosen_unique(ev, chars@, b as int, c);
            }
            let (_, uri) = entries[b];
            Ok(CmvsScriptUri::Entry(string_of(&chars_of(uri))))
        },
        None => Err(CmvsError::ScriptNotFound),
    }
}

/// The lower-case extension of `name`, after its last dot, or all of it.
pub open spec fn extension_of(name: Seq<char>) -> Seq<char>
    decreases name.len(),
{
    if name.len() == 0 {
        name
    } else if name.last() == '.' {
        Seq::empty()
    } else {
        extension_of(name.drop_last()).push(name.last())
    }
}

/// `ext` spells `word` up to ASCII case.
pub open spec fn is_extension(ext: Seq<char>, word: Seq<char>) -> bool {
    eq_ignore_ascii_case(ext, word)
}

/// The media class of a resource, from its extension.
pub open spec fn spec_media_kind(name: Seq<char>) -> &'static str {
    let e = extension_of(name);
    if is_extension(e, seq!['p', 'b', '2']) || is_extension(e, seq!['p', 'b', '3']) || is_extension(e, seq!['p', 'n', 'g'])
        || is_extension(e, seq!['j', 'p', 'g']) || is_extension(e, seq!['j', 'p', 'e', 'g']) || is_extension(e, seq!['b', 'm', 'p']) {
        "image"
    } else if is_extension(e, seq!['o', 'g', 'g']) || is_extension(e, seq!['w', 'a', 'v']) || is_extension(e, seq!['m', 'v'])
        || is_extension(e, seq!['m', 'v', '2']) {
        "audio"
    } else if is_extension(e, seq!['m', 'g', 'v']) || is_extension(e, seq!['m', 'p', 'g']) || is_extension(e, seq!['m', 'p', 'e', 'g'])
        || is_extension(e, seq!['w', 'm', 'v']) {
        "video"
    } else if is_extension(e, seq!['p', 's', '2']) || is_extension(e, seq!['p', 's', '3']) {
        "script"
    } else {
        "binary"
    }
}

/// The characters after the last dot of `chars`, or all of them.
fn extension_chars(chars: &Vec<char>) -> (r: Vec<char>)
    ensures
        r@ == extension_of(chars@),
{
    let mut k = chars.len();
    while k > 0 && chars[k - 1] != '.'
        invariant
            k <= chars@.len(),
            forall|j: int| k <= j < chars@.len() ==> #[trigger] chars@[j] != '.',
        decreases k,
    {
        k = k - 1;
    }
    proof { lemma_extension_of(chars@, k as int); }
    let mut out: Vec<char> = Vec::new();
    let mut i = k;
    while i < chars.len()
        invariant
            k <= i <= chars@.len(),
            out@ == chars@.subrange(k as int, i as int),
        decreases chars@.len() - i,
    {
        out.push(chars[i]);
        i = i + 1;
        assert(out@ =~= chars@.subrange(k as int, i as int));
    }
    out
}

/// The extension of `name` is what follows its last dot.
proof fn lemma_extension_of(name: Seq<char>, k: int)
    requires
        0 <= k <= name.len(),
        k == 0 || name[k - 1] == '.',
        forall|j: int| k <= j < name.len() ==> #[trigger] name[j] != '.',
    ensures
        extension_of(name) == name.subrange(k, name.len() as int),
    decreases name.len(),
{
    if name.len() == 0 {
        assert(name.subrange(k, 0) =~= name);
    } else if k == name.len() {
        assert(name.subrange(k, name.len() as int) =~= Seq::<char>::empty());
    } else {
        lemma_extension_of(name.drop_last(), k);
        assert(name.subrange(k, name.len() as int) =~= name.drop_last().subrange(k, name.len() - 1).push(name.last()));
    }
}

/// Whether `ext` spells the lower-case `word` up to ASCII case.
fn extension_is(ext: &Vec<char>, word: &[char]) -> (r: bool)
    ensures
        r == is_extension(ext@, word@),
{
    if ext.len() != word.len() {
        return false;
    }
    let mut i: usize = 0;
    while i < ext.len()
        invariant
            ext@.len() == word@.len(),
            i <= ext@.len(),
            forall|j: int| 0 <= j < i ==> #[trigger] ascii_case_eq(ext@[j], word@[j]),
        decreases ext@.len() - i,
    {
        if !char_eq_ignore_case(ext[i], word[i]) {
            return false;
        }
        i = i + 1;
    }
    true
}

/// Classifies a resource as image, audio, video, script or binary by its
/// extension, ignoring ASCII case.
pub fn media_kind(name: &str) -> (r: &'static str)
    ensures
        r == spec_media_kind(name@),
{
    let chars = chars_of(name);
    let e = extension_chars(&chars);
    let pb2 = ['p', 'b', '2'];
    let pb3 = ['p', 'b', '3'];
    let png = ['p', 'n', 'g'];
    let jpg = ['j', 'p', 'g'];
    let jpeg = ['j', 'p', 'e', 'g'];
    let bmp = ['b', 'm', 'p'];
    let ogg = ['o', 'g', 'g'];
    let wav = ['w', 'a', 'v'];
    let mv = ['m', 'v'];
    let mv2 = ['m', 'v', '2'];
    let mgv = ['m', 'g', 'v'];
    let mpg = ['m', 'p', 'g'];
    let mpeg = ['m', 'p', 'e', 'g'];
    let wmv = ['w', 'm', 'v'];
    let ps2 = ['p', 's', '2'];
    let ps3 = ['p', 's', '3'];
    assert(pb2@ =~= seq!['p', 'b', '2'] && pb3@ =~= seq!['p', 'b', '3'] && png@ =~= seq!['p', 'n', 'g']
        && jpg@ =~= seq!['j', 'p', 'g'] && jpeg@ =~= seq!['j', 'p', 'e', 'g'] && bmp@ =~= seq!['b', 'm', 'p']);
    assert(ogg@ =~= seq!['o', 'g', 'g'] && wav@ =~= seq!['w', 'a', 'v'] && mv@ =~= seq!['m', 'v']
        && mv2@ =~= seq!['m', 'v', '2']);
    assert(mgv@ =~= seq!['m', 'g', 'v'] && mpg@ =~= seq!['m', 'p', 'g'] && mpeg@ =~= seq!['m', 'p', 'e', 'g']
        && wmv@ =~= seq!['w', 'm', 'v'] && ps2@ =~= seq!['p', 's', '2'] && ps3@ =~= seq!['p', 's', '3']);
    if extension_is(&e, &pb2) || extension_is(&e, &pb3) || extension_is(&e, &png) || extension_is(&e, &jpg)
        || extension_is(&e, &jpeg) || extension_is(&e, &bmp) {
        "image"
    } else if extension_is(&e, &ogg) || extension_is(&e, &wav) || extension_is(&e, &mv) || extension_is(&e, &mv2) {
        "audio"
    } else if extension_is(&e, &mgv) || extension_is(&e, &mpg) || extension_is(&e, &mpeg) || extension_is(&e, &wmv) {
        "video"
    } else if extension_is(&e, &ps2) || extension_is(&e, &ps3) {
        "script"
    } else {
        "binary"
    }
}

/// Classifies a loose resource by its file name; a path without a valid
/// file name is refused.
pub fn loose_media_kind(file_name: Option<&str>) -> (r: Result<&'static str, CmvsError>)
    ensures
        match file_name {
            Some(n) => r == Ok::<&'static str, CmvsError>(spec_media_kind(n@)),
            None => r == Err::<&'static str, CmvsError>(CmvsError::LooseName),
        },
{
    match file_name {
        Some(n) => Ok(media_kind(n)),
        None => Err(CmvsError::LooseName),
    }
}

/// `s` holds two dots in a row.
pub open spec fn has_double_dot(s: Seq<char>) -> bool {
    exists|i: int| 0 <= i && i + 1 < s.len() && #[trigger] s[i] == '.' && s[i + 1] == '.'
}

/// The URI of a PB3 image's base image: the reference, a bare file name
/// without `..`, placed in the directory of the parent image, which must
/// lie under `prefix` and have a directory part; the result must stay
/// under `prefix` with no empty, `.` or `..` segment.
pub open spec fn spec_pb3_base_uri(prefix: Seq<char>, parent: Seq<char>, reference: Seq<char>) -> Option<Seq<char>> {
    if reference.len() == 0 || reference.contains('/') || reference.contains('\\') || has_double_dot(reference)
        || !(prefix.len() <= parent.len() && parent.subrange(0, prefix.len() as int) == prefix)
        || !parent.contains('/')
    {
        None
    } else {
        let uri = parent.subrange(0, parent.len() - leaf_of(parent).len() - 1) + seq!['/'] + reference;
        if prefix.len() <= uri.len() && uri.subrange(0, prefix.len() as int) == prefix
            && is_safe_path(uri.subrange(prefix.len() as int, uri.len() as int))
        {
            Some(uri)
        } else {
            None
        }
    }
}

/// Whether `chars` holds two dots in a row.
fn double_dot(chars: &Vec<char>) -> (r: bool)
    ensures
        r == has_double_dot(chars@),
{
    let mut i: usize = 0;
    while i < chars.len() && chars.len() - i > 1
        invariant
            i <= chars@.len(),
            forall|j: int| 0 <= j < i && j + 1 < chars@.len() ==> !(#[trigger] chars@[j] == '.' && chars@[j + 1] == '.'),
        decreases chars@.len() - i,
    {
        if chars[i] == '.' && chars[i + 1] == '.' {
            assert(chars@[i as int] == '.' && chars@[i + 1] == '.');
            return true;
        }
        i = i + 1;
    }
    false
}

/// Whether `chars` begins with `prefix`.
fn starts_with(chars: &Vec<char>, prefix: &Vec<char>) -> (r: bool)
    ensures
        r == (prefix@.len() <= chars@.len() && chars@.subrange(0, prefix@.len() as int) == prefix@),
{
    if prefix.len() > chars.len() {
        return false;
    }
    let mut i: usize = 0;
    while i < prefix.len()
        invariant
            prefix@.len() <= chars@.len(),
            i <= prefix@.len(),
            forall|j: int| 0 <= j < i ==> chars@[j] == prefix@[j],
        decreases prefix@.len() - i,
    {
        if chars[i] != prefix[i] {
            assert(chars@.subrange(0, prefix@.len() as int)[i as int] != prefix@[i as int]);
            return false;
        }
        i = i + 1;
    }
    assert(chars@.subrange(0, prefix@.len() as int) =~= prefix@);
    true
}

/// Resolves the base image a PB3 image at `parent_uri` refers to. The
/// composed URI is still to be checked by the host as an archive URI under
/// `prefix`.
pub fn resolve_pb3_base_uri(prefix: &str, parent_uri: &str, reference: &str) -> (r: Result<String, CmvsError>)
    ensures
        r is Ok <==> spec_pb3_base_uri(prefix@, parent_uri@, reference@) is Some,
        r matches Ok(uri) ==> uri@ == spec_pb3_base_uri(prefix@, parent_uri@, reference@)->0,
        r is Err ==> r == Err::<String, CmvsError>(CmvsError::Pb3BaseReference),
{
    let prefix_chars = chars_of(prefix);
    let parent = chars_of(parent_uri);
    let name = chars_of(reference);
    if name.len() == 0 || contains_char(&name, '/') || contains_char(&name, '\\') || double_dot(&name)
        || !starts_with(&parent, &prefix_chars)
    {
        return Err(CmvsError::Pb3BaseReference);
    }
    let k = leaf_start(&parent);
    if k == 0 {
        assert(!parent@.contains('/'));
        return Err(CmvsError::Pb3BaseReference);
    }
    proof { lemma_leaf_of(parent@, k as int); }
    assert(parent@.contains('/')) by {
        assert(parent@[k - 1] == '/');
    }
    let mut out: Vec<char> = Vec::new();
    let mut i: usize = 0;
    while i < k - 1
        invariant
            0 < k <= parent@.len(),
            i <= k - 1,
            out@ == parent@.subrange(0, i as int),
        decreases k - 1 - i,
    {
        out.push(parent[i]);
        i = i + 1;
        assert(out@ =~= parent@.subrange(0, i as int));
    }
    out.push('/');
    let mut j: usize = 0;
    let ghost dir = parent@.subrange(0, k - 1);
    while j < name.len()
        invariant
            j <= name@.len(),
            out@ == dir + seq!['/'] + name@.subrange(0, j as int),
        decreases name@.len() - j,
    {
        out.push(name[j]);
        j = j + 1;
        assert(out@ =~= dir + seq!['/'] + name@.subrange(0, j as int));
    }
    assert(name@.subrange(0, name@.len() as int) =~= name@);
    if !starts_with(&out, &prefix_chars) {
        return Err(CmvsError::Pb3BaseReference);
    }
    let mut rest: Vec<char> = Vec::new();
    let mut t: usize = prefix_chars.len();
    while t < out.len()
        invariant
            prefix_chars@.len() <= t <= out@.len(),
            rest@ == out@.subrange(prefix_chars@.len() as int, t as int),
        decreases out@.len() - t,
    {
        rest.push(out[t]);
        t = t + 1;
        assert(rest@ =~= out@.subrange(prefix_chars@.len() as int, t as int));
    }
    if !safe_path(&rest) {
        return Err(CmvsError::Pb3BaseReference);
    }
    Ok(string_of(&out))
}

/// `uri` lies under `prefix`, and what follows the prefix is a safe
/// relative path: not empty, no leading slash, no colon, no empty, `.` or
/// `..` segment.
pub open spec fn is_archive_uri(prefix: Seq<char>, uri: Seq<char>) -> bool {
    &&& prefix.len() <= uri.len()
    &&& uri.subrange(0, prefix.len() as int) == prefix
    &&& is_safe_path(uri.subrange(prefix.len() as int, uri.len() as int))
}

/// Checks that `uri` names a resource under `prefix`.
pub fn check_archive_uri(prefix: &str, uri: &str) -> (r: Result<(), CmvsError>)
    ensures
        r is Ok <==> is_archive_uri(prefix@, uri@),
        r is Err ==> r == Err::<(), CmvsError>(CmvsError::VfsUri),
{
    let p = chars_of(prefix);
    let u = chars_of(uri);
    if !starts_with(&u, &p) {
        return Err(CmvsError::VfsUri);
    }
    let mut rest: Vec<char> = Vec::new();
    let mut t: usize = p.len();
    while t < u.len()
        invariant
            p@.len() <= t <= u@.len(),
            rest@ == u@.subrange(p@.len() as int, t as int),
        decreases u@.len() - t,
    {
        rest.push(u[t]);
        t = t + 1;
        assert(rest@ =~= u@.subrange(p@.len() as int, t as int));
    }
    if !safe_path(&rest) {
        return Err(CmvsError::VfsUri);
    }
    Ok(())
}

/// The file name has an extension as a path reads it: a dot that is not
/// the name's first character.
pub open spec fn has_path_extension(name: Seq<char>) -> bool {
    exists|i: int| 0 < i < name.len() && #[trigger] name[i] == '.'
}

/// The file name's extension, as a path reads it, spells `word` up to
/// ASCII case.
pub open spec fn path_extension_is(name: Seq<char>, word: Seq<char>) -> bool {
    has_path_extension(name) && eq_ignore_ascii_case(extension_of(name), word)
}

/// Whether the extension of `file_name`, as a path reads it, spells the
/// lower-case `word` up to ASCII case.
pub fn file_extension_is(file_name: &str, word: &[char]) -> (r: bool)
    ensures
        r == path_extension_is(file_name@, word@),
{
    let chars = chars_of(file_name);
    let mut dotted = false;
    let mut i: usize = 1;
    while i < chars.len()
        invariant
            1 <= i,
            chars@ == file_name@,
            dotted <==> exists|k: int| 0 < k < i && k < chars@.len() && #[trigger] chars@[k] == '.',
        decreases chars@.len() - i,
    {
        if chars[i] == '.' {
            dotted = true;
        }
        i = i + 1;
    }
    if !dotted {
        return false;
    }
    let ext = extension_chars(&chars);
    extension_is(&ext, word)
}

} // verus!
