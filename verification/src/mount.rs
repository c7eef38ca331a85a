//! The rules a mount applies to its sources: which archive sets and loose
//! resources it accepts, which index entries it maps, and the URIs and ids
//! it gives them. Reading the files and hashing them is the host's part.
use vstd::prelude::*;
use crate::error::CmvsError;
use crate::cpz::CmvsCpzVersion;
use crate::scheme::{CmvsSchemeProfile, spec_scheme_valid};
use crate::text::{chars_of, push_char, push_decimal, decimal_chars, str_eq};
use crate::cpz::index::{Cpz5IndexEntry, IndexEntryV};
use crate::cpz::names::{is_safe_path, safe_path};
use crate::sorted_names::SortedNames;
use crate::vfs::{name_less, lemma_name_less_irreflexive, lemma_name_less_transitive, lemma_name_less_total};
use crate::archive::{media_kind, spec_media_kind};
use crate::text::{sha256, sha256_digest};

verus! {

/// The largest entry or loose resource mapped, in bytes.
pub const MAX_ENTRY_BYTES: u64 = 0x4000_0000;

/// The most archives, and the most loose resources, one mount takes.
pub const MAX_ARCHIVES: usize = 256;

/// The most entries one mount maps.
pub const MAX_ENTRIES: usize = 2_000_000;

/// The only mount prefix.
pub open spec fn spec_mount_prefix() -> Seq<char> {
    "cmvs:/"@
}

/// Checks a mount request before any source is opened: a well-formed
/// scheme, the `cmvs:/` prefix and one to the limit of archives.
pub fn check_mount_request(scheme: &CmvsSchemeProfile, prefix: &str, archive_count: usize) -> (r: Result<(), CmvsError>)
    ensures
        !spec_scheme_valid(*scheme) ==> r == Err::<(), CmvsError>(CmvsError::PrivateScheme),
        spec_scheme_valid(*scheme) && !(prefix@ == spec_mount_prefix() && 0 < archive_count <= MAX_ARCHIVES)
            ==> r == Err::<(), CmvsError>(CmvsError::MountArchives),
        r is Ok <==> spec_scheme_valid(*scheme) && prefix@ == spec_mount_prefix() && 0 < archive_count <= MAX_ARCHIVES,
{
    if scheme.validate().is_err() {
        return Err(CmvsError::PrivateScheme);
    }
    if !str_eq(prefix, "cmvs:/") || archive_count == 0 || archive_count > MAX_ARCHIVES {
        return Err(CmvsError::MountArchives);
    }
    Ok(())
}

/// Checks an archive source before its index is read: it is not empty and
/// its header is CPZ5.
pub fn check_archive_source(byte_size: u64, version: CmvsCpzVersion) -> (r: Result<(), CmvsError>)
    ensures
        byte_size == 0 ==> r == Err::<(), CmvsError>(CmvsError::ArchiveEmpty),
        byte_size > 0 && version != CmvsCpzVersion::Cpz5 ==> r == Err::<(), CmvsError>(CmvsError::CpzVersion),
        r is Ok <==> byte_size > 0 && version == CmvsCpzVersion::Cpz5,
{
    if byte_size == 0 {
        return Err(CmvsError::ArchiveEmpty);
    }
    match version {
        CmvsCpzVersion::Cpz5 => Ok(()),
        _ => Err(CmvsError::CpzVersion),
    }
}

/// Checks an index entry against its archive: a size from one byte to the
/// entry limit, and a stored range inside the archive.
pub fn check_mounted_entry(offset: u64, stored_size: u64, archive_size: u64) -> (r: Result<(), CmvsError>)
    ensures
        (stored_size == 0 || stored_size > MAX_ENTRY_BYTES) ==> r == Err::<(), CmvsError>(CmvsError::EntrySize),
        0 < stored_size <= MAX_ENTRY_BYTES && offset + stored_size > archive_size
            ==> r == Err::<(), CmvsError>(CmvsError::EntryRange),
        r is Ok <==> 0 < stored_size <= MAX_ENTRY_BYTES && offset + stored_size <= archive_size,
{
    if stored_size == 0 || stored_size > MAX_ENTRY_BYTES {
        return Err(CmvsError::EntrySize);
    }
    match offset.checked_add(stored_size) {
        Some(end) => if end > archive_size { Err(CmvsError::EntryRange) } else { Ok(()) },
        None => Err(CmvsError::EntryRange),
    }
}

/// Checks the number of mapped entries after one more is added.
pub fn check_entry_count(count: usize) -> (r: Result<(), CmvsError>)
    ensures
        r is Ok <==> count <= MAX_ENTRIES,
        r is Err ==> r == Err::<(), CmvsError>(CmvsError::EntryLimit),
{
    if count > MAX_ENTRIES {
        return Err(CmvsError::EntryLimit);
    }
    Ok(())
}

/// Checks a loose resource before it is added to the `mounted` ones: the
/// role limit, then a size from one byte to the entry limit.
pub fn check_loose_source(mounted: usize, byte_size: u64) -> (r: Result<(), CmvsError>)
    ensures
        mounted >= MAX_ARCHIVES ==> r == Err::<(), CmvsError>(CmvsError::LooseLimit),
        mounted < MAX_ARCHIVES && (byte_size == 0 || byte_size > MAX_ENTRY_BYTES)
            ==> r == Err::<(), CmvsError>(CmvsError::LooseSize),
        r is Ok <==> mounted < MAX_ARCHIVES && 0 < byte_size <= MAX_ENTRY_BYTES,
{
    if mounted >= MAX_ARCHIVES {
        return Err(CmvsError::LooseLimit);
    }
    if byte_size == 0 || byte_size > MAX_ENTRY_BYTES {
        return Err(CmvsError::LooseSize);
    }
    Ok(())
}

/// Appends the characters of `t` to `s`.
fn push_str(s: &mut String, t: &str)
    ensures
        final(s)@ == old(s)@ + t@,
{
    let chars = chars_of(t);
    let mut i: usize = 0;
    while i < chars.len()
        invariant
            i <= chars@.len(),
            chars@ == t@,
            s@ == old(s)@ + chars@.subrange(0, i as int),
        decreases chars@.len() - i,
    {
        push_char(s, chars[i]);
        i = i + 1;
        assert(s@ =~= old(s)@ + chars@.subrange(0, i as int));
    }
    assert(chars@.subrange(0, chars@.len() as int) =~= chars@);
}

/// An owned copy of `t`.
fn owned(t: &str) -> (r: String)
    ensures
        r@ == t@,
{
    let mut s = String::new();
    push_str(&mut s, t);
    assert(s@ =~= t@);
    s
}

/// The URI an index entry is mounted at.
pub fn entry_uri(prefix: &str, relative_path: &str) -> (r: String)
    ensures
        r@ == prefix@ + relative_path@,
{
    let mut s = String::new();
    push_str(&mut s, prefix);
    push_str(&mut s, relative_path);
    assert(s@ =~= prefix@ + relative_path@);
    s
}

/// The id of the `ordinal`-th entry of the archive with `role`.
pub fn entry_id(role: &str, ordinal: u64) -> (r: String)
    ensures
        r@ == role@ + seq!['-'] + decimal_chars(ordinal as nat),
{
    let mut s = String::new();
    push_str(&mut s, role);
    push_char(&mut s, '-');
    push_decimal(&mut s, ordinal);
    assert(s@ =~= role@ + seq!['-'] + decimal_chars(ordinal as nat));
    s
}

/// The URI a loose resource is mounted at.
pub fn loose_uri(prefix: &str, role: &str) -> (r: String)
    ensures
        r@ == prefix@ + seq!['l', 'o', 'o', 's', 'e', '/'] + role@,
{
    let mut s = String::new();
    push_str(&mut s, prefix);
    push_char(&mut s, 'l');
    push_char(&mut s, 'o');
    push_char(&mut s, 'o');
    push_char(&mut s, 's');
    push_char(&mut s, 'e');
    push_char(&mut s, '/');
    push_str(&mut s, role);
    assert(s@ =~= prefix@ + seq!['l', 'o', 'o', 's', 'e', '/'] + role@);
    s
}

/// The source and entry id of a loose resource.
pub fn loose_id(role: &str) -> (r: String)
    ensures
        r@ == seq!['l', 'o', 'o', 's', 'e', '-'] + role@,
{
    let mut s = String::new();
    push_char(&mut s, 'l');
    push_char(&mut s, 'o');
    push_char(&mut s, 'o');
    push_char(&mut s, 's');
    push_char(&mut s, 'e');
    push_char(&mut s, '-');
    push_str(&mut s, role);
    assert(s@ =~= seq!['l', 'o', 'o', 's', 'e', '-'] + role@);
    s
}

/// An index entry mapped by the mount: its URI, its id, the archive it
/// lies in and its index record.
pub struct CmvsPlannedEntry {
    pub uri: String,
    pub entry_id: String,
    pub archive: usize,
    pub entry: Cpz5IndexEntry,
}

/// The abstract content of a mapped entry.
pub struct PlannedEntryV {
    pub uri: Seq<char>,
    pub entry_id: Seq<char>,
    pub archive: nat,
    pub entry: IndexEntryV,
}

impl View for CmvsPlannedEntry {
    type V = PlannedEntryV;

    open spec fn view(&self) -> PlannedEntryV {
        PlannedEntryV { uri: self.uri@, entry_id: self.entry_id@, archive: self.archive as nat, entry: self.entry@ }
    }
}

/// A loose resource mapped by the mount: its role, its URI, its source and
/// entry id, and its size.
pub struct CmvsPlannedLoose {
    pub role: String,
    pub uri: String,
    pub source_id: String,
    pub byte_size: u64,
}

/// The abstract content of a mapped loose resource.
pub struct PlannedLooseV {
    pub role: Seq<char>,
    pub uri: Seq<char>,
    pub source_id: Seq<char>,
    pub byte_size: u64,
}

impl View for CmvsPlannedLoose {
    type V = PlannedLooseV;

    open spec fn view(&self) -> PlannedLooseV {
        PlannedLooseV { role: self.role@, uri: self.uri@, source_id: self.source_id@, byte_size: self.byte_size }
    }
}

/// An archive taken by the mount: its role and its byte size.
pub struct CmvsPlannedArchive {
    pub role: String,
    pub byte_size: u64,
}

/// The abstract content of a taken archive.
pub struct PlannedArchiveV {
    pub role: Seq<char>,
    pub byte_size: u64,
}

impl View for CmvsPlannedArchive {
    type V = PlannedArchiveV;

    open spec fn view(&self) -> PlannedArchiveV {
        PlannedArchiveV { role: self.role@, byte_size: self.byte_size }
    }
}

/// The abstract content of taken archives.
pub open spec fn planned_archives_view(a: Seq<CmvsPlannedArchive>) -> Seq<PlannedArchiveV> {
    a.map_values(|x: CmvsPlannedArchive| x@)
}

/// The abstract content of a mount plan: its prefix, the archives it took,
/// and the entries and loose resources it maps, in the order they were
/// added.
pub struct MountPlanV {
    pub prefix: Seq<char>,
    pub sources: Seq<PlannedArchiveV>,
    pub entries: Seq<PlannedEntryV>,
    pub loose: Seq<PlannedLooseV>,
}

/// The URIs of mapped entries.
pub open spec fn planned_uris(es: Seq<PlannedEntryV>) -> Seq<Seq<char>> {
    es.map_values(|e: PlannedEntryV| e.uri)
}

/// The ids of mapped entries.
pub open spec fn planned_ids(es: Seq<PlannedEntryV>) -> Seq<Seq<char>> {
    es.map_values(|e: PlannedEntryV| e.entry_id)
}

/// The roles of mapped loose resources.
pub open spec fn planned_roles(ls: Seq<PlannedLooseV>) -> Seq<Seq<char>> {
    ls.map_values(|l: PlannedLooseV| l.role)
}

/// The URI a loose resource with `role` is mounted at.
pub open spec fn spec_loose_uri(prefix: Seq<char>, role: Seq<char>) -> Seq<char> {
    prefix + seq!['l', 'o', 'o', 's', 'e', '/'] + role
}

/// Maps the entries of one archive from the `k`-th on, in index order: each
/// needs a size from one byte to the entry limit, a stored range inside the
/// archive and a safe relative path; it is mounted at the prefix followed
/// by its path, with the id `role-k`; an id or URI already mapped is a
/// duplicate, and the plan holds at most the entry limit.
pub open spec fn spec_add_entries(p: MountPlanV, role: Seq<char>, archive_size: u64, es: Seq<IndexEntryV>, k: nat)
    -> Result<MountPlanV, CmvsError>
    decreases es.len() - k,
{
    if k >= es.len() {
        Ok(p)
    } else {
        let e = es[k as int];
        let uri = p.prefix + e.relative_path;
        let id = role + seq!['-'] + decimal_chars(k);
        if e.stored_size == 0 || e.stored_size > MAX_ENTRY_BYTES {
            Err(CmvsError::EntrySize)
        } else if e.offset + e.stored_size > archive_size {
            Err(CmvsError::EntryRange)
        } else if !is_safe_path(e.relative_path) {
            Err(CmvsError::VfsUri)
        } else if planned_ids(p.entries).contains(id) || planned_uris(p.entries).contains(uri) {
            Err(CmvsError::EntryDuplicate)
        } else if p.entries.len() + 1 > MAX_ENTRIES {
            Err(CmvsError::EntryLimit)
        } else {
            let q = MountPlanV {
                entries: p.entries.push(PlannedEntryV { uri, entry_id: id, archive: p.sources.len(), entry: e }),
                ..p
            };
            spec_add_entries(q, role, archive_size, es, k + 1)
        }
    }
}

/// The plan after one more archive with `role`, `archive_size` bytes and
/// the index records `es`.
pub open spec fn spec_add_archive(p: MountPlanV, role: Seq<char>, archive_size: u64, es: Seq<IndexEntryV>)
    -> Result<MountPlanV, CmvsError>
{
    match spec_add_entries(p, role, archive_size, es, 0) {
        Ok(q) => Ok(MountPlanV { sources: q.sources.push(PlannedArchiveV { role, byte_size: archive_size }), ..q }),
        Err(e) => Err(e),
    }
}

/// The plan after one more loose resource with `role` and `byte_size`
/// bytes: the role limit, a size from one byte to the entry limit, a safe
/// URI under `loose/`, and neither a mapped entry at that URI nor another
/// resource with that role.
pub open spec fn spec_add_loose(p: MountPlanV, role: Seq<char>, byte_size: u64) -> Result<MountPlanV, CmvsError> {
    let uri = spec_loose_uri(p.prefix, role);
    if p.loose.len() >= MAX_ARCHIVES {
        Err(CmvsError::LooseLimit)
    } else if byte_size == 0 || byte_size > MAX_ENTRY_BYTES {
        Err(CmvsError::LooseSize)
    } else if !is_safe_path(seq!['l', 'o', 'o', 's', 'e', '/'] + role) {
        Err(CmvsError::VfsUri)
    } else if planned_uris(p.entries).contains(uri) || planned_roles(p.loose).contains(role) {
        Err(CmvsError::LooseDuplicate)
    } else {
        Ok(MountPlanV {
            loose: p.loose.push(PlannedLooseV {
                role,
                uri,
                source_id: seq!['l', 'o', 'o', 's', 'e', '-'] + role,
                byte_size,
            }),
            ..p
        })
    }
}

/// No two mapped entries share a URI or an id, no two loose resources share
/// a role, and no loose resource sits at a mapped entry's URI.
pub open spec fn plan_names_distinct(p: MountPlanV) -> bool {
    &&& planned_uris(p.entries).no_duplicates()
    &&& planned_ids(p.entries).no_duplicates()
    &&& planned_roles(p.loose).no_duplicates()
    &&& forall|i: int| 0 <= i < p.loose.len() ==> !planned_uris(p.entries).contains(#[trigger] p.loose[i].uri)
}

/// A source of the mount's manifest: its id, its archive role, its size,
/// its part count and the SHA-256 of its bytes.
pub struct CmvsManifestSource {
    pub source_id: String,
    pub archive_role: String,
    pub byte_size: u64,
    pub part_count: u32,
    pub source_hash: [u8; 32],
}

/// The abstract content of a manifest source.
pub struct ManifestSourceV {
    pub source_id: Seq<char>,
    pub archive_role: Seq<char>,
    pub byte_size: u64,
    pub part_count: u32,
    pub source_hash: Seq<u8>,
}

impl View for CmvsManifestSource {
    type V = ManifestSourceV;

    open spec fn view(&self) -> ManifestSourceV {
        ManifestSourceV {
            source_id: self.source_id@,
            archive_role: self.archive_role@,
            byte_size: self.byte_size,
            part_count: self.part_count,
            source_hash: self.source_hash@,
        }
    }
}

/// An entry of the mount's manifest: where it is mounted, where its bytes
/// lie, how they are stored and what kind of media they hold.
pub struct CmvsManifestEntry {
    pub uri: String,
    pub entry_id: String,
    pub source_id: String,
    pub source_offset: u64,
    pub stored_size: u64,
    pub decoded_size: u64,
    pub source_hash: [u8; 32],
    pub method: String,
    pub media_kind: String,
}

/// The abstract content of a manifest entry.
pub struct ManifestEntryV {
    pub uri: Seq<char>,
    pub entry_id: Seq<char>,
    pub source_id: Seq<char>,
    pub source_offset: u64,
    pub stored_size: u64,
    pub decoded_size: u64,
    pub source_hash: Seq<u8>,
    pub method: Seq<char>,
    pub media_kind: Seq<char>,
}

impl View for CmvsManifestEntry {
    type V = ManifestEntryV;

    open spec fn view(&self) -> ManifestEntryV {
        ManifestEntryV {
            uri: self.uri@,
            entry_id: self.entry_id@,
            source_id: self.source_id@,
            source_offset: self.source_offset,
            stored_size: self.stored_size,
            decoded_size: self.decoded_size,
            source_hash: self.source_hash@,
            method: self.method@,
            media_kind: self.media_kind@,
        }
    }
}

/// The manifest a mount publishes: its sources, its entries and the reader
/// hash over the sources' hashes.
pub struct CmvsMountManifest {
    pub sources: Vec<CmvsManifestSource>,
    pub entries: Vec<CmvsManifestEntry>,
    pub reader_hash: [u8; 32],
}

/// The abstract content of manifest sources.
pub open spec fn manifest_sources_view(s: Seq<CmvsManifestSource>) -> Seq<ManifestSourceV> {
    s.map_values(|x: CmvsManifestSource| x@)
}

/// The abstract content of manifest entries.
pub open spec fn manifest_entries_view(s: Seq<CmvsManifestEntry>) -> Seq<ManifestEntryV> {
    s.map_values(|x: CmvsManifestEntry| x@)
}

/// The bytes of each hash.
pub open spec fn hashes_view(h: Seq<[u8; 32]>) -> Seq<Seq<u8>> {
    h.map_values(|x: [u8; 32]| x@)
}

/// The manifest source of a taken archive with hash `h`: the role is its
/// id and its archive role.
pub open spec fn archive_source_v(a: PlannedArchiveV, h: Seq<u8>) -> ManifestSourceV {
    ManifestSourceV { source_id: a.role, archive_role: a.role, byte_size: a.byte_size, part_count: 1, source_hash: h }
}

/// The manifest source of a loose resource with hash `h`: `loose-<role>` is
/// its id and its archive role.
pub open spec fn loose_source_v(l: PlannedLooseV, h: Seq<u8>) -> ManifestSourceV {
    ManifestSourceV { source_id: l.source_id, archive_role: l.source_id, byte_size: l.byte_size, part_count: 1, source_hash: h }
}

/// The manifest entry of a mapped index entry: stored encrypted in its
/// archive, decoded to its stored size, classified by its path.
pub open spec fn archive_entry_v(p: MountPlanV, e: PlannedEntryV, hashes: Seq<Seq<u8>>) -> ManifestEntryV {
    ManifestEntryV {
        uri: e.uri,
        entry_id: e.entry_id,
        source_id: p.sources[e.archive as int].role,
        source_offset: e.entry.offset,
        stored_size: e.entry.stored_size,
        decoded_size: e.entry.stored_size,
        source_hash: hashes[e.archive as int],
        method: "cpz5-encrypted"@,
        media_kind: spec_media_kind(e.entry.relative_path)@,
    }
}

/// The manifest entry of a loose resource with hash `h` and media kind
/// `media_kind`: the whole file, stored as it is.
pub open spec fn loose_entry_v(l: PlannedLooseV, h: Seq<u8>, media_kind: Seq<char>) -> ManifestEntryV {
    ManifestEntryV {
        uri: l.uri,
        entry_id: l.source_id,
        source_id: l.source_id,
        source_offset: 0,
        stored_size: l.byte_size,
        decoded_size: l.byte_size,
        source_hash: h,
        method: "loose"@,
        media_kind,
    }
}

/// `o` lists places of `keys`, as many as there are keys, in strictly
/// ascending character order of their keys; for distinct keys there is
/// exactly one such list (`lemma_key_order_unique`).
pub open spec fn is_key_order(keys: Seq<Seq<char>>, o: Seq<int>) -> bool {
    &&& o.len() == keys.len()
    &&& forall|i: int| 0 <= i < o.len() ==> 0 <= #[trigger] o[i] < keys.len()
    &&& forall|i: int, j: int| 0 <= i < j < o.len() ==> name_less(keys[#[trigger] o[i]], keys[#[trigger] o[j]])
}

/// A key order lists every place of its keys.
proof fn lemma_key_order_covers(keys: Seq<Seq<char>>, o: Seq<int>)
    requires
        is_key_order(keys, o),
    ensures
        forall|x: int| 0 <= x < keys.len() ==> #[trigger] o.contains(x),
{
    assert(o.no_duplicates()) by {
        assert forall|i: int, j: int| 0 <= i < o.len() && 0 <= j < o.len() && i != j implies o[i] != o[j] by {
            if o[i] == o[j] {
                lemma_name_less_irreflexive(keys[o[i]]);
                if i < j {
                    assert(name_less(keys[o[i]], keys[o[j]]));
                } else {
                    assert(name_less(keys[o[j]], keys[o[i]]));
                }
            }
        }
    }
    o.unique_seq_to_set();
    vstd::set_lib::lemma_int_range(0, keys.len() as int);
    let range = vstd::set_lib::set_int_range(0, keys.len() as int);
    assert(o.to_set().subset_of(range));
    vstd::set_lib::lemma_len_subset(o.to_set(), range);
    vstd::set_lib::lemma_subset_equality(o.to_set(), range);
    assert forall|x: int| 0 <= x < keys.len() implies #[trigger] o.contains(x) by {
        assert(range.contains(x));
        assert(o.to_set().contains(x));
    }
}

/// Two key orders agree on their first `i` places.
proof fn lemma_key_order_prefix(keys: Seq<Seq<char>>, o1: Seq<int>, o2: Seq<int>, i: int)
    requires
        keys.no_duplicates(),
        is_key_order(keys, o1),
        is_key_order(keys, o2),
        0 <= i <= o1.len(),
    ensures
        forall|k: int| 0 <= k < i ==> #[trigger] o1[k] == o2[k],
    decreases i,
{
    if i > 0 {
        lemma_key_order_prefix(keys, o1, o2, i - 1);
        let c = i - 1;
        if o1[c] != o2[c] {
            lemma_key_order_covers(keys, o1);
            lemma_key_order_covers(keys, o2);
            let a = keys[o1[c]];
            let b = keys[o2[c]];
            assert(a != b);
            lemma_name_less_total(a, b);
            lemma_name_less_irreflexive(a);
            lemma_name_less_irreflexive(b);
            if name_less(a, b) {
                assert(o2.contains(o1[c]));
                let j = choose|j: int| 0 <= j < o2.len() && o2[j] == o1[c];
                if j < c {
                    assert(o1[j] == o2[j]);
                    assert(name_less(keys[o1[j]], keys[o1[c]]));
                } else if j > c {
                    assert(name_less(keys[o2[c]], keys[o2[j]]));
                    lemma_name_less_transitive(a, b, a);
                }
            } else {
                assert(o1.contains(o2[c]));
                let j = choose|j: int| 0 <= j < o1.len() && o1[j] == o2[c];
                if j < c {
                    assert(o1[j] == o2[j]);
                    assert(name_less(keys[o2[j]], keys[o2[c]]));
                } else if j > c {
                    assert(name_less(keys[o1[c]], keys[o1[j]]));
                    lemma_name_less_transitive(b, a, b);
                }
            }
        }
    }
}

/// Distinct keys have one key order only, so the manifest's order by URI
/// and by role is fixed by the plan.
pub proof fn lemma_key_order_unique(keys: Seq<Seq<char>>, o1: Seq<int>, o2: Seq<int>)
    requires
        keys.no_duplicates(),
        is_key_order(keys, o1),
        is_key_order(keys, o2),
    ensures
        o1 == o2,
{
    lemma_key_order_prefix(keys, o1, o2, o1.len() as int);
    assert(o1 =~= o2);
}

/// The sources' hashes one after the other.
pub open spec fn joined_hashes(srcs: Seq<ManifestSourceV>) -> Seq<u8>
    decreases srcs.len(),
{
    if srcs.len() == 0 {
        Seq::empty()
    } else {
        joined_hashes(srcs.drop_last()) + srcs.last().source_hash
    }
}

/// `tags` gives, for each of the sorted `names`, the place in `keys` that
/// holds it; there are as many names as keys.
spec fn tags_index(names: Seq<Seq<char>>, tags: Seq<usize>, keys: Seq<Seq<char>>) -> bool {
    &&& names.len() == keys.len()
    &&& tags.len() == names.len()
    &&& forall|i: int| 0 <= i < names.len() ==> #[trigger] tags[i] < keys.len() && keys[tags[i] as int] == names[i]
}

proof fn lemma_tags_index_insert(names: Seq<Seq<char>>, tags: Seq<usize>, keys: Seq<Seq<char>>, pos: int, k: Seq<char>)
    requires
        tags_index(names, tags, keys),
        0 <= pos <= names.len(),
        keys.len() <= usize::MAX,
    ensures
        tags_index(names.insert(pos, k), tags.insert(pos, keys.len() as usize), keys.push(k)),
{
    let n1 = names.insert(pos, k);
    let t1 = tags.insert(pos, keys.len() as usize);
    let k1 = keys.push(k);
    assert forall|i: int| 0 <= i < n1.len() implies #[trigger] t1[i] < k1.len() && k1[t1[i] as int] == n1[i] by {
        if i < pos {
            assert(t1[i] == tags[i] && n1[i] == names[i]);
        } else if i > pos {
            assert(t1[i] == tags[i - 1] && n1[i] == names[i - 1]);
        }
    }
}

/// The entries and loose resources a mount maps, built one archive and one
/// loose resource at a time, as the mount reads them.
pub struct CmvsMountPlan {
    prefix: String,
    sources: Vec<CmvsPlannedArchive>,
    entries: Vec<CmvsPlannedEntry>,
    loose: Vec<CmvsPlannedLoose>,
    uris: SortedNames,
    ids: SortedNames,
    roles: SortedNames,
}

/// The abstract content of mapped entries.
pub open spec fn planned_entries_view(es: Seq<CmvsPlannedEntry>) -> Seq<PlannedEntryV> {
    es.map_values(|e: CmvsPlannedEntry| e@)
}

/// The abstract content of mapped loose resources.
pub open spec fn planned_loose_view(ls: Seq<CmvsPlannedLoose>) -> Seq<PlannedLooseV> {
    ls.map_values(|l: CmvsPlannedLoose| l@)
}

impl View for CmvsMountPlan {
    type V = MountPlanV;

    closed spec fn view(&self) -> MountPlanV {
        MountPlanV {
            prefix: self.prefix@,
            sources: planned_archives_view(self.sources@),
            entries: planned_entries_view(self.entries@),
            loose: planned_loose_view(self.loose@),
        }
    }
}

impl CmvsMountPlan {
    /// The name sets hold exactly the mapped URIs, ids and roles, and the
    /// counts stay within their limits.
    #[verifier::type_invariant]
    closed spec fn wf(&self) -> bool {
        &&& self.uris.sorted()
        &&& self.ids.sorted()
        &&& self.roles.sorted()
        &&& forall|x: Seq<char>| #[trigger] self.uris.view().contains(x)
                <==> planned_uris(planned_entries_view(self.entries@)).contains(x)
        &&& forall|x: Seq<char>| #[trigger] self.ids.view().contains(x)
                <==> planned_ids(planned_entries_view(self.entries@)).contains(x)
        &&& forall|x: Seq<char>| #[trigger] self.roles.view().contains(x)
                <==> planned_roles(planned_loose_view(self.loose@)).contains(x)
        &&& plan_names_distinct(self@)
        &&& self.entries@.len() <= MAX_ENTRIES
        &&& self.loose@.len() <= MAX_ARCHIVES
        &&& self.sources@.len() <= MAX_ARCHIVES
        &&& tags_index(self.uris.view(), self.uris.tags(), planned_uris(planned_entries_view(self.entries@)))
        &&& tags_index(self.roles.view(), self.roles.tags(), planned_roles(planned_loose_view(self.loose@)))
        &&& forall|i: int| 0 <= i < self.entries@.len() ==> #[trigger] self.entries@[i].archive < self.sources@.len()
    }

    /// Starts a mount plan after the request checks of `check_mount_request`.
    pub fn new(scheme: &CmvsSchemeProfile, prefix: &str, archive_count: usize) -> (r: Result<CmvsMountPlan, CmvsError>)
        ensures
            !spec_scheme_valid(*scheme) ==> r == Err::<CmvsMountPlan, CmvsError>(CmvsError::PrivateScheme),
            spec_scheme_valid(*scheme) && !(prefix@ == spec_mount_prefix() && 0 < archive_count <= MAX_ARCHIVES)
                ==> r == Err::<CmvsMountPlan, CmvsError>(CmvsError::MountArchives),
            r is Ok <==> spec_scheme_valid(*scheme) && prefix@ == spec_mount_prefix() && 0 < archive_count <= MAX_ARCHIVES,
            r matches Ok(p) ==> p@ == (MountPlanV { prefix: prefix@, sources: Seq::empty(), entries: Seq::empty(), loose: Seq::empty() }),
            r matches Ok(p) ==> plan_names_distinct(p@),
    {
        check_mount_request(scheme, prefix, archive_count)?;
        let mut p = String::new();
        push_str(&mut p, prefix);
        assert(p@ =~= prefix@);
        let plan = CmvsMountPlan {
            prefix: p,
            sources: Vec::new(),
            entries: Vec::new(),
            loose: Vec::new(),
            uris: SortedNames::new(),
            ids: SortedNames::new(),
            roles: SortedNames::new(),
        };
        assert(plan@.entries =~= Seq::<PlannedEntryV>::empty());
        assert(plan@.sources =~= Seq::<PlannedArchiveV>::empty());
        assert(planned_uris(plan@.entries) =~= Seq::<Seq<char>>::empty());
        assert(planned_roles(plan@.loose) =~= Seq::<Seq<char>>::empty());
        assert(plan@.loose =~= Seq::<PlannedLooseV>::empty());
        Ok(plan)
    }

    /// Maps the index records of one more archive, with `role` and
    /// `archive_size` bytes, after the archives already taken and before any
    /// loose resource.
    pub fn add_archive(self, role: &str, archive_size: u64, entries: &[Cpz5IndexEntry]) -> (r: Result<CmvsMountPlan, CmvsError>)
        requires
            self@.sources.len() < MAX_ARCHIVES,
            self@.loose.len() == 0,
        ensures
            match r {
                Ok(p) => spec_add_archive(self@, role@, archive_size, crate::cpz::index::entries_view(entries@))
                    == Ok::<MountPlanV, CmvsError>(p@),
                Err(e) => spec_add_archive(self@, role@, archive_size, crate::cpz::index::entries_view(entries@))
                    == Err::<MountPlanV, CmvsError>(e),
            },
            r matches Ok(p) ==> plan_names_distinct(p@),
    {
        proof {
            use_type_invariant(&self);
        }
        let ghost start = self@;
        let ghost es = crate::cpz::index::entries_view(entries@);
        let CmvsMountPlan { prefix, mut sources, entries: mut planned, loose, mut uris, mut ids, roles } = self;
        let mut k: usize = 0;
        while k < entries.len()
            invariant
                k <= entries@.len(),
                es == crate::cpz::index::entries_view(entries@),
                uris.sorted(),
                ids.sorted(),
                planned@.len() <= MAX_ENTRIES,
                forall|x: Seq<char>| #[trigger] uris.view().contains(x)
                    <==> planned_uris(planned_entries_view(planned@)).contains(x),
                forall|x: Seq<char>| #[trigger] ids.view().contains(x)
                    <==> planned_ids(planned_entries_view(planned@)).contains(x),
                spec_add_entries(start, role@, archive_size, es, 0)
                    == spec_add_entries(MountPlanV { entries: planned_entries_view(planned@), ..start }, role@,
                        archive_size, es, k as nat),
                start.prefix == prefix@,
                start.sources == planned_archives_view(sources@),
                sources@.len() < MAX_ARCHIVES,
                tags_index(uris.view(), uris.tags(), planned_uris(planned_entries_view(planned@))),
                forall|i: int| 0 <= i < planned@.len() ==> #[trigger] planned@[i].archive <= sources@.len(),
                start == self@,
                planned_uris(planned_entries_view(planned@)).no_duplicates(),
                planned_ids(planned_entries_view(planned@)).no_duplicates(),
                planned_roles(start.loose).no_duplicates(),
                start.loose.len() == 0,
                start.loose == planned_loose_view(loose@),
            decreases entries@.len() - k,
        {
            let e = &entries[k];
            assert(es[k as int] == e@);
            check_mounted_entry(e.offset, e.stored_size, archive_size)?;
            let path = chars_of(e.relative_path.as_str());
            if !safe_path(&path) {
                return Err(CmvsError::VfsUri);
            }
            let uri = entry_uri(prefix.as_str(), e.relative_path.as_str());
            let id = entry_id(role, k as u64);
            let uri_chars = chars_of(uri.as_str());
            let id_chars = chars_of(id.as_str());
            if ids.contains(&id_chars) || uris.contains(&uri_chars) {
                return Err(CmvsError::EntryDuplicate);
            }
            check_entry_count(planned.len() + 1)?;
            let record = Cpz5IndexEntry {
                relative_path: e.relative_path.clone(),
                offset: e.offset,
                stored_size: e.stored_size,
                checksum: e.checksum,
                key: e.key,
            };
            let ghost before = planned_entries_view(planned@);
            let ghost names0 = uris.view();
            let ghost tags0 = uris.tags();
            let tag = planned.len();
            let item = CmvsPlannedEntry { uri, entry_id: id, archive: sources.len(), entry: record };
            planned.push(item);
            assert(planned_entries_view(planned@) =~= before.push(item@));
            assert(planned_uris(before.push(item@)) =~= planned_uris(before).push(uri_chars@));
            assert(planned_ids(before.push(item@)) =~= planned_ids(before).push(id_chars@));
            let pos = uris.insert(uri_chars, tag);
            ids.insert(id_chars, 0);
            proof {
                lemma_tags_index_insert(names0, tags0, planned_uris(before), pos as int, uri@);
            }
            assert forall|x: Seq<char>| #[trigger] uris.view().contains(x)
                <==> planned_uris(planned_entries_view(planned@)).contains(x) by {
                let o = planned_uris(before);
                if x == uri@ {
                    assert(o.push(uri@)[o.len() as int] == x);
                } else if o.push(uri@).contains(x) {
                    let i = choose|i: int| 0 <= i < o.len() + 1 && o.push(uri@)[i] == x;
                    assert(o[i] == x);
                } else if o.contains(x) {
                    let i = choose|i: int| 0 <= i < o.len() && o[i] == x;
                    assert(o.push(uri@)[i] == x);
                }
            }
            assert forall|x: Seq<char>| #[trigger] ids.view().contains(x)
                <==> planned_ids(planned_entries_view(planned@)).contains(x) by {
                let o = planned_ids(before);
                if x == id@ {
                    assert(o.push(id@)[o.len() as int] == x);
                } else if o.push(id@).contains(x) {
                    let i = choose|i: int| 0 <= i < o.len() + 1 && o.push(id@)[i] == x;
                    assert(o[i] == x);
                } else if o.contains(x) {
                    let i = choose|i: int| 0 <= i < o.len() && o[i] == x;
                    assert(o.push(id@)[i] == x);
                }
            }
            k = k + 1;
        }
        let mut role_string = String::new();
        push_str(&mut role_string, role);
        let ghost sources0 = planned_archives_view(sources@);
        sources.push(CmvsPlannedArchive { role: role_string, byte_size: archive_size });
        assert(planned_archives_view(sources@) =~= sources0.push(PlannedArchiveV { role: role@, byte_size: archive_size }));
        let plan = CmvsMountPlan { prefix, sources, entries: planned, loose, uris, ids, roles };
        Ok(plan)
    }

    /// Maps one more loose resource with `role` and `byte_size` bytes.
    pub fn add_loose(self, role: &str, byte_size: u64) -> (r: Result<CmvsMountPlan, CmvsError>)
        ensures
            match r {
                Ok(p) => spec_add_loose(self@, role@, byte_size) == Ok::<MountPlanV, CmvsError>(p@),
                Err(e) => spec_add_loose(self@, role@, byte_size) == Err::<MountPlanV, CmvsError>(e),
            },
            r matches Ok(p) ==> plan_names_distinct(p@),
    {
        proof {
            use_type_invariant(&self);
        }
        let ghost start = self@;
        let CmvsMountPlan { prefix, sources, entries, mut loose, uris, ids, mut roles } = self;
        check_loose_source(loose.len(), byte_size)?;
        let uri = loose_uri(prefix.as_str(), role);
        let mut tail: Vec<char> = vec!['l', 'o', 'o', 's', 'e', '/'];
        let role_chars = chars_of(role);
        let mut i: usize = 0;
        while i < role_chars.len()
            invariant
                i <= role_chars@.len(),
                tail@ == seq!['l', 'o', 'o', 's', 'e', '/'] + role_chars@.subrange(0, i as int),
            decreases role_chars@.len() - i,
        {
            tail.push(role_chars[i]);
            i = i + 1;
            assert(tail@ =~= seq!['l', 'o', 'o', 's', 'e', '/'] + role_chars@.subrange(0, i as int));
        }
        assert(role_chars@.subrange(0, role_chars@.len() as int) =~= role@);
        if !safe_path(&tail) {
            return Err(CmvsError::VfsUri);
        }
        let uri_chars = chars_of(uri.as_str());
        if uris.contains(&uri_chars) || roles.contains(&role_chars) {
            return Err(CmvsError::LooseDuplicate);
        }
        let mut role_string = String::new();
        push_str(&mut role_string, role);
        assert(role_string@ =~= role@);
        let item = CmvsPlannedLoose { role: role_string, uri, source_id: loose_id(role), byte_size };
        let ghost before = planned_loose_view(loose@);
        let ghost names0 = roles.view();
        let ghost tags0 = roles.tags();
        let tag = loose.len();
        loose.push(item);
        assert(planned_loose_view(loose@) =~= before.push(item@));
        assert(planned_roles(before.push(item@)) =~= planned_roles(before).push(role@));
        let pos = roles.insert(role_chars, tag);
        proof {
            lemma_tags_index_insert(names0, tags0, planned_roles(before), pos as int, role@);
        }
        assert forall|x: Seq<char>| #[trigger] roles.view().contains(x)
            <==> planned_roles(planned_loose_view(loose@)).contains(x) by {
            let o = planned_roles(before);
            if x == role@ {
                assert(o.push(role@)[o.len() as int] == x);
            } else if o.push(role@).contains(x) {
                let i = choose|i: int| 0 <= i < o.len() + 1 && o.push(role@)[i] == x;
                assert(o[i] == x);
            } else if o.contains(x) {
                let i = choose|i: int| 0 <= i < o.len() && o[i] == x;
                assert(o.push(role@)[i] == x);
            }
        }
        let plan = CmvsMountPlan { prefix, sources, entries, loose, uris, ids, roles };
        assert(plan@ =~= (MountPlanV { loose: start.loose.push(item@), ..start }));
        Ok(plan)
    }

    /// The manifest of the mount, given the SHA-256 of each taken archive in
    /// the order taken, and the SHA-256 and media kind of each loose resource
    /// in the order added. Its sources are the archives in order, then the
    /// loose resources by role; its entries are the mapped index entries by
    /// URI, then the loose resources by role; its reader hash is the SHA-256
    /// of all source hashes in source order.
    pub fn manifest(&self, archive_hashes: &[[u8; 32]], loose_hashes: &[[u8; 32]], loose_media_kinds: &[&str])
        -> (r: CmvsMountManifest)
        requires
            archive_hashes@.len() == self@.sources.len(),
            loose_hashes@.len() == self@.loose.len(),
            loose_media_kinds@.len() == self@.loose.len(),
        ensures
            ({
                let p = self@;
                let srcs = manifest_sources_view(r.sources@);
                let ents = manifest_entries_view(r.entries@);
                let a = p.sources.len();
                let n = p.entries.len();
                &&& srcs.len() == a + p.loose.len()
                &&& ents.len() == n + p.loose.len()
                &&& forall|i: int| 0 <= i < a ==> #[trigger] srcs[i] == archive_source_v(p.sources[i], archive_hashes@[i]@)
                &&& exists|o: Seq<int>| #[trigger] is_key_order(planned_uris(p.entries), o)
                    && forall|i: int| #![trigger o[i]] 0 <= i < n
                        ==> ents[i] == archive_entry_v(p, p.entries[o[i]], hashes_view(archive_hashes@))
                &&& exists|o: Seq<int>| #[trigger] is_key_order(planned_roles(p.loose), o)
                    && forall|j: int| #![trigger o[j]] 0 <= j < p.loose.len()
                        ==> srcs[a + j] == loose_source_v(p.loose[o[j]], loose_hashes@[o[j]]@)
                        && ents[n + j] == loose_entry_v(p.loose[o[j]], loose_hashes@[o[j]]@, loose_media_kinds@[o[j]]@)
                &&& r.reader_hash@ == sha256_digest(joined_hashes(srcs))
            }),
    {
        proof {
            use_type_invariant(self);
            self.uris.lemma_ascending();
            self.roles.lemma_ascending();
        }
        let ghost p = self@;
        let ghost a = p.sources.len();
        let ghost n = p.entries.len();
        let ghost m = p.loose.len();
        let ghost uo = self.uris.tags();
        let ghost ro = self.roles.tags();
        let mut sources: Vec<CmvsManifestSource> = Vec::new();
        let mut i: usize = 0;
        while i < self.sources.len()
            invariant
                p == self@,
                i <= self.sources@.len(),
                archive_hashes@.len() == self.sources@.len(),
                manifest_sources_view(sources@).len() == i,
                forall|k: int| 0 <= k < i ==> #[trigger] manifest_sources_view(sources@)[k]
                    == archive_source_v(p.sources[k], archive_hashes@[k]@),
            decreases self.sources@.len() - i,
        {
            let s0 = &self.sources[i];
            let ghost before = manifest_sources_view(sources@);
            let item = CmvsManifestSource {
                source_id: s0.role.clone(),
                archive_role: s0.role.clone(),
                byte_size: s0.byte_size,
                part_count: 1,
                source_hash: archive_hashes[i],
            };
            sources.push(item);
            assert(manifest_sources_view(sources@) =~= before.push(item@));
            i = i + 1;
        }
        let count = self.roles.len();
        assert(planned_roles(p.loose).len() == self.loose@.len());
        assert(planned_uris(p.entries).len() == self.entries@.len());
        let mut j: usize = 0;
        while j < count
            invariant
                p == self@,
                count == m,
                count == self.roles.view().len(),
                planned_roles(p.loose).len() == self.loose@.len(),
                p.loose.len() == self.loose@.len(),
                self.roles.sorted(),
                ro == self.roles.tags(),
                tags_index(self.roles.view(), ro, planned_roles(p.loose)),
                loose_hashes@.len() == m,
                j <= count,
                manifest_sources_view(sources@).len() == a + j,
                forall|k: int| 0 <= k < a ==> #[trigger] manifest_sources_view(sources@)[k]
                    == archive_source_v(p.sources[k], archive_hashes@[k]@),
                forall|k: int| 0 <= k < j ==> #[trigger] manifest_sources_view(sources@)[a + k]
                    == loose_source_v(p.loose[ro[k] as int], loose_hashes@[ro[k] as int]@),
            decreases count - j,
        {
            let t = self.roles.tag(j);
            let l = &self.loose[t];
            let ghost before = manifest_sources_view(sources@);
            let item = CmvsManifestSource {
                source_id: l.source_id.clone(),
                archive_role: l.source_id.clone(),
                byte_size: l.byte_size,
                part_count: 1,
                source_hash: loose_hashes[t],
            };
            sources.push(item);
            assert(manifest_sources_view(sources@) =~= before.push(item@));
            j = j + 1;
        }
        let mut entries: Vec<CmvsManifestEntry> = Vec::new();
        let total = self.uris.len();
        let mut k: usize = 0;
        while k < total
            invariant
                p == self@,
                total == n,
                total == self.uris.view().len(),
                planned_uris(p.entries).len() == self.entries@.len(),
                p.entries.len() == self.entries@.len(),
                self.uris.sorted(),
                uo == self.uris.tags(),
                tags_index(self.uris.view(), uo, planned_uris(p.entries)),
                forall|q: int| 0 <= q < self.entries@.len() ==> #[trigger] self.entries@[q].archive < self.sources@.len(),
                archive_hashes@.len() == self.sources@.len(),
                k <= total,
                manifest_entries_view(entries@).len() == k,
                forall|q: int| 0 <= q < k ==> #[trigger] manifest_entries_view(entries@)[q]
                    == archive_entry_v(p, p.entries[uo[q] as int], hashes_view(archive_hashes@)),
            decreases total - k,
        {
            let t = self.uris.tag(k);
            let e = &self.entries[t];
            assert(p.entries[t as int] == e@);
            let ghost before = manifest_entries_view(entries@);
            let item = CmvsManifestEntry {
                uri: e.uri.clone(),
                entry_id: e.entry_id.clone(),
                source_id: self.sources[e.archive].role.clone(),
                source_offset: e.entry.offset,
                stored_size: e.entry.stored_size,
                decoded_size: e.entry.stored_size,
                source_hash: archive_hashes[e.archive],
                method: owned("cpz5-encrypted"),
                media_kind: owned(media_kind(e.entry.relative_path.as_str())),
            };
            assert(hashes_view(archive_hashes@)[e.archive as int] == archive_hashes@[e.archive as int]@);
            entries.push(item);
            assert(manifest_entries_view(entries@) =~= before.push(item@));
            k = k + 1;
        }
        let mut j2: usize = 0;
        while j2 < count
            invariant
                p == self@,
                count == m,
                count == self.roles.view().len(),
                planned_roles(p.loose).len() == self.loose@.len(),
                p.loose.len() == self.loose@.len(),
                self.roles.sorted(),
                ro == self.roles.tags(),
                tags_index(self.roles.view(), ro, planned_roles(p.loose)),
                loose_hashes@.len() == m,
                loose_media_kinds@.len() == m,
                j2 <= count,
                manifest_entries_view(entries@).len() == n + j2,
                forall|q: int| 0 <= q < n ==> #[trigger] manifest_entries_view(entries@)[q]
                    == archive_entry_v(p, p.entries[uo[q] as int], hashes_view(archive_hashes@)),
                forall|q: int| 0 <= q < j2 ==> #[trigger] manifest_entries_view(entries@)[n + q]
                    == loose_entry_v(p.loose[ro[q] as int], loose_hashes@[ro[q] as int]@, loose_media_kinds@[ro[q] as int]@),
            decreases count - j2,
        {
            let t = self.roles.tag(j2);
            let l = &self.loose[t];
            let ghost before = manifest_entries_view(entries@);
            let item = CmvsManifestEntry {
                uri: l.uri.clone(),
                entry_id: l.source_id.clone(),
                source_id: l.source_id.clone(),
                source_offset: 0,
                stored_size: l.byte_size,
                decoded_size: l.byte_size,
                source_hash: loose_hashes[t],
                method: owned("loose"),
                media_kind: owned(loose_media_kinds[t]),
            };
            entries.push(item);
            assert(manifest_entries_view(entries@) =~= before.push(item@));
            j2 = j2 + 1;
        }
        let mut joined: Vec<u8> = Vec::new();
        let mut h: usize = 0;
        while h < sources.len()
            invariant
                h <= sources@.len(),
                joined@ == joined_hashes(manifest_sources_view(sources@).subrange(0, h as int)),
            decreases sources@.len() - h,
        {
            let ghost srcs = manifest_sources_view(sources@);
            let hash = sources[h].source_hash;
            let ghost prefix = joined@;
            let mut b: usize = 0;
            while b < 32
                invariant
                    b <= 32,
                    joined@ == prefix + hash@.subrange(0, b as int),
                decreases 32 - b,
            {
                joined.push(hash[b]);
                b = b + 1;
                assert(joined@ =~= prefix + hash@.subrange(0, b as int));
            }
            assert(srcs.subrange(0, h + 1).drop_last() =~= srcs.subrange(0, h as int));
            assert(srcs.subrange(0, h + 1).last() == srcs[h as int]);
            assert(hash@.subrange(0, 32) =~= hash@);
            h = h + 1;
        }
        assert(manifest_sources_view(sources@).subrange(0, sources@.len() as int) =~= manifest_sources_view(sources@));
        let reader_hash = sha256(joined.as_slice());
        proof {
            let uw = uo.map_values(|t: usize| t as int);
            assert(is_key_order(planned_uris(p.entries), uw)) by {
                assert forall|x: int, y: int| 0 <= x < y < uw.len()
                    implies name_less(planned_uris(p.entries)[#[trigger] uw[x]], planned_uris(p.entries)[#[trigger] uw[y]]) by {
                    assert(self.uris.view()[x] == planned_uris(p.entries)[uw[x]]);
                    assert(self.uris.view()[y] == planned_uris(p.entries)[uw[y]]);
                }
            }
            let rw = ro.map_values(|t: usize| t as int);
            assert(is_key_order(planned_roles(p.loose), rw)) by {
                assert forall|x: int, y: int| 0 <= x < y < rw.len()
                    implies name_less(planned_roles(p.loose)[#[trigger] rw[x]], planned_roles(p.loose)[#[trigger] rw[y]]) by {
                    assert(self.roles.view()[x] == planned_roles(p.loose)[rw[x]]);
                    assert(self.roles.view()[y] == planned_roles(p.loose)[rw[y]]);
                }
            }
        }
        CmvsMountManifest { sources, entries, reader_hash }
    }

    /// The mapped entries and loose resources, in the order they were added.
    pub fn into_parts(self) -> (r: (Vec<CmvsPlannedEntry>, Vec<CmvsPlannedLoose>))
        ensures
            planned_entries_view(r.0@) == self@.entries,
            planned_loose_view(r.1@) == self@.loose,
    {
        let CmvsMountPlan { entries, loose, .. } = self;
        (entries, loose)
    }
}

} // verus!
