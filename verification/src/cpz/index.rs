//! The CPZ5 index reader and entry decryptor.
use vstd::prelude::*;
use crate::error::CmvsError;
use crate::bytes::{read_le_u32, read_le_u64, spec_le_u32, spec_le_u64};
use crate::cmvs_md5::{spec_cmvs_md5, compute};
use crate::scheme::CmvsSchemeProfile;
use super::{CmvsCpzHeader, CpzHeaderV, CmvsCpzVersion, spec_verify_index_identity};
use super::crypt::{Cpz5Scheme, Cpz5Decoder, stage1_bytes, directory_bytes, entries_bytes, decode_bytes,
    decoder_table, spec_index_key, index_key, entry_bytes};
use super::names::{spec_decode_cp932_cstring, decode_cp932_cstring, spec_canonical_cmvs_path, canonical_cmvs_path};

verus! {

/// One decoded CPZ5 index entry.
#[derive(Debug, Clone, PartialEq, Eq)]
pub struct Cpz5IndexEntry {
    pub relative_path: String,
    pub offset: u64,
    pub stored_size: u64,
    pub checksum: u32,
    pub key: u32,
}

/// The abstract content of an index entry.
pub struct IndexEntryV {
    pub relative_path: Seq<char>,
    pub offset: u64,
    pub stored_size: u64,
    pub checksum: u32,
    pub key: u32,
}

impl View for Cpz5IndexEntry {
    type V = IndexEntryV;

    open spec fn view(&self) -> IndexEntryV {
        IndexEntryV {
            relative_path: self.relative_path@,
            offset: self.offset,
            stored_size: self.stored_size,
            checksum: self.checksum,
            key: self.key,
        }
    }
}

pub open spec fn entries_view(s: Seq<Cpz5IndexEntry>) -> Seq<IndexEntryV> {
    Seq::new(s.len(), |i: int| s[i]@)
}

/// A little-endian word of the decrypted index.
pub open spec fn spec_index_u32(index: Seq<u8>, off: int) -> Result<u32, CmvsError> {
    if 0 <= off && off + 4 <= index.len() { Ok(spec_le_u32(index, off)) } else { Err(CmvsError::CpzIndexRange) }
}

/// A little-endian double word of the decrypted index.
pub open spec fn spec_index_u64(index: Seq<u8>, off: int) -> Result<u64, CmvsError> {
    if 0 <= off && off + 8 <= index.len() { Ok(spec_le_u64(index, off)) } else { Err(CmvsError::CpzIndexRange) }
}

fn index_u32(index: &Vec<u8>, off: usize) -> (r: Result<u32, CmvsError>)
    ensures
        r == spec_index_u32(index@, off as int),
{
    match read_le_u32(index.as_slice(), off) {
        Some(v) => Ok(v),
        None => Err(CmvsError::CpzIndexRange),
    }
}

fn index_u64(index: &Vec<u8>, off: usize) -> (r: Result<u64, CmvsError>)
    ensures
        r == spec_index_u64(index@, off as int),
{
    match read_le_u64(index.as_slice(), off) {
        Some(v) => Ok(v),
        None => Err(CmvsError::CpzIndexRange),
    }
}

fn index_u32_at(index: &Vec<u8>, base: usize, delta: usize) -> (r: Result<u32, CmvsError>)
    ensures
        r == spec_index_u32(index@, base + delta),
{
    let _len = index.len();
    if base > usize::MAX - delta {
        return Err(CmvsError::CpzIndexRange);
    }
    index_u32(index, base + delta)
}

fn index_u64_at(index: &Vec<u8>, base: usize, delta: usize) -> (r: Result<u64, CmvsError>)
    ensures
        r == spec_index_u64(index@, base + delta),
{
    let _len = index.len();
    if base > usize::MAX - delta {
        return Err(CmvsError::CpzIndexRange);
    }
    index_u64(index, base + delta)
}

/// What the directory and entry records of one index share.
pub struct IndexContextV {
    pub directory_count: u32,
    pub directory_bytes: int,
    pub file_bytes: int,
    pub table: Seq<u8>,
    pub md5: Seq<u32>,
    pub addend: Seq<u32>,
    pub index_seed: u32,
    pub base: int,
    pub name_offset: u32,
}

/// The entry record at `eo`, which must end by `entries_end`, with its
/// byte size.
pub open spec fn spec_entry_record(index: Seq<u8>, eo: int, entries_end: int, dir_name: Seq<char>, dir_key: u32,
    ctx: IndexContextV) -> Result<(IndexEntryV, int), CmvsError>
{
    match spec_index_u32(index, eo) {
        Err(e) => Err(e),
        Ok(es) => if es <= ctx.name_offset || eo + es > entries_end {
            Err(CmvsError::CpzEntry)
        } else {
            match spec_decode_cp932_cstring(index.subrange(eo + ctx.name_offset, eo + es)) {
                Err(e) => Err(e),
                Ok(name) => match spec_canonical_cmvs_path(dir_name, name) {
                    Err(e) => Err(e),
                    Ok(path) => match spec_index_u64(index, eo + 4) {
                        Err(e) => Err(e),
                        Ok(stored_offset) => match spec_index_u32(index, eo + 0x0c) {
                            Err(e) => Err(e),
                            Ok(stored_size) => match spec_index_u32(index, eo + 0x10) {
                                Err(e) => Err(e),
                                Ok(checksum) => match spec_index_u32(index, eo + 0x14) {
                                    Err(e) => Err(e),
                                    Ok(key) => if ctx.base + stored_offset > u64::MAX {
                                        Err(CmvsError::CpzEntry)
                                    } else {
                                        Ok((IndexEntryV {
                                            relative_path: path,
                                            offset: (ctx.base + stored_offset) as u64,
                                            stored_size: stored_size as u64,
                                            checksum,
                                            key: key.wrapping_add(dir_key),
                                        }, es as int))
                                    },
                                },
                            },
                        },
                    },
                },
            }
        },
    }
}

/// The `remaining` entry records from `eo` on, after `acc`, with the
/// offset after the last one.
pub open spec fn spec_entry_records(index: Seq<u8>, eo: int, remaining: nat, entries_end: int, dir_name: Seq<char>,
    dir_key: u32, ctx: IndexContextV, acc: Seq<IndexEntryV>) -> Result<(Seq<IndexEntryV>, int), CmvsError>
    decreases remaining,
{
    if remaining == 0 {
        Ok((acc, eo))
    } else {
        match spec_entry_record(index, eo, entries_end, dir_name, dir_key, ctx) {
            Err(e) => Err(e),
            Ok((entry, es)) => spec_entry_records(index, eo + es, (remaining - 1) as nat, entries_end, dir_name, dir_key,
                ctx, acc.push(entry)),
        }
    }
}

/// The entry-table key of a directory.
pub open spec fn directory_entries_key(m: Seq<u32>, dir_key: u32, addend: Seq<u32>) -> Seq<u32> {
    seq![m[0] ^ dir_key.wrapping_add(addend[0]), m[1] ^ dir_key.wrapping_add(addend[1]),
        m[2] ^ dir_key.wrapping_add(addend[2]), m[3] ^ dir_key.wrapping_add(addend[3])]
}

/// `index` with its bytes `[start, end)` run through the entry-table
/// substitution and transform under `key`.
pub open spec fn with_entries_decrypted(index: Seq<u8>, start: int, end: int, ctx: IndexContextV, key: Seq<u32>) -> Seq<u8> {
    index.subrange(0, start)
        + entries_bytes(ctx.index_seed, key, 0, decode_bytes(ctx.table, 0x7e, index.subrange(start, end)))
        + index.subrange(end, index.len() as int)
}

/// The end of the entry table of directory `di`, whose record spans
/// `[dir_off, dir_off + ds)`: the file table's size for the last directory,
/// else the next record's entry offset.
pub open spec fn spec_next_entries_offset(index: Seq<u8>, dir_off: int, ds: int, di: int, ctx: IndexContextV) -> Result<int, CmvsError> {
    if di + 1 == ctx.directory_count {
        Ok(ctx.file_bytes)
    } else if dir_off + ds + 8 > usize::MAX {
        Err(CmvsError::CpzDirectory)
    } else {
        match spec_index_u32(index, dir_off + ds + 8) {
            Err(e) => Err(e),
            Ok(v) => Ok(v as int),
        }
    }
}

/// The directory record `di` at `dir_off`: the index after its entry table
/// is decrypted, the next record's offset and its entries.
#[verifier::opaque]
pub open spec fn spec_directory_record(index: Seq<u8>, dir_off: int, di: int, ctx: IndexContextV)
    -> Result<(Seq<u8>, int, Seq<IndexEntryV>), CmvsError>
{
    match spec_index_u32(index, dir_off) {
        Err(e) => Err(e),
        Ok(ds) => if ds <= 0x10 || dir_off + ds > ctx.directory_bytes {
            Err(CmvsError::CpzDirectory)
        } else {
            match spec_index_u32(index, dir_off + 4) {
                Err(e) => Err(e),
                Ok(fc) => if fc > 0xffff {
                    Err(CmvsError::CpzDirectory)
                } else {
                    match spec_index_u32(index, dir_off + 8) {
                        Err(e) => Err(e),
                        Ok(eoff) => match spec_index_u32(index, dir_off + 0x0c) {
                            Err(e) => Err(e),
                            Ok(dkey) => match spec_decode_cp932_cstring(index.subrange(dir_off + 0x10, dir_off + ds)) {
                                Err(e) => Err(e),
                                Ok(dname) => match spec_next_entries_offset(index, dir_off, ds as int, di, ctx) {
                                    Err(e) => Err(e),
                                    Ok(next) => if next < eoff || next == eoff || next > ctx.file_bytes {
                                        Err(CmvsError::CpzDirectory)
                                    } else if ctx.directory_bytes + next > index.len() {
                                        Err(CmvsError::CpzDirectory)
                                    } else {
                                        let start = ctx.directory_bytes + eoff;
                                        let end = ctx.directory_bytes + next;
                                        let key = directory_entries_key(ctx.md5, dkey, ctx.addend);
                                        let ni = with_entries_decrypted(index, start, end, ctx, key);
                                        match spec_entry_records(ni, start, fc as nat, end, dname, dkey, ctx, Seq::empty()) {
                                            Err(e) => Err(e),
                                            Ok((es, eo)) => if eo != end {
                                                Err(CmvsError::CpzEntry)
                                            } else {
                                                Ok((ni, dir_off + ds, es))
                                            },
                                        }
                                    },
                                },
                            },
                        },
                    }
                },
            }
        },
    }
}

/// The directory records from `di` on, after `acc`, with the offset after
/// the last one.
pub open spec fn spec_directory_records(index: Seq<u8>, dir_off: int, di: nat, ctx: IndexContextV, acc: Seq<IndexEntryV>)
    -> Result<(Seq<IndexEntryV>, int), CmvsError>
    decreases ctx.directory_count - di,
{
    if di >= ctx.directory_count {
        Ok((acc, dir_off))
    } else {
        match spec_directory_record(index, dir_off, di as int, ctx) {
            Err(e) => Err(e),
            Ok((ni, nd, es)) => spec_directory_records(ni, nd, di + 1, ctx, acc + es),
        }
    }
}

proof fn lemma_entries_view_push(s: Seq<Cpz5IndexEntry>, e: Cpz5IndexEntry)
    ensures
        entries_view(s.push(e)) == entries_view(s).push(e@),
{
    assert(entries_view(s.push(e)) =~= entries_view(s).push(e@));
}

/// The exec-side values of an index context.
pub open spec fn context_of(directory_count: u32, d: usize, f: usize, decoder: Cpz5Decoder, md5: [u32; 4],
    scheme: Cpz5Scheme, base: u64, name_offset: u32) -> IndexContextV
{
    IndexContextV {
        directory_count,
        directory_bytes: d as int,
        file_bytes: f as int,
        table: decoder.table@,
        md5: md5@,
        addend: scheme.directory_key_addend@,
        index_seed: scheme.index_seed,
        base: base as int,
        name_offset,
    }
}

/// Reads the entry record at `eo`.
fn entry_record(index: &Vec<u8>, eo: usize, entries_end: usize, dir_name: &String, dir_key: u32,
    base: u64, name_offset: u32, ghost_ctx: Ghost<IndexContextV>) -> (r: Result<(Cpz5IndexEntry, usize), CmvsError>)
    requires
        entries_end <= index@.len(),
        ghost_ctx@.base == base,
        ghost_ctx@.name_offset == name_offset,
    ensures
        match r {
            Ok((e, es)) => spec_entry_record(index@, eo as int, entries_end as int, dir_name@, dir_key, ghost_ctx@)
                == Ok::<(IndexEntryV, int), CmvsError>((e@, es as int)) && eo + es <= entries_end && es > 0,
            Err(e) => spec_entry_record(index@, eo as int, entries_end as int, dir_name@, dir_key, ghost_ctx@)
                == Err::<(IndexEntryV, int), CmvsError>(e),
        },
{
    let es = index_u32(index, eo)? as usize;
    let minimum = name_offset as usize;
    if es <= minimum || eo > entries_end || entries_end - eo < es {
        return Err(CmvsError::CpzEntry);
    }
    let name_start = eo + minimum;
    let raw = vstd::slice::slice_subrange(index.as_slice(), name_start, eo + es);
    let name = decode_cp932_cstring(raw, "entry name")?;
    let relative_path = canonical_cmvs_path(dir_name.as_str(), name.as_str())?;
    let stored_offset = index_u64_at(index, eo, 4)?;
    let stored_size = index_u32_at(index, eo, 0x0c)? as u64;
    let checksum = index_u32_at(index, eo, 0x10)?;
    let key = index_u32_at(index, eo, 0x14)?.wrapping_add(dir_key);
    if base > u64::MAX - stored_offset {
        return Err(CmvsError::CpzEntry);
    }
    let offset = base + stored_offset;
    Ok((Cpz5IndexEntry { relative_path, offset, stored_size, checksum, key }, es))
}

/// Reads `file_count` entry records from `start`, appending them to
/// `entries`; returns the offset after the last one.
fn entry_records(index: &Vec<u8>, start: usize, file_count: usize, end: usize, dir_name: &String, dir_key: u32,
    base: u64, name_offset: u32, ghost_ctx: Ghost<IndexContextV>, entries: &mut Vec<Cpz5IndexEntry>) -> (r: Result<usize, CmvsError>)
    requires
        start <= end <= index@.len(),
        ghost_ctx@.base == base,
        ghost_ctx@.name_offset == name_offset,
    ensures
        match r {
            Ok(eo) => match spec_entry_records(index@, start as int, file_count as nat, end as int, dir_name@, dir_key,
                ghost_ctx@, Seq::empty()) {
                Ok((es, e2)) => e2 == eo && entries_view(final(entries)@) == entries_view(old(entries)@) + es,
                Err(_) => false,
            },
            Err(e) => spec_entry_records(index@, start as int, file_count as nat, end as int, dir_name@, dir_key,
                ghost_ctx@, Seq::empty()) == Err::<(Seq<IndexEntryV>, int), CmvsError>(e),
        },
{
    let ghost ctx = ghost_ctx@;
    let ghost old_view = entries_view(entries@);
    let ghost mut acc: Seq<IndexEntryV> = Seq::empty();
    let mut eo = start;
    let mut k: usize = 0;
    while k < file_count
        invariant
            k <= file_count,
            start <= eo <= end,
            end <= index@.len(),
            ctx == ghost_ctx@,
            ctx.base == base,
            ctx.name_offset == name_offset,
            entries_view(entries@) == old_view + acc,
            spec_entry_records(index@, start as int, file_count as nat, end as int, dir_name@, dir_key, ctx, Seq::empty())
                == spec_entry_records(index@, eo as int, (file_count - k) as nat, end as int, dir_name@, dir_key, ctx, acc),
        decreases file_count - k,
    {
        let (entry, es) = entry_record(index, eo, end, dir_name, dir_key, base, name_offset, Ghost(ctx))?;
        proof {
            lemma_entries_view_push(entries@, entry);
            assert(old_view + acc.push(entry@) =~= (old_view + acc).push(entry@));
        }
        entries.push(entry);
        proof { acc = acc.push(entry@); }
        eo = eo + es;
        k = k + 1;
    }
    assert(acc == entries_view(entries@).subrange(old_view.len() as int, entries_view(entries@).len() as int)) by {
        assert(entries_view(entries@).subrange(old_view.len() as int, entries_view(entries@).len() as int) =~= acc);
    }
    Ok(eo)
}

/// Runs the entry-table substitution and transform over `[start, end)` of
/// the index.
fn decrypt_entries_region(index: &mut Vec<u8>, start: usize, end: usize, decoder: &Cpz5Decoder, scheme: &Cpz5Scheme,
    key: [u32; 4], ghost_ctx: Ghost<IndexContextV>)
    requires
        start <= end <= old(index)@.len(),
        ghost_ctx@.table == decoder.table@,
        ghost_ctx@.index_seed == scheme.index_seed,
    ensures
        final(index)@ == with_entries_decrypted(old(index)@, start as int, end as int, ghost_ctx@, key@),
{
    let ghost old_index = index@;
    let mut region = vstd::slice::slice_to_vec(vstd::slice::slice_subrange(index.as_slice(), start, end));
    decoder.decode(region.as_mut_slice(), 0x7e);
    scheme.decrypt_entries(region.as_mut_slice(), key, 0);
    let n = region.len();
    let mut i: usize = 0;
    while i < n
        invariant
            i <= n,
            n == region@.len(),
            n == end - start,
            end <= old_index.len(),
            index@.len() == old_index.len(),
            forall|j: int| 0 <= j < start ==> index@[j] == old_index[j],
            forall|j: int| end <= j < old_index.len() ==> index@[j] == old_index[j],
            forall|j: int| 0 <= j < i ==> index@[start + j] == region@[j],
        decreases n - i,
    {
        index.set(start + i, region[i]);
        i = i + 1;
    }
    assert(index@ =~= with_entries_decrypted(old_index, start as int, end as int, ghost_ctx@, key@));
}

/// Reads directory record `di` at `dir_off`: decrypts its entry table in
/// place and appends its entries; returns the next record's offset.
#[verifier::rlimit(30)]
fn directory_record(index: &mut Vec<u8>, dir_off: usize, di: u32, directory_count: u32, d: usize, f: usize,
    decoder: &Cpz5Decoder, md5: [u32; 4], scheme: &Cpz5Scheme, base: u64, name_offset: u32,
    entries: &mut Vec<Cpz5IndexEntry>) -> (r: Result<usize, CmvsError>)
    requires
        d <= old(index)@.len(),
    ensures
        final(index)@.len() == old(index)@.len(),
        match r {
            Ok(nd) => match spec_directory_record(old(index)@, dir_off as int, di as int,
                context_of(directory_count, d, f, *decoder, md5, *scheme, base, name_offset)) {
                Ok((ni, nd2, es)) => final(index)@ == ni && nd == nd2
                    && entries_view(final(entries)@) == entries_view(old(entries)@) + es,
                Err(_) => false,
            },
            Err(e) => spec_directory_record(old(index)@, dir_off as int, di as int,
                context_of(directory_count, d, f, *decoder, md5, *scheme, base, name_offset))
                == Err::<(Seq<u8>, int, Seq<IndexEntryV>), CmvsError>(e),
        },
{
    let ghost ctx = context_of(directory_count, d, f, *decoder, md5, *scheme, base, name_offset);
    reveal(spec_directory_record);
    let ds = index_u32(index, dir_off)? as usize;
    if ds <= 0x10 || dir_off > d || d - dir_off < ds {
        return Err(CmvsError::CpzDirectory);
    }
    let fc = index_u32_at(index, dir_off, 4)?;
    if fc > 0xffff {
        return Err(CmvsError::CpzDirectory);
    }
    let eoff = index_u32_at(index, dir_off, 8)? as usize;
    let dkey = index_u32_at(index, dir_off, 0x0c)?;
    let raw = vstd::slice::slice_subrange(index.as_slice(), dir_off + 0x10, dir_off + ds);
    let dname = decode_cp932_cstring(raw, "directory name")?;
    let next: usize = if di as u64 + 1 == directory_count as u64 {
        f
    } else {
        let end_of_record = dir_off + ds;
        if end_of_record > usize::MAX - 8 {
            return Err(CmvsError::CpzDirectory);
        }
        index_u32(index, end_of_record + 8)? as usize
    };
    if next <= eoff || next > f {
        return Err(CmvsError::CpzDirectory);
    }
    if d > index.len() || index.len() - d < next {
        return Err(CmvsError::CpzDirectory);
    }
    let start = d + eoff;
    let end = d + next;
    let key: [u32; 4] = [
        md5[0] ^ dkey.wrapping_add(scheme.directory_key_addend[0]),
        md5[1] ^ dkey.wrapping_add(scheme.directory_key_addend[1]),
        md5[2] ^ dkey.wrapping_add(scheme.directory_key_addend[2]),
        md5[3] ^ dkey.wrapping_add(scheme.directory_key_addend[3]),
    ];
    assert(key@ =~= directory_entries_key(md5@, dkey, scheme.directory_key_addend@));
    decrypt_entries_region(index, start, end, decoder, scheme, key, Ghost(ctx));
    let eo = entry_records(index, start, fc as usize, end, &dname, dkey, base, name_offset, Ghost(ctx), entries)?;
    if eo != end {
        return Err(CmvsError::CpzEntry);
    }
    Ok(dir_off + ds)
}

/// All directory records of a decrypted index; together they must consume
/// the directory table exactly.
pub open spec fn spec_read_directories(index: Seq<u8>, ctx: IndexContextV) -> Result<Seq<IndexEntryV>, CmvsError> {
    match spec_directory_records(index, 0, 0, ctx, Seq::empty()) {
        Err(e) => Err(e),
        Ok((es, off)) => if off != ctx.directory_bytes { Err(CmvsError::CpzDirectory) } else { Ok(es) },
    }
}

/// Reads every directory record of the decrypted `index`.
fn read_directories(index: &mut Vec<u8>, directory_count: u32, d: usize, f: usize, decoder: &Cpz5Decoder, m: [u32; 4],
    scheme: &Cpz5Scheme, base: u64, name_offset: u32) -> (r: Result<Vec<Cpz5IndexEntry>, CmvsError>)
    requires
        d <= old(index)@.len(),
    ensures
        match r {
            Ok(es) => spec_read_directories(old(index)@, context_of(directory_count, d, f, *decoder, m, *scheme, base, name_offset))
                == Ok::<Seq<IndexEntryV>, CmvsError>(entries_view(es@)),
            Err(e) => spec_read_directories(old(index)@, context_of(directory_count, d, f, *decoder, m, *scheme, base, name_offset))
                == Err::<Seq<IndexEntryV>, CmvsError>(e),
        },
{
    let ghost ctx = context_of(directory_count, d, f, *decoder, m, *scheme, base, name_offset);
    let ghost i2 = index@;
    let mut entries: Vec<Cpz5IndexEntry> = Vec::new();
    assert(entries_view(entries@) =~= Seq::<IndexEntryV>::empty());
    let mut dir_off: usize = 0;
    let mut di: u32 = 0;
    while di < directory_count
        invariant
            d <= index@.len(),
            index@.len() == i2.len(),
            i2 == old(index)@,
            ctx == context_of(directory_count, d, f, *decoder, m, *scheme, base, name_offset),
            spec_directory_records(i2, 0, 0, ctx, Seq::empty())
                == spec_directory_records(index@, dir_off as int, di as nat, ctx, entries_view(entries@)),
        decreases directory_count - di,
    {
        let ghost before = index@;
        let ghost before_acc = entries_view(entries@);
        match directory_record(index, dir_off, di, directory_count, d, f, decoder, m, scheme, base, name_offset, &mut entries) {
            Ok(nd) => {
                dir_off = nd;
            },
            Err(e) => {
                assert(spec_directory_records(before, dir_off as int, di as nat, ctx, before_acc)
                    == Err::<(Seq<IndexEntryV>, int), CmvsError>(e));
                return Err(e);
            },
        }
        di = di + 1;
    }
    if dir_off != d {
        return Err(CmvsError::CpzDirectory);
    }
    Ok(entries)
}

/// The index after its first stage and the directory table's substitution
/// and transform.
pub open spec fn spec_decrypted_directory_table(enc: Seq<u8>, p: CmvsSchemeProfile, master: u32, m: Seq<u32>, d: int) -> Seq<u8> {
    let i1 = stage1_bytes(p.cpz5_secret@, p.index_addend, p.index_subtrahend as u8, master ^ 0x3795b39a, enc);
    let t1 = decoder_table(p.decoder_factor, master, m[1]);
    directory_bytes(spec_index_key(m, master), 0, decode_bytes(t1, 0x3a, i1.subrange(0, d)))
        + i1.subrange(d, i1.len() as int)
}

/// The entries of a CPZ5 index `enc` under header `h` and profile `p`.
pub open spec fn spec_parse_cpz5_index(h: CpzHeaderV, enc: Seq<u8>, p: CmvsSchemeProfile) -> Result<Seq<IndexEntryV>, CmvsError> {
    if h.version != CmvsCpzVersion::Cpz5 {
        Err(CmvsError::CpzIndexVersion)
    } else {
        match spec_verify_index_identity(h, enc) {
            Err(e) => Err(e),
            Ok(_) => if h.directory_entries_size > usize::MAX || h.file_entries_size > usize::MAX {
                Err(CmvsError::CpzIndexSize)
            } else if h.directory_entries_size + h.file_entries_size > usize::MAX {
                Err(CmvsError::CpzIndexRange)
            } else if enc.len() != h.directory_entries_size + h.file_entries_size {
                Err(CmvsError::CpzIndexSize)
            } else {
                match h.master_key {
                    None => Err(CmvsError::CpzProfile),
                    Some(master) => match h.cmvs_md5 {
                        None => Err(CmvsError::CpzProfile),
                        Some(hm) => match spec_cmvs_md5(hm, p.md5_variant@) {
                            Err(e) => Err(e),
                            Ok(m) => if p.cpz5_secret@.len() != 24 || p.dir_key_addend@.len() != 4 || p.index_subtrahend > 255 {
                                Err(CmvsError::CpzProfile)
                            } else if h.index_offset + h.index_size > u64::MAX {
                                Err(CmvsError::CpzIndexRange)
                            } else {
                                let d = h.directory_entries_size as int;
                                let ctx = IndexContextV {
                                    directory_count: h.directory_count,
                                    directory_bytes: d,
                                    file_bytes: h.file_entries_size as int,
                                    table: decoder_table(p.decoder_factor, master, m[2]),
                                    md5: m,
                                    addend: p.dir_key_addend@,
                                    index_seed: p.index_seed,
                                    base: h.index_offset + h.index_size,
                                    name_offset: h.entry_name_offset,
                                };
                                spec_read_directories(spec_decrypted_directory_table(enc, p, master, m, d), ctx)
                            },
                        },
                    },
                }
            },
        }
    }
}

/// Decrypts a CPZ5 index and reads its directory and entry records. The
/// index must match the header's size and MD5 identity; every record must
/// lie inside its table and the records must consume their tables exactly.
#[verifier::rlimit(40)]
pub fn parse_cpz5_index(header: &CmvsCpzHeader, encrypted_index: &[u8], profile: &CmvsSchemeProfile)
    -> (r: Result<Vec<Cpz5IndexEntry>, CmvsError>)
    ensures
        match r {
            Ok(es) => spec_parse_cpz5_index(header@, encrypted_index@, *profile) == Ok::<Seq<IndexEntryV>, CmvsError>(entries_view(es@)),
            Err(e) => spec_parse_cpz5_index(header@, encrypted_index@, *profile) == Err::<Seq<IndexEntryV>, CmvsError>(e),
        },
{
    match header.version {
        CmvsCpzVersion::Cpz5 => {},
        _ => return Err(CmvsError::CpzIndexVersion),
    }
    header.verify_index_identity(encrypted_index)?;
    if header.directory_entries_size > usize::MAX as u64 || header.file_entries_size > usize::MAX as u64 {
        return Err(CmvsError::CpzIndexSize);
    }
    let d = header.directory_entries_size as usize;
    let f = header.file_entries_size as usize;
    if d > usize::MAX - f {
        return Err(CmvsError::CpzIndexRange);
    }
    if encrypted_index.len() != d + f {
        return Err(CmvsError::CpzIndexSize);
    }
    let master = match header.master_key {
        Some(k) => k,
        None => return Err(CmvsError::CpzProfile),
    };
    let hm = match header.cmvs_md5 {
        Some(m) => m,
        None => return Err(CmvsError::CpzProfile),
    };
    let m = compute(hm, profile.md5_variant.as_str())?;
    let scheme = Cpz5Scheme::from_profile(profile)?;
    let mut index = vstd::slice::slice_to_vec(encrypted_index);
    scheme.decrypt_index_stage_1(index.as_mut_slice(), master ^ 0x3795b39a);
    let decoder1 = Cpz5Decoder::new(profile, master, m[1]);
    let mut table = vstd::slice::slice_to_vec(vstd::slice::slice_subrange(index.as_slice(), 0, d));
    decoder1.decode(table.as_mut_slice(), 0x3a);
    let key = index_key(m, master);
    scheme.decrypt_directory(table.as_mut_slice(), key, 0);
    let mut i: usize = 0;
    let ghost i1 = index@;
    while i < d
        invariant
            i <= d,
            d == table@.len(),
            d <= i1.len(),
            index@.len() == i1.len(),
            forall|j: int| d <= j < i1.len() ==> index@[j] == i1[j],
            forall|j: int| 0 <= j < i ==> index@[j] == table@[j],
        decreases d - i,
    {
        index.set(i, table[i]);
        i = i + 1;
    }
    assert(index@ =~= table@ + i1.subrange(d as int, i1.len() as int));
    let mut decoder = decoder1;
    decoder.initialize(master, m[2]);
    if header.index_offset > u64::MAX - header.index_size {
        return Err(CmvsError::CpzIndexRange);
    }
    let base = header.index_offset + header.index_size;
    read_directories(&mut index, header.directory_count, d, f, &decoder, m, &scheme, base, header.entry_name_offset)
}

/// The seed of an entry's cipher.
pub open spec fn spec_entry_seed(h: CpzHeaderV, entry_key: u32, p: CmvsSchemeProfile, master: u32) -> u32 {
    (master ^ entry_key).wrapping_add(h.directory_count).wrapping_sub(p.entry_sub_key)
        ^ (match h.entry_key { Some(k) => k, None => 0 })
}

/// The plain bytes of the entry `e` of a CPZ5 archive whose stored bytes
/// are `enc`.
pub open spec fn spec_decrypt_cpz5_entry(h: CpzHeaderV, e: IndexEntryV, enc: Seq<u8>, p: CmvsSchemeProfile)
    -> Result<Seq<u8>, CmvsError>
{
    if h.version != CmvsCpzVersion::Cpz5 {
        Err(CmvsError::CpzEntryVersion)
    } else if enc.len() != e.stored_size {
        Err(CmvsError::CpzEntrySize)
    } else if !h.encrypted_entries {
        Ok(enc)
    } else {
        match h.master_key {
            None => Err(CmvsError::CpzProfile),
            Some(master) => match h.cmvs_md5 {
                None => Err(CmvsError::CpzProfile),
                Some(hm) => match spec_cmvs_md5(hm, p.md5_variant@) {
                    Err(err) => Err(err),
                    Ok(m) => if p.cpz5_secret@.len() < 16 {
                        Err(CmvsError::CpzSecret)
                    } else {
                        Ok(entry_bytes(decoder_table(p.decoder_factor, m[3], master), p.cpz5_secret@, p.entry_init_key,
                            p.entry_key_pos, p.entry_tail_key, m, spec_entry_seed(h, e.key, p, master), enc))
                    },
                },
            },
        }
    }
}

/// Decrypts one CPZ5 entry in place after its stored bytes were read; the
/// bytes stay as they are when the archive does not encrypt its entries or
/// when an error is returned.
pub fn decrypt_cpz5_entry(header: &CmvsCpzHeader, entry: &Cpz5IndexEntry, encrypted: &mut [u8], profile: &CmvsSchemeProfile)
    -> (r: Result<(), CmvsError>)
    ensures
        match r {
            Ok(()) => spec_decrypt_cpz5_entry(header@, entry@, old(encrypted)@, *profile) == Ok::<Seq<u8>, CmvsError>(final(encrypted)@),
            Err(e) => spec_decrypt_cpz5_entry(header@, entry@, old(encrypted)@, *profile) == Err::<Seq<u8>, CmvsError>(e)
                && final(encrypted)@ == old(encrypted)@,
        },
{
    match header.version {
        CmvsCpzVersion::Cpz5 => {},
        _ => return Err(CmvsError::CpzEntryVersion),
    }
    if encrypted.len() as u64 != entry.stored_size {
        return Err(CmvsError::CpzEntrySize);
    }
    if !header.encrypted_entries {
        return Ok(());
    }
    let master = match header.master_key {
        Some(k) => k,
        None => return Err(CmvsError::CpzProfile),
    };
    let hm = match header.cmvs_md5 {
        Some(m) => m,
        None => return Err(CmvsError::CpzProfile),
    };
    let m = compute(hm, profile.md5_variant.as_str())?;
    let decoder = Cpz5Decoder::new(profile, m[3], master);
    let extra = match header.entry_key {
        Some(k) => k,
        None => 0,
    };
    let seed = (master ^ entry.key).wrapping_add(header.directory_count).wrapping_sub(profile.entry_sub_key) ^ extra;
    decoder.decrypt_entry(encrypted, m, seed)
}

} // verus!
