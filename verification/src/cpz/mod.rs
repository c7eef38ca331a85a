//! CPZ archives: the legacy CPZ1/CPZ2 and the modern CPZ5/CPZ6/CPZ7
//! headers, the CPZ5 index ciphers and the CPZ5 index and entry readers.
use vstd::prelude::*;
use crate::error::CmvsError;
use crate::bytes::{read_le_u32, spec_le_u32};
use crate::bits::{spec_rotr32, rotr32};
use crate::text::{md5, md5_digest};

pub mod crypt;
pub mod names;
pub mod index;
pub mod key;


verus! {

/// Initial value of the CPZ5 and CPZ6 header checksum.
pub const CPZ5_INIT_CHECKSUM: u32 = 0x923a564c;
/// Byte size of the CPZ5 and CPZ6 headers.
pub const CPZ5_HEADER_BYTES: u64 = 0x40;
/// Byte size of the CPZ7 header.
pub const CPZ7_HEADER_BYTES: u64 = 0x48;
/// Largest index the reader accepts.
pub const MAX_INDEX_BYTES: u64 = 536870912;

/// The CPZ format generations.
#[derive(Debug, Clone, Copy, PartialEq, Eq, Structural)]
pub enum CmvsCpzVersion {
    Cpz1,
    Cpz2,
    Cpz5,
    Cpz6,
    Cpz7,
}

/// A parsed CPZ header.
#[derive(Debug, Clone, PartialEq, Eq)]
pub struct CmvsCpzHeader {
    pub version: CmvsCpzVersion,
    pub directory_count: u32,
    pub directory_entries_size: u64,
    pub file_entries_size: u64,
    pub index_offset: u64,
    pub index_size: u64,
    pub master_key: Option<u32>,
    pub entry_key: Option<u32>,
    pub index_key_size: Option<u32>,
    pub cmvs_md5: Option<[u32; 4]>,
    pub index_md5: Option<[u8; 16]>,
    pub encrypted_entries: bool,
    pub entry_name_offset: u32,
}

/// The abstract content of a CPZ header.
pub struct CpzHeaderV {
    pub version: CmvsCpzVersion,
    pub directory_count: u32,
    pub directory_entries_size: u64,
    pub file_entries_size: u64,
    pub index_offset: u64,
    pub index_size: u64,
    pub master_key: Option<u32>,
    pub entry_key: Option<u32>,
    pub index_key_size: Option<u32>,
    pub cmvs_md5: Option<Seq<u32>>,
    pub index_md5: Option<Seq<u8>>,
    pub encrypted_entries: bool,
    pub entry_name_offset: u32,
}

impl View for CmvsCpzHeader {
    type V = CpzHeaderV;

    open spec fn view(&self) -> CpzHeaderV {
        CpzHeaderV {
            version: self.version,
            directory_count: self.directory_count,
            directory_entries_size: self.directory_entries_size,
            file_entries_size: self.file_entries_size,
            index_offset: self.index_offset,
            index_size: self.index_size,
            master_key: self.master_key,
            entry_key: self.entry_key,
            index_key_size: self.index_key_size,
            cmvs_md5: match self.cmvs_md5 { Some(a) => Some(a@), None => None },
            index_md5: match self.index_md5 { Some(a) => Some(a@), None => None },
            encrypted_entries: self.encrypted_entries,
            entry_name_offset: self.entry_name_offset,
        }
    }
}

/// Wrapping sum of the first `n` little-endian words of `s`, starting at `v`.
pub open spec fn spec_checksum_words(s: Seq<u8>, v: u32, n: nat) -> u32
    decreases n,
{
    if n == 0 { v } else { spec_checksum_words(s, v, (n - 1) as nat).wrapping_add(spec_le_u32(s, 4 * (n - 1))) }
}

/// Wrapping sum of the first `n` bytes after the whole words of `s`.
pub open spec fn spec_checksum_tail(s: Seq<u8>, v: u32, n: nat) -> u32
    decreases n,
{
    if n == 0 { v } else { spec_checksum_tail(s, v, (n - 1) as nat).wrapping_add(s[4 * (s.len() / 4) + n - 1] as u32) }
}

/// The additive checksum: `v` plus every whole little-endian word of `s`,
/// then every trailing byte, with wrapping.
pub open spec fn spec_additive_checksum(s: Seq<u8>, v: u32) -> u32 {
    spec_checksum_tail(s, spec_checksum_words(s, v, s.len() / 4), (s.len() % 4) as nat)
}

/// Adds every whole little-endian word of `bytes`, then every trailing byte,
/// to `value` with wrapping.
pub fn additive_checksum(bytes: &[u8], value: u32) -> (r: u32)
    ensures
        r == spec_additive_checksum(bytes@, value),
{
    let len = bytes.len();
    let words = len / 4;
    let mut v = value;
    let mut w: usize = 0;
    while w < words
        invariant
            w <= words,
            words == len / 4,
            len == bytes@.len(),
            v == spec_checksum_words(bytes@, value, w as nat),
        decreases words - w,
    {
        let o = 4 * w;
        let word = match read_le_u32(bytes, o) {
            Some(x) => x,
            None => { assert(false); 0 },
        };
        v = v.wrapping_add(word);
        w = w + 1;
    }
    let mut t: usize = 0;
    let tail = len - 4 * words;
    assert(tail == len % 4);
    while t < tail
        invariant
            t <= tail,
            tail == len % 4,
            words == len / 4,
            len == bytes@.len(),
            v == spec_checksum_tail(bytes@, spec_checksum_words(bytes@, value, words as nat), t as nat),
        decreases tail - t,
    {
        v = v.wrapping_add(bytes[4 * words + t] as u32);
        t = t + 1;
    }
    v
}

/// Little-endian word at `off` of the header, failing with `CpzHeader`.
pub open spec fn spec_header_word(s: Seq<u8>, off: int) -> Result<u32, CmvsError> {
    if off + 4 <= s.len() { Ok(spec_le_u32(s, off)) } else { Err(CmvsError::CpzHeader) }
}

fn header_word(source: &[u8], off: usize) -> (r: Result<u32, CmvsError>)
    ensures
        r == spec_header_word(source@, off as int),
{
    match read_le_u32(source, off) {
        Some(v) => Ok(v),
        None => Err(CmvsError::CpzHeader),
    }
}

/// The CPZ1 or CPZ2 header of `s`, for an archive of `source_len` bytes.
pub open spec fn spec_parse_legacy(s: Seq<u8>, source_len: u64, version: CmvsCpzVersion) -> Result<CpzHeaderV, CmvsError> {
    let cpz2 = version == CmvsCpzVersion::Cpz2;
    if s.len() < 12 {
        Err(CmvsError::CpzHeader)
    } else {
        let directory_count = if cpz2 { spec_le_u32(s, 4) ^ 0xe47c59f3 } else { spec_le_u32(s, 4) };
        let index_size = if cpz2 { spec_le_u32(s, 8) ^ 0x3f71de2a } else { spec_le_u32(s, 8) };
        let index_offset: u64 = if cpz2 { 0x14 } else { 0x10 };
        if directory_count == 0 || index_size > MAX_INDEX_BYTES || index_offset + index_size > source_len {
            Err(CmvsError::CpzHeader)
        } else if cpz2 && s.len() < 0x14 {
            Err(CmvsError::CpzHeader)
        } else {
            Ok(CpzHeaderV {
                version,
                directory_count,
                directory_entries_size: index_size as u64,
                file_entries_size: 0,
                index_offset,
                index_size: index_size as u64,
                master_key: None,
                entry_key: if cpz2 { Some(spec_le_u32(s, 0x10) ^ 0x40de832c) } else { None },
                index_key_size: None,
                cmvs_md5: None,
                index_md5: None,
                encrypted_entries: true,
                entry_name_offset: 0x18,
            })
        }
    }
}

/// Reads a CPZ1 or CPZ2 header; `version` must be one of the two.
pub fn parse_legacy(source: &[u8], source_len: u64, version: CmvsCpzVersion) -> (r: Result<CmvsCpzHeader, CmvsError>)
    requires
        version == CmvsCpzVersion::Cpz1 || version == CmvsCpzVersion::Cpz2,
    ensures
        match r {
            Ok(h) => spec_parse_legacy(source@, source_len, version) == Ok::<CpzHeaderV, CmvsError>(h@),
            Err(e) => spec_parse_legacy(source@, source_len, version) == Err::<CpzHeaderV, CmvsError>(e),
        },
{
    let cpz2 = match version {
        CmvsCpzVersion::Cpz2 => true,
        _ => false,
    };
    let w4 = header_word(source, 4)?;
    let w8 = header_word(source, 8)?;
    let directory_count = if cpz2 { w4 ^ 0xe47c59f3 } else { w4 };
    let index_size = if cpz2 { w8 ^ 0x3f71de2a } else { w8 };
    let index_offset: u64 = if cpz2 { 0x14 } else { 0x10 };
    if directory_count == 0 || index_size as u64 > MAX_INDEX_BYTES || index_offset + index_size as u64 > source_len {
        return Err(CmvsError::CpzHeader);
    }
    let entry_key = if cpz2 { Some(header_word(source, 0x10)? ^ 0x40de832c) } else { None };
    Ok(CmvsCpzHeader {
        version,
        directory_count,
        directory_entries_size: index_size as u64,
        file_entries_size: 0,
        index_offset,
        index_size: index_size as u64,
        master_key: None,
        entry_key,
        index_key_size: None,
        cmvs_md5: None,
        index_md5: None,
        encrypted_entries: true,
        entry_name_offset: 0x18,
    })
}

/// The CPZ5, CPZ6 or CPZ7 header of `s`, whose fourth byte names the
/// generation, for an archive of `source_len` bytes.
pub open spec fn spec_parse_modern(s: Seq<u8>, source_len: u64) -> Result<CpzHeaderV, CmvsError> {
    let version = if s[3] == 0x35 { CmvsCpzVersion::Cpz5 } else if s[3] == 0x36 { CmvsCpzVersion::Cpz6 } else { CmvsCpzVersion::Cpz7 };
    let v7 = version == CmvsCpzVersion::Cpz7;
    let v5 = version == CmvsCpzVersion::Cpz5;
    let header_bytes: u64 = if v7 { CPZ7_HEADER_BYTES } else { CPZ5_HEADER_BYTES };
    if !(s[3] == 0x35 || s[3] == 0x36 || s[3] == 0x37) {
        Err(CmvsError::CpzVersion)
    } else if s.len() < header_bytes {
        Err(CmvsError::CpzHeader)
    } else {
        let stored = spec_le_u32(s, if v7 { 0x44 } else { 0x3c });
        let init = if v7 { spec_le_u32(s, 0x40).wrapping_sub(0x6dc5a9b4) } else { CPZ5_INIT_CHECKSUM };
        if spec_additive_checksum(s.subrange(0, if v7 { 0x40 } else { 0x3c }), init) != stored {
            Err(CmvsError::CpzChecksum)
        } else {
            let c: Seq<u32> = if v5 { seq![0x43de7c19, 0xcc65f415, 0xd016a93c, 0x97a3ba9a] }
                else { seq![0x43de7c1a, 0xcc65f416, 0xd016a93d, 0x97a3ba9b] };
            let directory_count = spec_le_u32(s, 4) ^ (if v5 { 0xfe3a53d9u32 } else { 0xfe3a53dau32 });
            let directory_entries_size = spec_le_u32(s, 8) ^ (if v5 { 0x37f298e7u32 } else { 0x37f298e8u32 });
            let file_entries_size = spec_le_u32(s, 0x0c) ^ (if v5 { 0x7a6f3a2cu32 } else { 0x7a6f3a2du32 });
            let master_key = spec_le_u32(s, 0x30) ^ (if v5 { 0xae7d39bfu32 } else { 0xae7d39b7u32 });
            let encrypted_entries = (spec_le_u32(s, 0x34) ^ (if v5 { 0xfb73a955u32 } else { 0xfb73a956u32 })) != 0;
            let entry_key: u32 = if v5 { 0 } else {
                0x7da8f173u32.wrapping_mul(spec_rotr32(spec_le_u32(s, 0x38) ^ 0x37acf832, 5)).wrapping_add(0x13712765)
            };
            let index_key_size: Option<u32> = if v7 { Some(spec_le_u32(s, 0x40) ^ 0x65ef99f3) } else { None };
            let index_size: int = directory_entries_size + file_entries_size
                + (if v7 { spec_le_u32(s, 0x40) ^ 0x65ef99f3 } else { 0u32 });
            if directory_count == 0 || index_size == 0 || index_size > MAX_INDEX_BYTES || header_bytes + index_size > source_len {
                Err(CmvsError::CpzHeader)
            } else {
                Ok(CpzHeaderV {
                    version,
                    directory_count,
                    directory_entries_size: directory_entries_size as u64,
                    file_entries_size: file_entries_size as u64,
                    index_offset: header_bytes,
                    index_size: index_size as u64,
                    master_key: Some(master_key),
                    entry_key: Some(entry_key),
                    index_key_size,
                    cmvs_md5: Some(seq![spec_le_u32(s, 0x20) ^ c[0], spec_le_u32(s, 0x24) ^ c[1],
                        spec_le_u32(s, 0x28) ^ c[2], spec_le_u32(s, 0x2c) ^ c[3]]),
                    index_md5: Some(s.subrange(0x10, 0x20)),
                    encrypted_entries,
                    entry_name_offset: if v7 { 0x1c } else { 0x18 },
                })
            }
        }
    }
}

/// Reads a CPZ5, CPZ6 or CPZ7 header: the fourth byte names the generation,
/// the header checksum must match and the index must be non-empty, at most
/// 512 MiB and inside the archive.
pub fn parse_modern(source: &[u8], source_len: u64) -> (r: Result<CmvsCpzHeader, CmvsError>)
    requires
        source@.len() >= 4,
    ensures
        match r {
            Ok(h) => spec_parse_modern(source@, source_len) == Ok::<CpzHeaderV, CmvsError>(h@),
            Err(e) => spec_parse_modern(source@, source_len) == Err::<CpzHeaderV, CmvsError>(e),
        },
{
    let version = if source[3] == 0x35 {
        CmvsCpzVersion::Cpz5
    } else if source[3] == 0x36 {
        CmvsCpzVersion::Cpz6
    } else if source[3] == 0x37 {
        CmvsCpzVersion::Cpz7
    } else {
        return Err(CmvsError::CpzVersion);
    };
    let v7 = source[3] == 0x37;
    let v5 = source[3] == 0x35;
    let header_bytes: u64 = if v7 { CPZ7_HEADER_BYTES } else { CPZ5_HEADER_BYTES };
    if (source.len() as u64) < header_bytes {
        return Err(CmvsError::CpzHeader);
    }
    let checksum_length: usize = if v7 { 0x40 } else { 0x3c };
    let stored = header_word(source, if v7 { 0x44 } else { 0x3c })?;
    let init = if v7 { header_word(source, 0x40)?.wrapping_sub(0x6dc5a9b4) } else { CPZ5_INIT_CHECKSUM };
    let covered = vstd::slice::slice_subrange(source, 0, checksum_length);
    if additive_checksum(covered, init) != stored {
        return Err(CmvsError::CpzChecksum);
    }
    let mut index_md5: [u8; 16] = [0u8; 16];
    let mut k: usize = 0;
    while k < 16
        invariant
            k <= 16,
            source@.len() >= 0x40,
            forall|j: int| 0 <= j < k ==> index_md5@[j] == source@[0x10 + j],
        decreases 16 - k,
    {
        index_md5[k] = source[0x10 + k];
        k = k + 1;
    }
    assert(index_md5@ =~= source@.subrange(0x10, 0x20));
    let c: [u32; 4] = if v5 { [0x43de7c19, 0xcc65f415, 0xd016a93c, 0x97a3ba9a] }
        else { [0x43de7c1a, 0xcc65f416, 0xd016a93d, 0x97a3ba9b] };
    let cmvs_md5: [u32; 4] = [
        header_word(source, 0x20)? ^ c[0],
        header_word(source, 0x24)? ^ c[1],
        header_word(source, 0x28)? ^ c[2],
        header_word(source, 0x2c)? ^ c[3],
    ];
    let directory_count = header_word(source, 4)? ^ (if v5 { 0xfe3a53d9u32 } else { 0xfe3a53dau32 });
    let directory_entries_size = header_word(source, 8)? ^ (if v5 { 0x37f298e7u32 } else { 0x37f298e8u32 });
    let file_entries_size = header_word(source, 0x0c)? ^ (if v5 { 0x7a6f3a2cu32 } else { 0x7a6f3a2du32 });
    let master_key = header_word(source, 0x30)? ^ (if v5 { 0xae7d39bfu32 } else { 0xae7d39b7u32 });
    let encrypted_entries = (header_word(source, 0x34)? ^ (if v5 { 0xfb73a955u32 } else { 0xfb73a956u32 })) != 0;
    let entry_key: u32 = if v5 {
        0
    } else {
        let raw = header_word(source, 0x38)? ^ 0x37acf832;
        0x7da8f173u32.wrapping_mul(rotr32(raw, 5)).wrapping_add(0x13712765)
    };
    let index_key_size: Option<u32> = if v7 { Some(header_word(source, 0x40)? ^ 0x65ef99f3) } else { None };
    let extra: u64 = match index_key_size {
        Some(x) => x as u64,
        None => 0,
    };
    let index_size: u64 = directory_entries_size as u64 + file_entries_size as u64 + extra;
    if directory_count == 0 || index_size == 0 || index_size > MAX_INDEX_BYTES || header_bytes + index_size > source_len {
        return Err(CmvsError::CpzHeader);
    }
    let h = CmvsCpzHeader {
        version,
        directory_count,
        directory_entries_size: directory_entries_size as u64,
        file_entries_size: file_entries_size as u64,
        index_offset: header_bytes,
        index_size,
        master_key: Some(master_key),
        entry_key: Some(entry_key),
        index_key_size,
        cmvs_md5: Some(cmvs_md5),
        index_md5: Some(index_md5),
        encrypted_entries,
        entry_name_offset: if v7 { 0x1c } else { 0x18 },
    };
    assert(cmvs_md5@ =~= seq![spec_le_u32(source@, 0x20) ^ c@[0], spec_le_u32(source@, 0x24) ^ c@[1],
        spec_le_u32(source@, 0x28) ^ c@[2], spec_le_u32(source@, 0x2c) ^ c@[3]]);
    Ok(h)
}

/// The header of a CPZ archive: `CPZ1`, `CPZ2`, `CPZ5`, `CPZ6` or `CPZ7`.
pub open spec fn spec_parse_cpz_header(s: Seq<u8>, source_len: u64) -> Result<CpzHeaderV, CmvsError> {
    if s.len() < 4 {
        Err(CmvsError::CpzHeader)
    } else if s[0] != 0x43 || s[1] != 0x50 || s[2] != 0x5a {
        Err(CmvsError::CpzMagic)
    } else if s[3] == 0x31 {
        spec_parse_legacy(s, source_len, CmvsCpzVersion::Cpz1)
    } else if s[3] == 0x32 {
        spec_parse_legacy(s, source_len, CmvsCpzVersion::Cpz2)
    } else if s[3] == 0x35 || s[3] == 0x36 || s[3] == 0x37 {
        spec_parse_modern(s, source_len)
    } else {
        Err(CmvsError::CpzMagic)
    }
}

/// Reads the header of a CPZ archive of `source_len` bytes whose first
/// bytes are `source`.
pub fn parse_cpz_header(source: &[u8], source_len: u64) -> (r: Result<CmvsCpzHeader, CmvsError>)
    ensures
        match r {
            Ok(h) => spec_parse_cpz_header(source@, source_len) == Ok::<CpzHeaderV, CmvsError>(h@),
            Err(e) => spec_parse_cpz_header(source@, source_len) == Err::<CpzHeaderV, CmvsError>(e),
        },
{
    if source.len() < 4 {
        return Err(CmvsError::CpzHeader);
    }
    if source[0] != 0x43 || source[1] != 0x50 || source[2] != 0x5a {
        return Err(CmvsError::CpzMagic);
    }
    if source[3] == 0x31 {
        parse_legacy(source, source_len, CmvsCpzVersion::Cpz1)
    } else if source[3] == 0x32 {
        parse_legacy(source, source_len, CmvsCpzVersion::Cpz2)
    } else if source[3] == 0x35 || source[3] == 0x36 || source[3] == 0x37 {
        parse_modern(source, source_len)
    } else {
        Err(CmvsError::CpzMagic)
    }
}

/// The index's byte count must be the header's index size and its MD5 the
/// header's index hash.
pub open spec fn spec_verify_index_identity(h: CpzHeaderV, index: Seq<u8>) -> Result<(), CmvsError> {
    if index.len() != h.index_size {
        Err(CmvsError::CpzIndexSize)
    } else {
        match h.index_md5 {
            None => Err(CmvsError::CpzIndexHash),
            Some(expected) => if md5_digest(index) != expected { Err(CmvsError::CpzIndexHash) } else { Ok(()) },
        }
    }
}

impl CmvsCpzHeader {
    /// True when the archive carries key material that only a private
    /// scheme profile can use.
    pub fn requires_private_profile(&self) -> (r: bool)
        ensures
            r == (self.master_key is Some || self.entry_key is Some || self.index_key_size is Some),
    {
        self.master_key.is_some() || self.entry_key.is_some() || self.index_key_size.is_some()
    }

    /// Checks the index's byte count and MD5 identity against the header.
    pub fn verify_index_identity(&self, index: &[u8]) -> (r: Result<(), CmvsError>)
        ensures
            r == spec_verify_index_identity(self@, index@),
    {
        if index.len() as u64 != self.index_size {
            return Err(CmvsError::CpzIndexSize);
        }
        let expected = match self.index_md5 {
            Some(e) => e,
            None => return Err(CmvsError::CpzIndexHash),
        };
        let digest = md5(index);
        let mut k: usize = 0;
        while k < 16
            invariant
                k <= 16,
                digest@ == md5_digest(index@),
                self.index_md5 == Some(expected),
                index@.len() == self.index_size,
                forall|j: int| 0 <= j < k ==> digest@[j] == expected@[j],
            decreases 16 - k,
        {
            if digest[k] != expected[k] {
                assert(digest@[k as int] != expected@[k as int]);
                return Err(CmvsError::CpzIndexHash);
            }
            k = k + 1;
        }
        assert(digest@ =~= expected@);
        Ok(())
    }
}

} // verus!
