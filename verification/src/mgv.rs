//! MGV1 movie containers: a fixed header, an index of four-byte entries,
//! an embedded Ogg stream and the video payload after it.
use vstd::prelude::*;
use crate::error::CmvsError;
use crate::bytes::{spec_le_u32, read_le_u32};

verus! {

/// The container magic.
pub const MGV1_MAGIC: [u8; 4] = [0x4d, 0x47, 0x56, 0x31];

/// The fixed header size.
pub const MGV1_HEADER_BYTES: usize = 32;

/// The size of one index entry.
pub const MGV1_INDEX_ENTRY_BYTES: usize = 4;

/// The largest index accepted.
pub const MAX_MGV1_INDEX_BYTES: usize = 0x400_0000;

/// The ranges of an MGV1 source; header words whose meaning is unknown are
/// kept as they are.
#[derive(Debug, Clone, Copy, PartialEq, Eq, Structural)]
pub struct Mgv1Container {
    pub header_bytes: u32,
    pub index_entry_count: u32,
    pub index_offset: u64,
    pub index_bytes: u64,
    pub ogg_offset: u64,
    pub ogg_bytes: u64,
    pub video_offset: u64,
    pub video_bytes: u64,
    pub opaque_word_2: u32,
    pub opaque_word_5: u32,
    pub opaque_word_6: u32,
    pub opaque_word_7: u32,
}

/// `s` starts with `MGV1`.
pub open spec fn spec_is_mgv1_magic(s: Seq<u8>) -> bool {
    s[0] == 0x4d && s[1] == 0x47 && s[2] == 0x56 && s[3] == 0x31
}

/// The header check of an MGV1 source of `source_len` bytes whose first
/// bytes are `h`: the index follows the header and the Ogg stream follows
/// the index, both inside the source.
pub open spec fn spec_parse_mgv1_header(h: Seq<u8>, source_len: u64) -> Result<Mgv1Container, CmvsError> {
    if h.len() < 32 {
        Err(CmvsError::MgvHeader)
    } else if !spec_is_mgv1_magic(h) {
        Err(CmvsError::MgvMagic)
    } else if spec_le_u32(h, 4) != 32 {
        Err(CmvsError::MgvHeader)
    } else {
        let count = spec_le_u32(h, 16);
        let index_bytes = count * 4;
        let ogg_bytes = spec_le_u32(h, 12);
        let ogg_offset = 32 + index_bytes;
        let video_offset = ogg_offset + ogg_bytes;
        if index_bytes > usize::MAX || index_bytes > 0x400_0000 {
            Err(CmvsError::MgvIndex)
        } else if video_offset > usize::MAX || source_len > usize::MAX || video_offset > source_len {
            Err(CmvsError::MgvRange)
        } else {
            Ok(Mgv1Container {
                header_bytes: 32,
                index_entry_count: count,
                index_offset: 32,
                index_bytes: index_bytes as u64,
                ogg_offset: ogg_offset as u64,
                ogg_bytes: ogg_bytes as u64,
                video_offset: video_offset as u64,
                video_bytes: (source_len - video_offset) as u64,
                opaque_word_2: spec_le_u32(h, 8),
                opaque_word_5: spec_le_u32(h, 20),
                opaque_word_6: spec_le_u32(h, 24),
                opaque_word_7: spec_le_u32(h, 28),
            })
        }
    }
}

/// Reads a little-endian header word.
fn le_u32(source: &[u8], offset: usize) -> (r: Result<u32, CmvsError>)
    ensures
        match r {
            Ok(v) => offset + 4 <= source@.len() && v == spec_le_u32(source@, offset as int),
            Err(e) => e == CmvsError::MgvHeader && offset + 4 > source@.len(),
        },
{
    match read_le_u32(source, offset) {
        Some(v) => Ok(v),
        None => Err(CmvsError::MgvHeader),
    }
}

/// Parses only the fixed header, checking every range against the source
/// length the caller has already verified.
pub fn parse_mgv1_header(header: &[u8], source_len: u64) -> (r: Result<Mgv1Container, CmvsError>)
    ensures
        r == spec_parse_mgv1_header(header@, source_len),
{
    if header.len() < MGV1_HEADER_BYTES {
        return Err(CmvsError::MgvHeader);
    }
    if header[0] != 0x4d || header[1] != 0x47 || header[2] != 0x56 || header[3] != 0x31 {
        return Err(CmvsError::MgvMagic);
    }
    let header_bytes = le_u32(header, 4)?;
    if header_bytes as usize != MGV1_HEADER_BYTES {
        return Err(CmvsError::MgvHeader);
    }
    let index_entry_count = le_u32(header, 16)?;
    let index_bytes_wide = index_entry_count as u64 * MGV1_INDEX_ENTRY_BYTES as u64;
    if index_bytes_wide > usize::MAX as u64 || index_bytes_wide > MAX_MGV1_INDEX_BYTES as u64 {
        return Err(CmvsError::MgvIndex);
    }
    let index_bytes = index_bytes_wide as usize;
    let ogg_bytes = le_u32(header, 12)? as usize;
    let index_offset = MGV1_HEADER_BYTES;
    let ogg_offset = index_offset + index_bytes;
    let video_offset = match ogg_offset.checked_add(ogg_bytes) {
        Some(v) => v,
        None => return Err(CmvsError::MgvRange),
    };
    if source_len > usize::MAX as u64 {
        return Err(CmvsError::MgvRange);
    }
    let source_len = source_len as usize;
    if video_offset > source_len {
        return Err(CmvsError::MgvRange);
    }
    Ok(Mgv1Container {
        header_bytes,
        index_entry_count,
        index_offset: index_offset as u64,
        index_bytes: index_bytes as u64,
        ogg_offset: ogg_offset as u64,
        ogg_bytes: ogg_bytes as u64,
        video_offset: video_offset as u64,
        video_bytes: (source_len - video_offset) as u64,
        opaque_word_2: le_u32(header, 8)?,
        opaque_word_5: le_u32(header, 20)?,
        opaque_word_6: le_u32(header, 24)?,
        opaque_word_7: le_u32(header, 28)?,
    })
}

/// Parses the framing of a whole MGV1 source.
pub fn parse_mgv1(source: &[u8]) -> (r: Result<Mgv1Container, CmvsError>)
    ensures
        r == spec_parse_mgv1_header(source@, source@.len() as u64),
{
    parse_mgv1_header(source, source.len() as u64)
}

/// The embedded Ogg stream of an MGV1 source, if the framing holds and the
/// range starts with `OggS`.
pub open spec fn spec_mgv1_embedded_ogg(s: Seq<u8>) -> Result<Seq<u8>, CmvsError> {
    match spec_parse_mgv1_header(s, s.len() as u64) {
        Err(e) => Err(e),
        Ok(c) => {
            let start = c.ogg_offset as int;
            let end = start + c.ogg_bytes;
            if end > s.len() || c.ogg_bytes < 4 || s[start] != 0x4f || s[start + 1] != 0x67 || s[start + 2] != 0x67
                || s[start + 3] != 0x53 {
                Err(CmvsError::MgvOgg)
            } else {
                Ok(s.subrange(start, end))
            }
        },
    }
}

/// Returns the embedded Ogg stream, after the complete framing is checked.
/// The video payload is left as it is.
pub fn mgv1_embedded_ogg(source: &[u8]) -> (r: Result<&[u8], CmvsError>)
    ensures
        match spec_mgv1_embedded_ogg(source@) {
            Ok(ogg) => r matches Ok(v) && v@ == ogg,
            Err(e) => r matches Err(e2) && e2 == e,
        },
{
    let container = parse_mgv1(source)?;
    if container.ogg_offset > usize::MAX as u64 || container.ogg_bytes > usize::MAX as u64 {
        return Err(CmvsError::MgvOgg);
    }
    let start = container.ogg_offset as usize;
    let length = container.ogg_bytes as usize;
    if start > source.len() || source.len() - start < length {
        return Err(CmvsError::MgvOgg);
    }
    let ogg = vstd::slice::slice_subrange(source, start, start + length);
    if ogg.len() < 4 || ogg[0] != 0x4f || ogg[1] != 0x67 || ogg[2] != 0x67 || ogg[3] != 0x53 {
        return Err(CmvsError::MgvOgg);
    }
    Ok(ogg)
}

/// The header, the index, the embedded Ogg stream and the video payload of
/// a parsed MGV1 source follow each other without gap or overlap and end
/// exactly at the source end.
pub proof fn lemma_mgv1_ranges_partition(h: Seq<u8>, source_len: u64)
    requires
        spec_parse_mgv1_header(h, source_len) is Ok,
    ensures
        ({
            let c = spec_parse_mgv1_header(h, source_len)->Ok_0;
            &&& c.index_offset == c.header_bytes
            &&& c.index_offset + c.index_bytes == c.ogg_offset
            &&& c.ogg_offset + c.ogg_bytes == c.video_offset
            &&& c.video_offset + c.video_bytes == source_len
            &&& c.index_bytes == 4 * c.index_entry_count
        }),
{
}

/// The header parser reads nothing past the fixed header: given the
/// source length, the first 32 bytes parse exactly as the whole source.
pub proof fn lemma_mgv1_header_suffices(s: Seq<u8>)
    requires
        s.len() >= 32,
    ensures
        spec_parse_mgv1_header(s.subrange(0, 32), s.len() as u64) == spec_parse_mgv1_header(s, s.len() as u64),
{
    let h = s.subrange(0, 32);
    assert(forall|i: int| 0 <= i < 32 ==> #[trigger] h[i] == s[i]);
}

/// The embedded Ogg stream is the byte range the header declares for it,
/// and it starts with `OggS`.
pub proof fn lemma_mgv1_ogg_is_declared_range(s: Seq<u8>)
    requires
        spec_mgv1_embedded_ogg(s) is Ok,
    ensures
        ({
            let c = spec_parse_mgv1_header(s, s.len() as u64)->Ok_0;
            let ogg = spec_mgv1_embedded_ogg(s)->Ok_0;
            &&& spec_parse_mgv1_header(s, s.len() as u64) is Ok
            &&& ogg == s.subrange(c.ogg_offset as int, c.video_offset as int)
            &&& ogg.len() >= 4 && ogg[0] == 0x4f && ogg[1] == 0x67 && ogg[2] == 0x67 && ogg[3] == 0x53
        }),
{
}

} // verus!
