//! PB2 and PB3 images: protected headers, metadata, the bounded PB LZSS
//! variant and the pixel layouts built on it.
use vstd::prelude::*;
use crate::error::CmvsError;
use crate::bytes::{spec_le_u16, spec_le_u32};
use crate::ps2a::payload::{spec_lzss_copy, lemma_lzss_copy};

pub mod layout;
pub mod planar;
pub mod blocks;
pub mod pb2;
pub mod pb3;
pub mod overlay;
pub mod image;



verus! {

/// The PB2 magic `PB2A`.
pub const PB2_MAGIC: [u8; 4] = [0x50, 0x42, 0x32, 0x41];
/// The PB3 magic `PB3B`.
pub const PB3_MAGIC: [u8; 4] = [0x50, 0x42, 0x33, 0x42];
/// Byte size of the PB2 header.
pub const PB2_HEADER_BYTES: usize = 0x20;
/// Byte size of the PB2 trailing key.
pub const PB2_KEY_BYTES: usize = 27;
/// Byte size of the PB3 metadata header.
pub const PB3_HEADER_BYTES: usize = 0x24;
/// Byte size of the protected PB3 prefix.
pub const PB3_DECRYPT_BYTES: usize = 52;
/// Byte size of the PB3 trailing key.
pub const PB3_TAIL_KEY_BYTES: usize = 47;
/// Largest pixel count a PB image may declare.
pub const MAX_PIXELS: u64 = 67108864;
/// Largest decoded byte count.
pub const MAX_DECODED_BYTES: usize = 268435456;
/// Size of the PB LZSS window.
pub const LZSS_FRAME_BYTES: usize = 0x800;
/// Initial write position of the PB LZSS window.
pub const LZSS_INITIAL_OFFSET: usize = 0x7de;

/// Header data common to PB2 and PB3.
#[derive(Debug, Clone, Copy, PartialEq, Eq, Structural)]
pub struct PbMetadata {
    pub version: u8,
    pub input_size: u32,
    pub image_type: u16,
    pub width: u16,
    pub height: u16,
    pub bits_per_pixel: u16,
    pub offset_1: Option<u32>,
    pub offset_2: Option<u32>,
    pub frame_count: Option<u32>,
    /// The type-specific field at PB3 offset 0x18.
    pub auxiliary_field: Option<u32>,
}

/// Decoded RGBA pixels, four bytes per pixel in raster order.
#[derive(Debug, Clone, PartialEq, Eq)]
pub struct PbDecodedImage {
    pub width: u32,
    pub height: u32,
    pub rgba: Vec<u8>,
}

impl View for PbDecodedImage {
    type V = (u32, u32, Seq<u8>);

    open spec fn view(&self) -> (u32, u32, Seq<u8>) {
        (self.width, self.height, self.rgba@)
    }
}

/// An image of `width` by `height` pixels can hold `len` bytes of RGBA.
pub open spec fn image_fits(width: u32, height: u32, len: nat) -> bool {
    width * height * 4 <= len
}

impl PbDecodedImage {
    /// Wraps RGBA bytes as an image; the buffer must hold at least
    /// `width * height` pixels.
    pub fn from_raw(width: u32, height: u32, rgba: Vec<u8>) -> (r: Option<Self>)
        ensures
            match r {
                Some(img) => image_fits(width, height, rgba@.len()) && img.width == width && img.height == height
                    && img.rgba@ == rgba@,
                None => !image_fits(width, height, rgba@.len()),
            },
    {
        let w = width as u128;
        let h = height as u128;
        assert(w * h <= 0xffff_ffff * 0xffff_ffff) by (nonlinear_arith)
            requires
                w <= 0xffff_ffff,
                h <= 0xffff_ffff;
        let needed: u128 = w * h * 4;
        if needed > rgba.len() as u128 {
            return None;
        }
        Some(PbDecodedImage { width, height, rgba })
    }
}

/// The checks every PB header passes: non-zero dimensions, a whole-byte
/// pixel size of at most 64 bits and at most 64 Mi pixels.
pub open spec fn spec_validate_metadata(m: PbMetadata) -> Result<PbMetadata, CmvsError> {
    if m.width == 0 || m.height == 0 {
        Err(CmvsError::PbDimensions)
    } else if m.bits_per_pixel == 0 || m.bits_per_pixel > 64 || m.bits_per_pixel % 8 != 0 {
        Err(CmvsError::PbBpp)
    } else if m.width * m.height > MAX_PIXELS {
        Err(CmvsError::PbPixels)
    } else {
        Ok(m)
    }
}

/// Checks a header's dimensions and pixel size.
pub fn validate_metadata(metadata: PbMetadata) -> (r: Result<PbMetadata, CmvsError>)
    ensures
        r == spec_validate_metadata(metadata),
{
    if metadata.width == 0 || metadata.height == 0 {
        return Err(CmvsError::PbDimensions);
    }
    if metadata.bits_per_pixel == 0 || metadata.bits_per_pixel > 64 || metadata.bits_per_pixel % 8 != 0 {
        return Err(CmvsError::PbBpp);
    }
    let w = metadata.width as u64;
    let h = metadata.height as u64;
    assert(w * h <= 0xffff * 0xffff) by (nonlinear_arith)
        requires
            w <= 0xffff,
            h <= 0xffff;
    if w * h > MAX_PIXELS {
        return Err(CmvsError::PbPixels);
    }
    Ok(metadata)
}

/// Byte `j` of a PB2 source after its header is unprotected.
pub open spec fn pb2_plain_byte(s: Seq<u8>, j: int) -> u8 {
    if 8 <= j < 0x20 {
        (s[j] ^ s[s.len() - 27 + 24 + (j - 8) % 2]).wrapping_sub(s[s.len() - 27 + j - 8])
    } else {
        s[j]
    }
}

/// A PB2 source with its header unprotected.
pub open spec fn pb2_plain(s: Seq<u8>) -> Seq<u8> {
    Seq::new(s.len(), |j: int| pb2_plain_byte(s, j))
}

/// The metadata of a PB2 source.
pub open spec fn spec_parse_pb2_metadata(s: Seq<u8>) -> Result<PbMetadata, CmvsError> {
    if s.len() < 0x20 + 27 {
        Err(CmvsError::Pb2Size)
    } else if s[0] != 0x50 || s[1] != 0x42 || s[2] != 0x32 || s[3] != 0x41 {
        Err(CmvsError::Pb2Magic)
    } else {
        spec_validate_metadata(pb2_header_metadata(pb2_plain(s)))
    }
}

/// The metadata fields of an unprotected PB2 header.
pub open spec fn pb2_header_metadata(h: Seq<u8>) -> PbMetadata {
    PbMetadata {
        version: 2,
        input_size: spec_le_u32(h, 4),
        image_type: spec_le_u16(h, 0x10),
        width: spec_le_u16(h, 0x12),
        height: spec_le_u16(h, 0x14),
        bits_per_pixel: spec_le_u16(h, 0x16),
        offset_1: Some(spec_le_u32(h, 0x18)),
        offset_2: Some(spec_le_u32(h, 0x1c)),
        frame_count: Some(spec_le_u32(h, 8)),
        auxiliary_field: None,
    }
}

/// Byte `j` of a PB2 source after its header is protected with the key held
/// in its last 27 bytes: each header byte from 8 on gets its key byte added
/// and is then masked with key byte 24 or 25, by the parity of its place.
pub open spec fn pb2_protected_byte(s: Seq<u8>, j: int) -> u8 {
    if 8 <= j < 0x20 {
        s[j].wrapping_add(s[s.len() - 27 + j - 8]) ^ s[s.len() - 27 + 24 + (j - 8) % 2]
    } else {
        s[j]
    }
}

/// A PB2 source with its header protected.
pub open spec fn pb2_protect(s: Seq<u8>) -> Seq<u8> {
    Seq::new(s.len(), |j: int| pb2_protected_byte(s, j))
}

/// Unprotecting a PB2 header undoes its protection, whatever the key: a
/// protected source is read back as the metadata of its plain header, and
/// its decrypted form is the plain source.
pub proof fn lemma_pb2_header_round_trip(s: Seq<u8>)
    requires
        s.len() >= 0x20 + 27,
    ensures
        pb2_plain(pb2_protect(s)) == s,
        s[0] == 0x50 && s[1] == 0x42 && s[2] == 0x32 && s[3] == 0x41
            ==> spec_parse_pb2_metadata(pb2_protect(s)) == spec_validate_metadata(pb2_header_metadata(s)),
        spec_parse_pb2_metadata(pb2_protect(s)) is Ok ==> spec_decrypt_pb2_source(pb2_protect(s)) == Ok::<Seq<u8>, CmvsError>(s),
{
    let p = pb2_protect(s);
    assert forall|j: int| 0 <= j < s.len() implies #[trigger] pb2_plain_byte(p, j) == s[j] by {
        if 8 <= j < 0x20 {
            let k = s[s.len() - 27 + j - 8];
            let a = s[s.len() - 27 + 24 + (j - 8) % 2];
            let v = s[j].wrapping_add(k);
            assert(p[s.len() - 27 + j - 8] == k);
            assert(p[s.len() - 27 + 24 + (j - 8) % 2] == a);
            assert((v ^ a) ^ a == v) by (bit_vector);
            assert(v.wrapping_sub(k) == s[j]);
        }
    }
    assert(pb2_plain(p) =~= s);
}

fn pb2_unprotect(source: &[u8]) -> (r: Vec<u8>)
    requires
        source@.len() >= 0x20 + 27,
    ensures
        r@ == pb2_plain(source@),
{
    let len = source.len();
    let k = len - PB2_KEY_BYTES;
    let mut out = vstd::slice::slice_to_vec(source);
    let mut j: usize = 8;
    while j < 0x20
        invariant
            8 <= j <= 0x20,
            len == source@.len(),
            len >= 0x20 + 27,
            k == len - 27,
            out@.len() == len,
            forall|i: int| 0 <= i < j ==> out@[i] == pb2_plain_byte(source@, i),
            forall|i: int| j <= i < len ==> out@[i] == source@[i],
        decreases 0x20 - j,
    {
        let v = (source[j] ^ source[k + 24 + (j - 8) % 2]).wrapping_sub(source[k + (j - 8)]);
        out.set(j, v);
        j = j + 1;
    }
    assert(out@ =~= pb2_plain(source@));
    out
}

/// Reads and checks the protected PB2 header.
pub fn parse_pb2_metadata(source: &[u8]) -> (r: Result<PbMetadata, CmvsError>)
    ensures
        r == spec_parse_pb2_metadata(source@),
{
    if source.len() < PB2_HEADER_BYTES + PB2_KEY_BYTES {
        return Err(CmvsError::Pb2Size);
    }
    if source[0] != 0x50 || source[1] != 0x42 || source[2] != 0x32 || source[3] != 0x41 {
        return Err(CmvsError::Pb2Magic);
    }
    let h = pb2_unprotect(source);
    let hs = h.as_slice();
    let metadata = PbMetadata {
        version: 2,
        input_size: read_u32_at(hs, 4),
        image_type: read_u16_at(hs, 0x10),
        width: read_u16_at(hs, 0x12),
        height: read_u16_at(hs, 0x14),
        bits_per_pixel: read_u16_at(hs, 0x16),
        offset_1: Some(read_u32_at(hs, 0x18)),
        offset_2: Some(read_u32_at(hs, 0x1c)),
        frame_count: Some(read_u32_at(hs, 8)),
        auxiliary_field: None,
    };
    validate_metadata(metadata)
}

/// Reads the little-endian `u16` at `o`.
pub fn read_u16_at(s: &[u8], o: usize) -> (r: u16)
    requires
        o + 2 <= s@.len(),
    ensures
        r == spec_le_u16(s@, o as int),
{
    s[o] as u16 + 256 * (s[o + 1] as u16)
}

/// Reads the little-endian `u32` at `o`.
pub fn read_u32_at(s: &[u8], o: usize) -> (r: u32)
    requires
        o + 4 <= s@.len(),
    ensures
        r == spec_le_u32(s@, o as int),
{
    s[o] as u32 + 256 * (s[o + 1] as u32) + 65536 * (s[o + 2] as u32) + 16777216 * (s[o + 3] as u32)
}

/// The PB2 source with its header unprotected, after its metadata checks.
pub open spec fn spec_decrypt_pb2_source(s: Seq<u8>) -> Result<Seq<u8>, CmvsError> {
    match spec_parse_pb2_metadata(s) {
        Err(e) => Err(e),
        Ok(_) => Ok(pb2_plain(s)),
    }
}

/// Unprotects a PB2 source's header.
pub fn decrypt_pb2_source(source: &[u8]) -> (r: Result<Vec<u8>, CmvsError>)
    ensures
        match r {
            Ok(v) => spec_decrypt_pb2_source(source@) == Ok::<Seq<u8>, CmvsError>(v@),
            Err(e) => spec_decrypt_pb2_source(source@) == Err::<Seq<u8>, CmvsError>(e),
        },
{
    parse_pb2_metadata(source)?;
    Ok(pb2_unprotect(source))
}

/// Byte `j` of a PB3 source after its protected prefix is unprotected: the
/// prefix words are XORed with the trailer key word and each byte reduced
/// by its trailer key byte.
pub open spec fn pb3_plain_byte(s: Seq<u8>, j: int) -> u8 {
    if 8 <= j < 52 {
        (s[j] ^ (if j % 2 == 0 { s[s.len() - 3] } else { s[s.len() - 2] })).wrapping_sub(s[s.len() - 47 + j - 8])
    } else {
        s[j]
    }
}

/// A PB3 source with its protected prefix unprotected.
pub open spec fn pb3_plain(s: Seq<u8>) -> Seq<u8> {
    Seq::new(s.len(), |j: int| pb3_plain_byte(s, j))
}

/// The unprotected 52-byte PB3 prefix.
pub open spec fn spec_decrypt_pb3_header(s: Seq<u8>) -> Result<Seq<u8>, CmvsError> {
    if s.len() < 52 + 47 { Err(CmvsError::Pb3Size) } else { Ok(pb3_plain(s).subrange(0, 52)) }
}

/// The PB3 source with its prefix unprotected.
pub open spec fn spec_decrypt_pb3_source(s: Seq<u8>) -> Result<Seq<u8>, CmvsError> {
    if s.len() < 52 + 47 { Err(CmvsError::Pb3Size) } else { Ok(pb3_plain(s)) }
}

fn pb3_unprotect(source: &[u8]) -> (r: Vec<u8>)
    requires
        source@.len() >= 52 + 47,
    ensures
        r@ == pb3_plain(source@),
{
    let len = source.len();
    let mut out = vstd::slice::slice_to_vec(source);
    let mut j: usize = 8;
    while j < 52
        invariant
            8 <= j <= 52,
            len == source@.len(),
            len >= 52 + 47,
            out@.len() == len,
            forall|i: int| 0 <= i < j ==> out@[i] == pb3_plain_byte(source@, i),
            forall|i: int| j <= i < len ==> out@[i] == source@[i],
        decreases 52 - j,
    {
        let key = if j % 2 == 0 { source[len - 3] } else { source[len - 2] };
        let v = (source[j] ^ key).wrapping_sub(source[(len - 47) + (j - 8)]);
        out.set(j, v);
        j = j + 1;
    }
    assert(out@ =~= pb3_plain(source@));
    out
}

/// Unprotects the 52-byte PB3 prefix; the source must be long enough for
/// the prefix and the 47-byte trailer.
pub fn decrypt_pb3_header(source: &[u8]) -> (r: Result<[u8; 52], CmvsError>)
    ensures
        match r {
            Ok(h) => spec_decrypt_pb3_header(source@) == Ok::<Seq<u8>, CmvsError>(h@),
            Err(e) => spec_decrypt_pb3_header(source@) == Err::<Seq<u8>, CmvsError>(e),
        },
{
    if source.len() < PB3_DECRYPT_BYTES + PB3_TAIL_KEY_BYTES {
        return Err(CmvsError::Pb3Size);
    }
    let plain = pb3_unprotect(source);
    let mut header = [0u8; 52];
    let mut j: usize = 0;
    while j < 52
        invariant
            j <= 52,
            plain@.len() >= 52,
            forall|i: int| 0 <= i < j ==> header@[i] == plain@[i],
        decreases 52 - j,
    {
        header[j] = plain[j];
        j = j + 1;
    }
    assert(header@ =~= pb3_plain(source@).subrange(0, 52));
    Ok(header)
}

/// Unprotects a PB3 source's prefix.
pub fn decrypt_pb3_source(source: &[u8]) -> (r: Result<Vec<u8>, CmvsError>)
    ensures
        match r {
            Ok(v) => spec_decrypt_pb3_source(source@) == Ok::<Seq<u8>, CmvsError>(v@),
            Err(e) => spec_decrypt_pb3_source(source@) == Err::<Seq<u8>, CmvsError>(e),
        },
{
    if source.len() < PB3_DECRYPT_BYTES + PB3_TAIL_KEY_BYTES {
        return Err(CmvsError::Pb3Size);
    }
    Ok(pb3_unprotect(source))
}

/// The metadata of a PB3 source.
pub open spec fn spec_parse_pb3_metadata(s: Seq<u8>) -> Result<PbMetadata, CmvsError> {
    if s.len() < 52 + 47 {
        Err(CmvsError::Pb3Size)
    } else if s[0] != 0x50 || s[1] != 0x42 || s[2] != 0x33 || s[3] != 0x42 {
        Err(CmvsError::Pb3Magic)
    } else {
        let h = pb3_plain(s);
        let m = PbMetadata {
            version: 3,
            input_size: spec_le_u32(h, 4),
            image_type: spec_le_u16(h, 0x1c),
            width: spec_le_u16(h, 0x1e),
            height: spec_le_u16(h, 0x20),
            bits_per_pixel: spec_le_u16(h, 0x22),
            offset_1: None,
            offset_2: None,
            frame_count: None,
            auxiliary_field: Some(spec_le_u32(h, 0x18)),
        };
        if !(m.image_type == 2 || m.image_type == 3) && m.input_size > s.len() {
            Err(CmvsError::Pb3InputSize)
        } else {
            spec_validate_metadata(m)
        }
    }
}

/// Reads and checks the protected PB3 header; except for the JBP types 2
/// and 3, the declared input size must fit the source.
pub fn parse_pb3_metadata(source: &[u8]) -> (r: Result<PbMetadata, CmvsError>)
    ensures
        r == spec_parse_pb3_metadata(source@),
{
    let header = decrypt_pb3_header(source)?;
    if header[0] != 0x50 || header[1] != 0x42 || header[2] != 0x33 || header[3] != 0x42 {
        return Err(CmvsError::Pb3Magic);
    }
    let hs = header.as_slice();
    let m = PbMetadata {
        version: 3,
        input_size: read_u32_at(hs, 4),
        image_type: read_u16_at(hs, 0x1c),
        width: read_u16_at(hs, 0x1e),
        height: read_u16_at(hs, 0x20),
        bits_per_pixel: read_u16_at(hs, 0x22),
        offset_1: None,
        offset_2: None,
        frame_count: None,
        auxiliary_field: Some(read_u32_at(hs, 0x18)),
    };
    if !(m.image_type == 2 || m.image_type == 3) && m.input_size as u64 > source.len() as u64 {
        return Err(CmvsError::Pb3InputSize);
    }
    validate_metadata(m)
}

/// The error codes of one PB LZSS stream reader.
#[derive(Debug, Clone, Copy, PartialEq, Eq, Structural)]
pub struct LzssCodes {
    pub control: CmvsError,
    pub data: CmvsError,
    pub output: CmvsError,
}

/// The error codes of the shared PB LZSS decoder.
pub open spec fn pb_lzss_codes() -> LzssCodes {
    LzssCodes { control: CmvsError::PbLzssControl, data: CmvsError::PbLzssData, output: CmvsError::PbLzssOutput }
}

/// The PB LZSS decoder as a state machine: each control byte gives eight
/// flags, most significant first; a clear flag is a literal byte, a set flag
/// a two-byte window reference of 3 to 34 bytes. Decoding stops when
/// `expected` bytes were produced.
pub open spec fn spec_pb_lzss_run(src: Seq<u8>, expected: nat, window: Seq<u8>, wpos: int, bit: int, mask: u8,
    data: int, out: Seq<u8>, codes: LzssCodes) -> Result<Seq<u8>, CmvsError>
    decreases expected - out.len(),
{
    if out.len() >= expected || window.len() != 0x800 || !(0 <= wpos < 0x800) || data < 0 || bit < 0 {
        Ok(out)
    } else if bit >= src.len() {
        Err(codes.control)
    } else {
        let next_mask: u8 = if mask >> 1 == 0 { 0x80 } else { mask >> 1 };
        let next_bit = if mask >> 1 == 0 { bit + 1 } else { bit };
        if src[bit] & mask == 0 {
            if data >= src.len() {
                Err(codes.data)
            } else {
                let byte = src[data];
                spec_pb_lzss_run(src, expected, window.update(wpos, byte), (wpos + 1) % 0x800, next_bit, next_mask,
                    data + 1, out.push(byte), codes)
            }
        } else if data + 2 > src.len() {
            Err(codes.data)
        } else {
            let value = spec_le_u16(src, data);
            let count = value % 32 + 3;
            if count > expected - out.len() {
                Err(codes.output)
            } else {
                let copied = spec_lzss_copy(window, wpos, out, (value / 32) as int, count as nat);
                proof {
                    lemma_lzss_copy(window, wpos, out, (value / 32) as int, count as nat);
                }
                spec_pb_lzss_run(src, expected, copied.0, copied.1, next_bit, next_mask, data + 2, copied.2, codes)
            }
        }
    }
}

/// The PB LZSS stream of `src` with its control bytes at `bit` and its data
/// at `data`, decoded into exactly `expected` bytes.
pub open spec fn spec_decode_pb_lzss(src: Seq<u8>, bit: int, data: int, expected: nat) -> Result<Seq<u8>, CmvsError> {
    if expected > MAX_DECODED_BYTES {
        Err(CmvsError::PbLzssSize)
    } else {
        spec_pb_lzss_stream(src, bit, data, expected, pb_lzss_codes())
    }
}

/// The PB LZSS stream of `src` from a fresh window.
pub open spec fn spec_pb_lzss_stream(src: Seq<u8>, bit: int, data: int, expected: nat, codes: LzssCodes) -> Result<Seq<u8>, CmvsError> {
    spec_pb_lzss_run(src, expected, Seq::new(0x800, |i: int| 0u8), 0x7de, bit, 0x80, data, Seq::empty(), codes)
}

/// What a PB LZSS run returns keeps the output it started from as a prefix.
proof fn lemma_pb_lzss_run_keeps_output(src: Seq<u8>, expected: nat, window: Seq<u8>, wpos: int, bit: int,
    mask: u8, data: int, out: Seq<u8>, codes: LzssCodes)
    requires
        window.len() == 0x800,
        0 <= wpos < 0x800,
        bit >= 0,
        data >= 0,
        spec_pb_lzss_run(src, expected, window, wpos, bit, mask, data, out, codes) is Ok,
    ensures
        ({
            let y = spec_pb_lzss_run(src, expected, window, wpos, bit, mask, data, out, codes)->Ok_0;
            y.len() >= out.len() && y.subrange(0, out.len() as int) == out
        }),
    decreases expected - out.len(),
{
    if out.len() >= expected {
    } else {
        let next_mask: u8 = if mask >> 1 == 0 { 0x80 } else { mask >> 1 };
        let next_bit = if mask >> 1 == 0 { bit + 1 } else { bit };
        let y = spec_pb_lzss_run(src, expected, window, wpos, bit, mask, data, out, codes)->Ok_0;
        if src[bit] & mask == 0 {
            let byte = src[data];
            let out2 = out.push(byte);
            lemma_pb_lzss_run_keeps_output(src, expected, window.update(wpos, byte), (wpos + 1) % 0x800, next_bit,
                next_mask, data + 1, out2, codes);
            assert(y.subrange(0, out.len() as int) == y.subrange(0, out2.len() as int).subrange(0, out.len() as int));
            assert(out2.subrange(0, out.len() as int) == out);
        } else {
            let value = spec_le_u16(src, data);
            let count = value % 32 + 3;
            let copied = spec_lzss_copy(window, wpos, out, (value / 32) as int, count as nat);
            lemma_lzss_copy(window, wpos, out, (value / 32) as int, count as nat);
            lemma_pb_lzss_run_keeps_output(src, expected, copied.0, copied.1, next_bit, next_mask, data + 2,
                copied.2, codes);
            assert(y.subrange(0, out.len() as int)
                == y.subrange(0, copied.2.len() as int).subrange(0, out.len() as int));
        }
    }
}

/// Two PB LZSS runs from one state that both succeed agree on the shorter
/// output: the run with the smaller target returns a prefix of the other.
proof fn lemma_pb_lzss_run_prefix(src: Seq<u8>, n: nat, m: nat, window: Seq<u8>, wpos: int, bit: int,
    mask: u8, data: int, out: Seq<u8>, codes: LzssCodes)
    requires
        window.len() == 0x800,
        0 <= wpos < 0x800,
        bit >= 0,
        data >= 0,
        out.len() <= n <= m,
        spec_pb_lzss_run(src, n, window, wpos, bit, mask, data, out, codes) is Ok,
        spec_pb_lzss_run(src, m, window, wpos, bit, mask, data, out, codes) is Ok,
    ensures
        spec_pb_lzss_run(src, n, window, wpos, bit, mask, data, out, codes)->Ok_0
            == spec_pb_lzss_run(src, m, window, wpos, bit, mask, data, out, codes)->Ok_0.subrange(0, n as int),
    decreases n - out.len(),
{
    if out.len() >= n {
        lemma_pb_lzss_run_keeps_output(src, m, window, wpos, bit, mask, data, out, codes);
    } else {
        let next_mask: u8 = if mask >> 1 == 0 { 0x80 } else { mask >> 1 };
        let next_bit = if mask >> 1 == 0 { bit + 1 } else { bit };
        if src[bit] & mask == 0 {
            let byte = src[data];
            lemma_pb_lzss_run_prefix(src, n, m, window.update(wpos, byte), (wpos + 1) % 0x800, next_bit,
                next_mask, data + 1, out.push(byte), codes);
        } else {
            let value = spec_le_u16(src, data);
            let count = value % 32 + 3;
            let copied = spec_lzss_copy(window, wpos, out, (value / 32) as int, count as nat);
            lemma_lzss_copy(window, wpos, out, (value / 32) as int, count as nat);
            lemma_pb_lzss_run_prefix(src, n, m, copied.0, copied.1, next_bit, next_mask, data + 2, copied.2, codes);
        }
    }
}

/// Decoding one PB LZSS stream into fewer bytes gives a prefix of decoding it
/// into more: where both succeed, the shorter output is the start of the
/// longer one.
pub proof fn lemma_pb_lzss_prefix(src: Seq<u8>, bit: nat, data: nat, n: nat, m: nat)
    requires
        n <= m,
        spec_decode_pb_lzss(src, bit as int, data as int, n) is Ok,
        spec_decode_pb_lzss(src, bit as int, data as int, m) is Ok,
    ensures
        spec_decode_pb_lzss(src, bit as int, data as int, n)->Ok_0
            == spec_decode_pb_lzss(src, bit as int, data as int, m)->Ok_0.subrange(0, n as int),
{
    lemma_pb_lzss_run_prefix(src, n, m, Seq::new(0x800, |i: int| 0u8), 0x7de, bit as int, 0x80, data as int,
        Seq::empty(), pb_lzss_codes());
}

/// Decodes the bounded PB LZSS variant into exactly `output_bytes` bytes;
/// truncated streams and references past the output are rejected.
pub fn decode_pb_lzss(source: &[u8], bit_offset: usize, data_offset: usize, output_bytes: usize)
    -> (r: Result<Vec<u8>, CmvsError>)
    ensures
        match r {
            Ok(v) => spec_decode_pb_lzss(source@, bit_offset as int, data_offset as int, output_bytes as nat)
                == Ok::<Seq<u8>, CmvsError>(v@) && v@.len() == output_bytes,
            Err(e) => spec_decode_pb_lzss(source@, bit_offset as int, data_offset as int, output_bytes as nat)
                == Err::<Seq<u8>, CmvsError>(e),
        },
{
    if output_bytes > MAX_DECODED_BYTES {
        return Err(CmvsError::PbLzssSize);
    }
    let codes = LzssCodes { control: CmvsError::PbLzssControl, data: CmvsError::PbLzssData, output: CmvsError::PbLzssOutput };
    pb_lzss_stream(source, bit_offset, data_offset, output_bytes, codes)
}

/// Decodes a PB LZSS stream into exactly `output_bytes` bytes, failing with
/// the given codes.
pub fn pb_lzss_stream(source: &[u8], bit_offset: usize, data_offset: usize, output_bytes: usize, codes: LzssCodes)
    -> (r: Result<Vec<u8>, CmvsError>)
    ensures
        match r {
            Ok(v) => spec_pb_lzss_stream(source@, bit_offset as int, data_offset as int, output_bytes as nat, codes)
                == Ok::<Seq<u8>, CmvsError>(v@) && v@.len() == output_bytes,
            Err(e) => spec_pb_lzss_stream(source@, bit_offset as int, data_offset as int, output_bytes as nat, codes)
                == Err::<Seq<u8>, CmvsError>(e),
        },
{
    let mut window: Vec<u8> = vec![0u8; LZSS_FRAME_BYTES];
    assert(window@ =~= Seq::new(0x800, |i: int| 0u8));
    let mut wpos: usize = LZSS_INITIAL_OFFSET;
    let mut bit = bit_offset;
    let mut mask: u8 = 0x80;
    let mut data = data_offset;
    let mut output: Vec<u8> = Vec::new();
    let len = source.len();
    while output.len() < output_bytes
        invariant
            window@.len() == 0x800,
            wpos < 0x800,
            output@.len() <= output_bytes,
            len == source@.len(),
            spec_pb_lzss_run(source@, output_bytes as nat, window@, wpos as int, bit as int, mask, data as int, output@, codes)
                == spec_pb_lzss_stream(source@, bit_offset as int, data_offset as int, output_bytes as nat, codes),
        decreases output_bytes - output@.len(),
    {
        if bit >= len {
            return Err(codes.control);
        }
        let control = source[bit];
        if control & mask == 0 {
            if data >= len {
                return Err(codes.data);
            }
            let byte = source[data];
            data = data + 1;
            output.push(byte);
            window.set(wpos, byte);
            wpos = (wpos + 1) % LZSS_FRAME_BYTES;
        } else {
            if data > len || len - data < 2 {
                return Err(codes.data);
            }
            let value = read_u16_at(source, data);
            data = data + 2;
            let count = (value % 32) as usize + 3;
            if count > output_bytes - output.len() {
                return Err(codes.output);
            }
            let from = (value / 32) as usize;
            let ghost w0 = window@;
            let ghost p0 = wpos as int;
            let ghost o0 = output@;
            let mut i: usize = 0;
            while i < count
                invariant
                    i <= count,
                    count <= 34,
                    from < 0x800,
                    window@.len() == 0x800,
                    wpos < 0x800,
                    output@.len() == o0.len() + i,
                    spec_lzss_copy(window@, wpos as int, output@, from + i, (count - i) as nat)
                        == spec_lzss_copy(w0, p0, o0, from as int, count as nat),
                decreases count - i,
            {
                let b = window[(from + i) % LZSS_FRAME_BYTES];
                output.push(b);
                window.set(wpos, b);
                wpos = (wpos + 1) % LZSS_FRAME_BYTES;
                i = i + 1;
            }
            proof {
                lemma_lzss_copy(w0, p0, o0, from as int, count as nat);
            }
        }
        if mask >> 1 == 0 {
            mask = 0x80;
            bit = bit + 1;
        } else {
            mask = mask >> 1;
        }
    }
    Ok(output)
}

} // verus!
