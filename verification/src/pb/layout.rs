//! Pixel layouts shared by the PB decoders: channel counts, byte budgets,
//! stream offsets, BGR to RGBA packing and the planar block order.
use vstd::prelude::*;
use crate::error::CmvsError;
use crate::bytes::spec_le_u32;
use super::{PbMetadata, PbDecodedImage, MAX_DECODED_BYTES, spec_parse_pb2_metadata, parse_pb2_metadata, read_u32_at,
    image_fits};

verus! {

/// The PB2 metadata of `s`, which must be of type `image_type`.
pub open spec fn spec_require_pb2_variant(s: Seq<u8>, image_type: u16) -> Result<PbMetadata, CmvsError> {
    match spec_parse_pb2_metadata(s) {
        Err(e) => Err(e),
        Ok(m) => if m.image_type != image_type { Err(CmvsError::Pb2Variant) } else { Ok(m) },
    }
}

/// Reads PB2 metadata and checks its image type.
pub fn require_pb2_variant(source: &[u8], image_type: u16) -> (r: Result<PbMetadata, CmvsError>)
    ensures
        r == spec_require_pb2_variant(source@, image_type),
{
    let metadata = parse_pb2_metadata(source)?;
    if metadata.image_type != image_type {
        return Err(CmvsError::Pb2Variant);
    }
    Ok(metadata)
}

/// The channel count of 24-bit and 32-bit pixels.
pub open spec fn spec_pixel_channels(m: PbMetadata, code: CmvsError) -> Result<usize, CmvsError> {
    let c = m.bits_per_pixel / 8;
    if c == 3 || c == 4 { Ok(c as usize) } else { Err(code) }
}

/// The PB2 channel count: 3 or 4.
pub fn pb2_channels(metadata: PbMetadata) -> (r: Result<usize, CmvsError>)
    ensures
        r == spec_pixel_channels(metadata, CmvsError::Pb2Bpp),
{
    let c = (metadata.bits_per_pixel / 8) as usize;
    if c == 3 || c == 4 { Ok(c) } else { Err(CmvsError::Pb2Bpp) }
}

/// A PB2 stream offset, which must be present.
pub fn pb2_offset(offset: Option<u32>, message: &'static str) -> (r: Result<usize, CmvsError>)
    ensures
        r == (match offset { Some(v) => Ok::<usize, CmvsError>(v as usize), None => Err(CmvsError::Pb2Layout) }),
{
    let _ = message;
    match offset {
        Some(v) => Ok(v as usize),
        None => Err(CmvsError::Pb2Layout),
    }
}

/// `width * height * channels` bytes, within the decoder budget.
pub open spec fn spec_checked_image_bytes(width: int, height: int, channels: int, code: CmvsError) -> Result<int, CmvsError> {
    if width * height * channels > MAX_DECODED_BYTES { Err(code) } else { Ok(width * height * channels) }
}

/// The byte count of an image, which must stay within 256 MiB.
pub fn checked_image_bytes(width: usize, height: usize, channels: usize, code: CmvsError) -> (r: Result<usize, CmvsError>)
    ensures
        match r {
            Ok(n) => spec_checked_image_bytes(width as int, height as int, channels as int, code) == Ok::<int, CmvsError>(n as int),
            Err(e) => spec_checked_image_bytes(width as int, height as int, channels as int, code) == Err::<int, CmvsError>(e),
        },
{
    let w = width as u128;
    let h = height as u128;
    let c = channels as u128;
    assert(w * h <= 0xffff_ffff_ffff_ffff * 0xffff_ffff_ffff_ffff) by (nonlinear_arith)
        requires
            w <= 0xffff_ffff_ffff_ffff,
            h <= 0xffff_ffff_ffff_ffff;
    if w != 0 && h != 0 && c > (MAX_DECODED_BYTES as u128) {
        assert(w * h * c > MAX_DECODED_BYTES) by (nonlinear_arith)
            requires
                w >= 1,
                h >= 1,
                c > MAX_DECODED_BYTES;
        return Err(code);
    }
    if w * h > MAX_DECODED_BYTES as u128 && c != 0 {
        assert(w * h * c > MAX_DECODED_BYTES) by (nonlinear_arith)
            requires
                w * h > MAX_DECODED_BYTES,
                c >= 1;
        return Err(code);
    }
    assert(w * h * c <= 268435456u128 * 268435456u128) by (nonlinear_arith)
        requires
            w * h <= 268435456 || c == 0,
            c <= 268435456 || w == 0 || h == 0;
    let n = w * h * c;
    if n > MAX_DECODED_BYTES as u128 {
        return Err(code);
    }
    Ok(n as usize)
}

/// The little-endian word at `offset` of a PB source.
pub open spec fn spec_pb_u32(s: Seq<u8>, offset: int) -> Result<u32, CmvsError> {
    if 0 <= offset && offset + 4 <= s.len() { Ok(spec_le_u32(s, offset)) } else { Err(CmvsError::PbHeader) }
}

/// Reads a PB3 stream offset.
pub fn pb3_offset(source: &[u8], offset: usize) -> (r: Result<usize, CmvsError>)
    ensures
        match r {
            Ok(v) => spec_pb_u32(source@, offset as int) == Ok::<u32, CmvsError>(v as u32) && v as u32 as usize == v,
            Err(e) => spec_pb_u32(source@, offset as int) == Err::<u32, CmvsError>(e),
        },
{
    if offset > source.len() || source.len() - offset < 4 {
        return Err(CmvsError::PbHeader);
    }
    Ok(read_u32_at(source, offset) as usize)
}

/// The offset of channel `channel`'s stream in a PB3 channel table at
/// `table`: the table's own size plus the sizes of the earlier channels.
pub open spec fn spec_pb3_channel_offset(s: Seq<u8>, table: int, channels: int, channel: nat) -> Result<int, CmvsError>
    decreases channel,
{
    if channel == 0 {
        if channels * 4 > usize::MAX { Err(CmvsError::Pb3Layout) } else { Ok(channels * 4) }
    } else {
        match spec_pb3_channel_offset(s, table, channels, (channel - 1) as nat) {
            Err(e) => Err(e),
            Ok(prev) => {
                let entry = table + (channel - 1) * 4;
                if entry > usize::MAX {
                    Err(CmvsError::Pb3Layout)
                } else {
                    match spec_pb_u32(s, entry) {
                        Err(e) => Err(e),
                        Ok(v) => if prev + v > usize::MAX { Err(CmvsError::Pb3Layout) } else { Ok(prev + v) },
                    }
                }
            },
        }
    }
}

proof fn lemma_channel_offset_err(s: Seq<u8>, table: int, channels: int, k: nat, n: nat, e: CmvsError)
    requires
        k <= n,
        spec_pb3_channel_offset(s, table, channels, k) == Err::<int, CmvsError>(e),
    ensures
        spec_pb3_channel_offset(s, table, channels, n) == Err::<int, CmvsError>(e),
    decreases n - k,
{
    if k < n {
        lemma_channel_offset_err(s, table, channels, k, (n - 1) as nat, e);
    }
}

/// Sums the channel table entries before `channel`.
pub fn pb3_channel_offset(source: &[u8], table: usize, channels: usize, channel: usize) -> (r: Result<usize, CmvsError>)
    requires
        channel <= 4,
        channels <= 4,
    ensures
        match r {
            Ok(v) => spec_pb3_channel_offset(source@, table as int, channels as int, channel as nat) == Ok::<int, CmvsError>(v as int),
            Err(e) => spec_pb3_channel_offset(source@, table as int, channels as int, channel as nat) == Err::<int, CmvsError>(e),
        },
{
    let mut offset = channels * 4;
    let mut index: usize = 0;
    while index < channel
        invariant
            index <= channel,
            channel <= 4,
            channels <= 4,
            spec_pb3_channel_offset(source@, table as int, channels as int, index as nat) == Ok::<int, CmvsError>(offset as int),
        decreases channel - index,
    {
        if table > usize::MAX - index * 4 {
            proof { lemma_channel_offset_err(source@, table as int, channels as int, (index + 1) as nat, channel as nat, CmvsError::Pb3Layout); }
            return Err(CmvsError::Pb3Layout);
        }
        let entry = table + index * 4;
        let v = match pb3_offset(source, entry) {
            Ok(v) => v,
            Err(e) => {
                proof { lemma_channel_offset_err(source@, table as int, channels as int, (index + 1) as nat, channel as nat, e); }
                return Err(e);
            },
        };
        if offset > usize::MAX - v {
            proof { lemma_channel_offset_err(source@, table as int, channels as int, (index + 1) as nat, channel as nat, CmvsError::Pb3Layout); }
            return Err(CmvsError::Pb3Layout);
        }
        offset = offset + v;
        index = index + 1;
    }
    Ok(offset)
}

/// RGBA bytes of pixels stored as `channels` bytes each in BGR(A) order;
/// three-channel pixels become opaque.
pub open spec fn bgr_to_rgba_bytes(packed: Seq<u8>, channels: nat) -> Seq<u8> {
    Seq::new(4 * (packed.len() / channels), |i: int|
        if i % 4 < 3 {
            packed[(i / 4) * channels + 2 - i % 4]
        } else if channels == 4 {
            packed[(i / 4) * channels + 3]
        } else {
            0xffu8
        })
}

/// The image of packed BGR(A) pixels, which must be exactly `width` by
/// `height` pixels.
pub open spec fn spec_packed_bgr_to_rgba(packed: Seq<u8>, width: u16, height: u16, channels: nat, code: CmvsError)
    -> Result<(u32, u32, Seq<u8>), CmvsError>
{
    if packed.len() != width * height * channels {
        Err(code)
    } else {
        Ok((width as u32, height as u32, bgr_to_rgba_bytes(packed, channels)))
    }
}

pub proof fn lemma_quad(p: int, k: int)
    requires
        0 <= p,
        0 <= k < 4,
    ensures
        (4 * p + k) / 4 == p,
        (4 * p + k) % 4 == k,
{
    vstd::arithmetic::div_mod::lemma_fundamental_div_mod_converse_div(4 * p + k, 4, p, k);
    vstd::arithmetic::div_mod::lemma_fundamental_div_mod_converse_mod(4 * p + k, 4, p, k);
}

/// Converts BGR(A) pixels of `channels` (3 or 4) bytes to RGBA.
pub fn bgr_pixels_to_rgba(packed: &Vec<u8>, channels: usize) -> (r: Vec<u8>)
    requires
        channels == 3 || channels == 4,
    ensures
        r@ == bgr_to_rgba_bytes(packed@, channels as nat),
{
    let len = packed.len();
    let n = len / channels;
    let mut out: Vec<u8> = Vec::new();
    let mut p: usize = 0;
    while p < n
        invariant
            p <= n,
            n == packed@.len() / (channels as nat),
            channels == 3 || channels == 4,
            len == packed@.len(),
            out@.len() == 4 * p,
            forall|i: int| 0 <= i < 4 * p ==> #[trigger] out@[i] == bgr_to_rgba_bytes(packed@, channels as nat)[i],
        decreases n - p,
    {
        assert(p * channels + channels <= packed@.len()) by (nonlinear_arith)
            requires
                p < n,
                n == packed@.len() / (channels as nat),
                channels > 0;
        let o = p * channels;
        out.push(packed[o + 2]);
        out.push(packed[o + 1]);
        out.push(packed[o]);
        if channels == 4 {
            out.push(packed[o + 3]);
        } else {
            out.push(0xff);
        }
        assert forall|i: int| 0 <= i < 4 * (p + 1) implies #[trigger] out@[i] == bgr_to_rgba_bytes(packed@, channels as nat)[i] by {
            if i >= 4 * p {
                lemma_quad(p as int, i - 4 * p);
            }
        }
        p = p + 1;
    }
    assert(out@ =~= bgr_to_rgba_bytes(packed@, channels as nat));
    out
}

/// Converts packed BGR(A) pixels to an RGBA image of `width` by `height`.
pub fn packed_bgr_to_rgba(packed: Vec<u8>, width: u16, height: u16, channels: usize, code: CmvsError)
    -> (r: Result<PbDecodedImage, CmvsError>)
    requires
        channels == 3 || channels == 4,
    ensures
        match r {
            Ok(img) => spec_packed_bgr_to_rgba(packed@, width, height, channels as nat, code) == Ok::<(u32, u32, Seq<u8>), CmvsError>(img@),
            Err(e) => spec_packed_bgr_to_rgba(packed@, width, height, channels as nat, code) == Err::<(u32, u32, Seq<u8>), CmvsError>(e),
        },
{
    let w = width as usize;
    let h = height as usize;
    assert(w * h <= 0xffff * 0xffff) by (nonlinear_arith)
        requires
            w <= 0xffff,
            h <= 0xffff;
    if packed.len() as u64 != (w as u64) * (h as u64) * (channels as u64) {
        return Err(code);
    }
    let rgba = bgr_pixels_to_rgba(&packed, channels);
    assert(rgba@.len() == w * h * 4) by (nonlinear_arith)
        requires
            rgba@.len() == 4 * (packed@.len() / (channels as nat)),
            packed@.len() == w * h * channels,
            channels > 0;
    match PbDecodedImage::from_raw(width as u32, height as u32, rgba) {
        Some(img) => Ok(img),
        None => Err(code),
    }
}

/// RGBA bytes of four-byte BGRA pixels; with three channels the stored
/// alpha is replaced by opaque.
pub open spec fn bgra_to_rgba_bytes(bgra: Seq<u8>, channels: int) -> Seq<u8> {
    Seq::new(4 * (bgra.len() / 4), |i: int|
        if i % 4 < 3 {
            bgra[(i / 4) * 4 + 2 - i % 4]
        } else if channels == 4 {
            bgra[(i / 4) * 4 + 3]
        } else {
            0xffu8
        })
}

/// The image of BGRA pixels of `width` by `height`.
pub open spec fn spec_bgra_to_rgba(bgra: Seq<u8>, width: u16, height: u16, channels: int) -> Result<(u32, u32, Seq<u8>), CmvsError> {
    let rgba = bgra_to_rgba_bytes(bgra, channels);
    if !image_fits(width as u32, height as u32, rgba.len()) {
        Err(CmvsError::Pb3Pixels)
    } else {
        Ok((width as u32, height as u32, rgba))
    }
}

/// Converts BGRA pixels to an RGBA image.
pub fn bgra_to_rgba(bgra: Vec<u8>, width: u16, height: u16, channels: usize) -> (r: Result<PbDecodedImage, CmvsError>)
    requires
        bgra@.len() <= MAX_DECODED_BYTES,
    ensures
        match r {
            Ok(img) => spec_bgra_to_rgba(bgra@, width, height, channels as int) == Ok::<(u32, u32, Seq<u8>), CmvsError>(img@),
            Err(e) => spec_bgra_to_rgba(bgra@, width, height, channels as int) == Err::<(u32, u32, Seq<u8>), CmvsError>(e),
        },
{
    let n = bgra.len() / 4;
    let mut out: Vec<u8> = Vec::new();
    let mut p: usize = 0;
    while p < n
        invariant
            p <= n,
            n == bgra@.len() / 4,
            bgra@.len() <= MAX_DECODED_BYTES,
            out@.len() == 4 * p,
            forall|i: int| 0 <= i < 4 * p ==> #[trigger] out@[i] == bgra_to_rgba_bytes(bgra@, channels as int)[i],
        decreases n - p,
    {
        let o = 4 * p;
        out.push(bgra[o + 2]);
        out.push(bgra[o + 1]);
        out.push(bgra[o]);
        if channels == 4 {
            out.push(bgra[o + 3]);
        } else {
            out.push(255);
        }
        assert forall|i: int| 0 <= i < 4 * (p + 1) implies #[trigger] out@[i] == bgra_to_rgba_bytes(bgra@, channels as int)[i] by {
            if i >= 4 * p {
                lemma_quad(p as int, i - 4 * p);
            }
        }
        p = p + 1;
    }
    assert(out@ =~= bgra_to_rgba_bytes(bgra@, channels as int));
    match PbDecodedImage::from_raw(width as u32, height as u32, out) {
        Some(img) => Ok(img),
        None => Err(CmvsError::Pb3Pixels),
    }
}

} // verus!
