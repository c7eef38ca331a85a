//! The JBP image stream shared by PB2 type 4 and PB3 types 2 and 3: a
//! Huffman-coded, JPEG-like 4:2:0 block transform with an optional
//! run-length alpha stream.
use vstd::prelude::*;
use crate::error::CmvsError;
use crate::bytes::{spec_le_u16, spec_le_u32, read_le_u16, read_le_u32};
use crate::pb::PbDecodedImage;
use self::decoder::{JbpDecoder, JbpLayoutV, spec_jbp_decode};
use self::color::{spec_apply_alpha, apply_alpha, lemma_alpha_runs_len};

pub mod bitstream;
pub mod huffman;
pub mod color;
pub mod decoder;

verus! {

/// The largest aligned image the decoder takes, in pixels.
pub const MAX_PIXELS: usize = 0x400_0000;

/// The largest decoded buffer, in bytes.
pub const MAX_DECODED_BYTES: usize = 0x1000_0000;

/// The fixed JBP header size.
pub const JBP_HEADER_BYTES: usize = 0x24;

/// The size of the Huffman and quantization table block.
pub const JBP_TABLE_BYTES: usize = 0x110;

/// Where a JBP stream ends, and where its alpha stream lies, if any. The
/// container owns these bounds.
#[derive(Debug, Clone, Copy)]
pub struct JbpBounds {
    pub payload_end: usize,
    /// The alpha stream as a `(start, end)` byte range.
    pub alpha: Option<(usize, usize)>,
}

/// Fails with `code` unless `source[offset..offset + length]` exists.
pub fn checked_range(source: &[u8], offset: usize, length: usize, code: CmvsError) -> (r: Result<(), CmvsError>)
    ensures
        r is Ok <==> offset + length <= source@.len(),
        r is Err ==> r == Err::<(), CmvsError>(code),
{
    if offset > source.len() || source.len() - offset < length {
        return Err(code);
    }
    Ok(())
}

/// Reads a little-endian `u16` of the stream.
pub fn read_u16(source: &[u8], offset: usize) -> (r: Result<u16, CmvsError>)
    ensures
        match r {
            Ok(v) => offset + 2 <= source@.len() && v == spec_le_u16(source@, offset as int),
            Err(e) => e == CmvsError::JbpLayout && offset + 2 > source@.len(),
        },
{
    match read_le_u16(source, offset) {
        Some(v) => Ok(v),
        None => Err(CmvsError::JbpLayout),
    }
}

/// Reads a little-endian `u32` of the stream as an offset or size.
pub fn read_u32(source: &[u8], offset: usize) -> (r: Result<usize, CmvsError>)
    ensures
        match r {
            Ok(v) => offset + 4 <= source@.len() && v == spec_le_u32(source@, offset as int),
            Err(e) => e == CmvsError::JbpLayout && offset + 4 > source@.len(),
        },
{
    match read_le_u32(source, offset) {
        Some(v) => Ok(v as usize),
        None => Err(CmvsError::JbpLayout),
    }
}

/// `value` rounded up to a multiple of `multiple`.
pub open spec fn spec_align(value: int, multiple: int) -> int {
    ((value + multiple - 1) / multiple) * multiple
}

proof fn lemma_align_mask(v: usize)
    by (bit_vector)
    ensures
        v & !7usize == v - v % 8,
        v & !15usize == v - v % 16,
        v & !31usize == v - v % 32,
{
}

/// Rounds `value` up to a multiple of the power of two `multiple`.
pub fn align(value: usize, multiple: usize) -> (r: Result<usize, CmvsError>)
    requires
        multiple == 8 || multiple == 16 || multiple == 32,
    ensures
        match r {
            Ok(v) => value + multiple - 1 <= usize::MAX && v == spec_align(value as int, multiple as int),
            Err(e) => e == CmvsError::JbpDimensions && value + multiple - 1 > usize::MAX,
        },
{
    match value.checked_add(multiple - 1) {
        Some(v) => {
            proof {
                lemma_align_mask(v);
            }
            Ok(v & !(multiple - 1))
        },
        None => Err(CmvsError::JbpDimensions),
    }
}

/// The block-aligned size for a sampling layout below 3.
pub open spec fn spec_aligned_size(w: int, h: int, sampling: u32) -> (int, int) {
    if sampling == 0 {
        (spec_align(w, 8), spec_align(h, 8))
    } else if sampling == 1 {
        (spec_align(w, 16), spec_align(h, 16))
    } else {
        (spec_align(w, 32), spec_align(h, 16))
    }
}

/// Aligns a 16-bit width and height to the blocks of a sampling layout.
pub fn aligned_size(width: usize, height: usize, sampling: u32) -> (r: (usize, usize))
    requires
        width <= 0xffff,
        height <= 0xffff,
        sampling < 3,
    ensures
        r.0 == spec_aligned_size(width as int, height as int, sampling).0,
        r.1 == spec_aligned_size(width as int, height as int, sampling).1,
        8 <= r.0 <= 65567 || width == 0,
        8 <= r.1 <= 65567 || height == 0,
        r.0 <= 65567,
        r.1 <= 65567,
{
    let (w, h) = if sampling == 0 {
        (align(width, 8), align(height, 8))
    } else if sampling == 1 {
        (align(width, 16), align(height, 16))
    } else {
        (align(width, 32), align(height, 16))
    };
    match (w, h) {
        (Ok(w), Ok(h)) => (w, h),
        _ => (0, 0),
    }
}

/// The header check of a JBP stream at `offset` whose bit stream ends at
/// `end`.
pub open spec fn spec_jbp_layout(s: Seq<u8>, offset: int, end: int) -> Result<JbpLayoutV, CmvsError> {
    if offset + 0x24 > s.len() {
        Err(CmvsError::JbpHeader)
    } else {
        let table = spec_le_u32(s, offset + 4) as int;
        if offset + table > usize::MAX {
            Err(CmvsError::JbpLayout)
        } else if offset + table + 0x110 > s.len() {
            Err(CmvsError::JbpTable)
        } else {
            let format = spec_le_u32(s, offset + 8);
            let w = spec_le_u16(s, offset + 0x10) as int;
            let h = spec_le_u16(s, offset + 0x12) as int;
            let sampling = (format >> 28u32) & 3u32;
            if w == 0 || h == 0 {
                Err(CmvsError::JbpDimensions)
            } else if sampling == 3 {
                Err(CmvsError::JbpFormat)
            } else {
                let (aw, ah) = spec_aligned_size(w, h, sampling);
                let bits = offset + table + 0x110;
                if aw * ah > 0x400_0000 {
                    Err(CmvsError::JbpDimensions)
                } else if aw * 4 * ah > 0x1000_0000 {
                    Err(CmvsError::JbpOutput)
                } else if end > s.len() || end < bits {
                    Err(CmvsError::JbpBits)
                } else {
                    Ok(JbpLayoutV {
                        data_offset: offset + table,
                        format,
                        aligned_height: ah,
                        stride: aw * 4,
                        blocks_x: aw / 16,
                        blocks_y: ah / 16,
                        bitstream_bytes: end - bits,
                    })
                }
            }
        }
    }
}

/// A `width` by `height` window of rows `stride` bytes apart, four bytes
/// per pixel.
pub open spec fn spec_crop(bgra: Seq<u8>, stride: int, width: int, height: int) -> Seq<u8> {
    Seq::new((4 * width * height) as nat, |i: int| bgra[(i / (4 * width)) * stride + i % (4 * width)])
}

/// Every pixel made opaque.
pub open spec fn opaque_alpha(px: Seq<u8>) -> Seq<u8> {
    Seq::new(px.len(), |i: int| if i % 4 == 3 { 255u8 } else { px[i] })
}

/// The first and third byte of every pixel exchanged.
pub open spec fn swap_red_blue(px: Seq<u8>) -> Seq<u8> {
    Seq::new(px.len(), |i: int| if i % 4 == 0 { px[i + 2] } else if i % 4 == 2 { px[i - 2] } else { px[i] })
}

/// Where the bit stream ends: at the alpha stream of a 32-bit image that
/// has one, else at the payload end.
pub open spec fn spec_bitstream_end(s: Seq<u8>, bits_per_pixel: u16, b: JbpBounds) -> Result<int, CmvsError> {
    if bits_per_pixel == 32 && b.alpha is Some {
        let (start, end) = b.alpha->0;
        if start <= end && end <= s.len() {
            Ok(start as int)
        } else {
            Err(CmvsError::JbpLayout)
        }
    } else {
        Ok(b.payload_end as int)
    }
}

/// The RGBA image of a JBP stream at `jbp_offset`, cropped to the
/// container's `width` by `height`.
pub open spec fn spec_decode_jbp(s: Seq<u8>, jbp_offset: int, width: u16, height: u16, bits_per_pixel: u16, b: JbpBounds)
    -> Result<(u32, u32, Seq<u8>), CmvsError>
{
    if bits_per_pixel != 24 && bits_per_pixel != 32 {
        Err(CmvsError::JbpBpp)
    } else if b.payload_end > s.len() || b.payload_end < jbp_offset {
        Err(CmvsError::JbpLayout)
    } else {
        match spec_bitstream_end(s, bits_per_pixel, b) {
            Err(e) => Err(e),
            Ok(end) => match spec_jbp_layout(s, jbp_offset, end) {
                Err(e) => Err(e),
                Ok(l) => match spec_jbp_decode(s, l) {
                    Err(e) => Err(e),
                    Ok(bgra) => spec_finish_image(s, bgra, l.stride, width, height, bits_per_pixel, b),
                },
            },
        }
    }
}

/// The cropped, alpha-completed RGBA image of decoded blue-green-red rows.
pub open spec fn spec_finish_image(s: Seq<u8>, bgra: Seq<u8>, stride: int, width: u16, height: u16, bits_per_pixel: u16,
    b: JbpBounds) -> Result<(u32, u32, Seq<u8>), CmvsError>
{
    let w = width as int;
    let h = height as int;
    if 4 * w * h > usize::MAX || (h > 0 && (h - 1) * stride + 4 * w > bgra.len()) {
        Err(CmvsError::JbpOutput)
    } else {
        let crop = spec_crop(bgra, stride, w, h);
        let range = b.alpha->0;
        let alpha = if bits_per_pixel == 32 && b.alpha is Some {
            spec_apply_alpha(s, range.0 as int, range.1 as int, crop)
        } else {
            Some(opaque_alpha(crop))
        };
        match alpha {
            None => Err(CmvsError::JbpAlpha),
            Some(px) => Ok((width as u32, height as u32, swap_red_blue(px))),
        }
    }
}

/// Copies the `width` by `height` window out of rows `stride` bytes apart.
fn crop_rows(bgra: &Vec<u8>, stride: usize, width: usize, height: usize) -> (r: Vec<u8>)
    requires
        width <= 0xffff,
        height <= 0xffff,
        4 * width * height <= usize::MAX,
        height > 0 ==> (height - 1) * stride + 4 * width <= bgra@.len(),
    ensures
        r@ == spec_crop(bgra@, stride as int, width as int, height as int),
{
    let row_bytes = width * 4;
    assert(row_bytes * height == 4 * width * height) by (nonlinear_arith)
        requires
            row_bytes == width * 4;
    let len = row_bytes * height;
    let mut cropped: Vec<u8> = vec![0u8; len];
    let blen = bgra.len();
    let ghost target = spec_crop(bgra@, stride as int, width as int, height as int);
    let mut row: usize = 0;
    while row < height
        invariant
            row <= height,
            row_bytes == width * 4,
            len == row_bytes * height,
            blen == bgra@.len(),
            cropped@.len() == len,
            height > 0 ==> (height - 1) * stride + 4 * width <= bgra@.len(),
            target == spec_crop(bgra@, stride as int, width as int, height as int),
            forall|i: int| 0 <= i < row * row_bytes ==> #[trigger] cropped@[i] == target[i],
        decreases height - row,
    {
        assert(row * stride + row_bytes <= bgra@.len() && row * row_bytes + row_bytes <= len) by (nonlinear_arith)
            requires
                row < height,
                row_bytes == width * 4,
                len == row_bytes * height,
                (height - 1) * stride + 4 * width <= bgra@.len();
        let source_start = row * stride;
        let destination_start = row * row_bytes;
        let mut j: usize = 0;
        while j < row_bytes
            invariant
                row < height,
                j <= row_bytes,
                row_bytes == width * 4,
                len == row_bytes * height,
                cropped@.len() == len,
                source_start == row * stride,
                blen == bgra@.len(),
                destination_start == row * row_bytes,
                source_start + row_bytes <= bgra@.len(),
                destination_start + row_bytes <= len,
                target == spec_crop(bgra@, stride as int, width as int, height as int),
                forall|i: int| 0 <= i < row * row_bytes + j ==> #[trigger] cropped@[i] == target[i],
            decreases row_bytes - j,
        {
            proof {
                vstd::arithmetic::div_mod::lemma_fundamental_div_mod_converse(
                    destination_start + j, row_bytes as int, row as int, j as int);
            }
            cropped.set(destination_start + j, bgra[source_start + j]);
            j = j + 1;
        }
        assert(row * row_bytes + row_bytes == (row + 1) * row_bytes) by (nonlinear_arith);
        row = row + 1;
    }
    assert(cropped@ =~= target);
    cropped
}

/// Makes every pixel opaque.
fn fill_opaque(pixels: &mut Vec<u8>)
    requires
        old(pixels)@.len() % 4 == 0,
    ensures
        final(pixels)@ == opaque_alpha(old(pixels)@),
{
    let n = pixels.len();
    let count = n / 4;
    let mut k: usize = 0;
    while k < count
        invariant
            k <= count,
            n == pixels@.len(),
            count * 4 == pixels@.len(),
            pixels@.len() == old(pixels)@.len(),
            forall|i: int| 0 <= i < pixels@.len() ==> #[trigger] pixels@[i]
                == (if i < 4 * k && i % 4 == 3 { 255u8 } else { old(pixels)@[i] }),
        decreases count - k,
    {
        pixels.set(4 * k + 3, 255);
        k = k + 1;
    }
    assert(pixels@ =~= opaque_alpha(old(pixels)@));
}

/// Exchanges the first and third byte of every pixel.
fn swap_channels(pixels: &mut Vec<u8>)
    requires
        old(pixels)@.len() % 4 == 0,
    ensures
        final(pixels)@ == swap_red_blue(old(pixels)@),
{
    let n = pixels.len();
    let count = n / 4;
    let mut k: usize = 0;
    while k < count
        invariant
            k <= count,
            n == pixels@.len(),
            count * 4 == pixels@.len(),
            pixels@.len() == old(pixels)@.len(),
            forall|i: int| 0 <= i < pixels@.len() ==> #[trigger] pixels@[i]
                == (if i < 4 * k { swap_red_blue(old(pixels)@)[i] } else { old(pixels)@[i] }),
        decreases count - k,
    {
        let first = pixels[4 * k];
        let third = pixels[4 * k + 2];
        pixels.set(4 * k, third);
        pixels.set(4 * k + 2, first);
        k = k + 1;
    }
    assert(pixels@ =~= swap_red_blue(old(pixels)@));
}

/// Decodes a JBP stream at `jbp_offset` of a PB container into a `width` by
/// `height` RGBA image; 32-bit images take their alpha from the container's
/// alpha stream, if it has one, and are opaque otherwise.
pub fn decode_jbp(source: &[u8], jbp_offset: usize, width: u16, height: u16, bits_per_pixel: u16, bounds: JbpBounds)
    -> (r: Result<PbDecodedImage, CmvsError>)
    ensures
        match spec_decode_jbp(source@, jbp_offset as int, width, height, bits_per_pixel, bounds) {
            Ok(v) => r matches Ok(img) && img@ == v,
            Err(e) => r matches Err(e2) && e2 == e,
        },
{
    if bits_per_pixel != 24 && bits_per_pixel != 32 {
        return Err(CmvsError::JbpBpp);
    }
    if bounds.payload_end > source.len() || bounds.payload_end < jbp_offset {
        return Err(CmvsError::JbpLayout);
    }
    let bitstream_end = match bounds.alpha {
        Some((start, end)) if bits_per_pixel == 32 => {
            if start <= end && end <= source.len() {
                start
            } else {
                return Err(CmvsError::JbpLayout);
            }
        },
        _ => bounds.payload_end,
    };
    let decoder = JbpDecoder::new(source, jbp_offset, bitstream_end)?;
    let bgra = decoder.decode()?;
    let source_stride = decoder.stride();
    finish_image(source, &bgra, source_stride, width, height, bits_per_pixel, bounds)
}

/// Crops decoded rows to the image, completes its alpha and reorders each
/// pixel to red, green, blue, alpha.
fn finish_image(source: &[u8], bgra: &Vec<u8>, source_stride: usize, width: u16, height: u16, bits_per_pixel: u16,
    bounds: JbpBounds) -> (r: Result<PbDecodedImage, CmvsError>)
    requires
        source_stride <= 0x1000_0000,
    ensures
        match spec_finish_image(source@, bgra@, source_stride as int, width, height, bits_per_pixel, bounds) {
            Ok(v) => r matches Ok(img) && img@ == v,
            Err(e) => r matches Err(e2) && e2 == e,
        },
{
    let w = width as usize;
    let h = height as usize;
    assert(4 * w * h <= 4 * 0xffff * 0xffff) by (nonlinear_arith)
        requires
            w <= 0xffff,
            h <= 0xffff;
    let cropped_len = 4 * w as u64 * h as u64;
    if cropped_len > usize::MAX as u64 {
        return Err(CmvsError::JbpOutput);
    }
    if h > 0 {
        assert((h - 1) * source_stride <= 0xffff * 0x1000_0000) by (nonlinear_arith)
            requires
                h <= 0xffff,
                h > 0,
                source_stride <= 0x1000_0000;
        if (h - 1) as u64 * source_stride as u64 + 4 * w as u64 > bgra.len() as u64 {
            return Err(CmvsError::JbpOutput);
        }
    }
    let mut cropped = crop_rows(bgra, source_stride, w, h);
    assert((4 * w * h) % 4 == 0) by {
        assert(4 * w * h == (w * h) * 4) by (nonlinear_arith);
        vstd::arithmetic::div_mod::lemma_mod_multiples_basic((w * h) as int, 4);
    }
    assert(cropped@.len() % 4 == 0);
    let alpha = bounds.alpha;
    if bits_per_pixel == 32 && alpha.is_some() {
        let (start, end) = alpha.unwrap();
        let ghost before = cropped@;
        let applied = apply_alpha(source, start, end, cropped.as_mut_slice());
        if applied.is_err() {
            return Err(CmvsError::JbpAlpha);
        }
        proof {
            self::color::lemma_alpha_runs_len(source@, start as int, end as int, (before.len() / 4) as int, 0, before);
        }
    } else {
        fill_opaque(&mut cropped);
    }
    swap_channels(&mut cropped);
    assert(cropped@.len() == 4 * w * h);
    assert((width as u32) * (height as u32) * 4 == 4 * w * h) by (nonlinear_arith)
        requires
            w == width,
            h == height;
    match PbDecodedImage::from_raw(width as u32, height as u32, cropped) {
        Some(image) => Ok(image),
        None => Err(CmvsError::JbpOutput),
    }
}

/// The alpha range a PB3 JBP header declares at `0x2c`/`0x30`: only
/// 32-bit images with a non-zero alpha offset have one.
pub open spec fn spec_pb3_jbp_bounds(s: Seq<u8>, bits_per_pixel: u16, payload_end: int) -> Result<JbpBounds, CmvsError> {
    if s.len() < 0x34 {
        Err(CmvsError::JbpLayout)
    } else {
        let offset = spec_le_u32(s, 0x2c) as int;
        let size = spec_le_u32(s, 0x30) as int;
        if bits_per_pixel == 32 && offset != 0 {
            if offset + size > usize::MAX {
                Err(CmvsError::JbpLayout)
            } else {
                Ok(JbpBounds { payload_end: payload_end as usize, alpha: Some((offset as usize, (offset + size) as usize)) })
            }
        } else {
            Ok(JbpBounds { payload_end: payload_end as usize, alpha: None })
        }
    }
}

/// Decodes the JBP stream of a decrypted PB3 type-2 or type-3 container.
pub fn decode_pb3_jbp(source: &[u8], width: u16, height: u16, bits_per_pixel: u16, payload_end: usize)
    -> (r: Result<PbDecodedImage, CmvsError>)
    ensures
        match spec_pb3_jbp_bounds(source@, bits_per_pixel, payload_end as int) {
            Ok(b) => match spec_decode_jbp(source@, 0x34, width, height, bits_per_pixel, b) {
                Ok(v) => r matches Ok(img) && img@ == v,
                Err(e) => r matches Err(e2) && e2 == e,
            },
            Err(e) => r matches Err(e2) && e2 == e,
        },
{
    let alpha_offset = read_u32(source, 0x2c)?;
    let alpha_size = read_u32(source, 0x30)?;
    let bounds = if bits_per_pixel == 32 && alpha_offset != 0 {
        match alpha_offset.checked_add(alpha_size) {
            Some(alpha_end) => JbpBounds { payload_end, alpha: Some((alpha_offset, alpha_end)) },
            None => return Err(CmvsError::JbpLayout),
        }
    } else {
        JbpBounds { payload_end, alpha: None }
    };
    decode_jbp(source, 0x34, width, height, bits_per_pixel, bounds)
}

/// A decoded JBP image has the container's size, four bytes per pixel;
/// without an alpha stream, and always at 24 bits, every pixel is opaque.
pub proof fn lemma_jbp_image_shape(s: Seq<u8>, jbp_offset: int, width: u16, height: u16, bits_per_pixel: u16, b: JbpBounds)
    requires
        spec_decode_jbp(s, jbp_offset, width, height, bits_per_pixel, b) is Ok,
    ensures
        ({
            let (w, h, px) = spec_decode_jbp(s, jbp_offset, width, height, bits_per_pixel, b)->Ok_0;
            &&& w == width && h == height
            &&& px.len() == 4 * width * height
            &&& (bits_per_pixel == 24 || b.alpha is None) ==> forall|p: int| 0 <= p < width * height
                ==> #[trigger] px[4 * p + 3] == 255
        }),
{
    let end = spec_bitstream_end(s, bits_per_pixel, b)->Ok_0;
    let l = spec_jbp_layout(s, jbp_offset, end)->Ok_0;
    let bgra = spec_jbp_decode(s, l)->Ok_0;
    let w = width as int;
    let h = height as int;
    let crop = spec_crop(bgra, l.stride, w, h);
    assert(crop.len() == 4 * w * h);
    assert((4 * w * h) % 4 == 0) by {
        assert(4 * w * h == (w * h) * 4) by (nonlinear_arith);
        vstd::arithmetic::div_mod::lemma_mod_multiples_basic(w * h, 4);
    }
    if bits_per_pixel == 32 && b.alpha is Some {
        let range = b.alpha->0;
        lemma_alpha_runs_len(s, range.0 as int, range.1 as int, (crop.len() / 4) as int, 0, crop);
    } else {
        let px = opaque_alpha(crop);
        assert forall|p: int| 0 <= p < w * h implies #[trigger] swap_red_blue(px)[4 * p + 3] == 255 by {
            assert((4 * p + 3) % 4 == 3);
            assert(4 * p + 3 < 4 * w * h) by (nonlinear_arith)
                requires
                    0 <= p < w * h;
        }
    }
}

} // verus!
