//! PB3 type-6 images: a named base image with an overlay of replaced 8 by 8
//! blocks.
use vstd::prelude::*;
use crate::error::CmvsError;
use crate::text::{shift_jis_decode, shift_jis_decode_text, chars_of, string_of};
use crate::scan::{spec_find_zero, find_zero, lemma_find_zero};
use super::{PbDecodedImage, PbMetadata, pb3_plain, spec_decode_pb_lzss, decode_pb_lzss, decrypt_pb3_source, parse_pb3_metadata,
    spec_parse_pb3_metadata};
use super::layout::{spec_pb_u32, pb3_offset, lemma_quad};
use super::blocks::lemma_block_coords;
use super::planar::block_extent;
use super::pb2::geometry;
use super::blocks::BlockGeometry;

verus! {

/// The key that hides the base image's name.
pub open spec fn name_key(i: int) -> u8 {
    seq![0xa6u8, 0x75, 0xf3, 0x9c, 0xc5, 0x69, 0x78, 0xa3, 0x3e, 0xa5, 0x4f, 0x79, 0x59, 0xfe, 0x3a, 0xc7][i % 16]
}

/// The 32 unhidden name bytes at `0x34` of a PB3 type-6 source.
pub open spec fn base_name_bytes(d: Seq<u8>) -> Seq<u8> {
    Seq::new(32, |i: int| d[0x34 + i] ^ name_key(i))
}

/// `name` holds `c`.
pub open spec fn has_char(name: Seq<char>, c: char) -> bool {
    exists|i: int| 0 <= i < name.len() && name[i] == c
}

/// `name` holds two dots in a row.
pub open spec fn has_dot_dot(name: Seq<char>) -> bool {
    exists|i: int| 0 <= i < name.len() - 1 && #[trigger] name[i] == '.' && name[i + 1] == '.'
}

/// The reference of a PB3 type-6 image's base: its hidden Shift-JIS
/// basename with `.pb3` appended.
pub open spec fn spec_pb3_type6_base_reference(d: Seq<u8>) -> Result<Seq<char>, CmvsError> {
    if d.len() < 0x54 {
        Err(CmvsError::Pb3Layout)
    } else {
        let bytes = base_name_bytes(d);
        let end = spec_find_zero(bytes, 0);
        if end >= 32 || end == 0 {
            Err(CmvsError::Pb3BaseReference)
        } else {
            let decoded = shift_jis_decode(bytes.subrange(0, end));
            if decoded.1 || has_char(decoded.0, '/') || has_char(decoded.0, '\\') || has_dot_dot(decoded.0) {
                Err(CmvsError::Pb3BaseReference)
            } else {
                Ok(decoded.0 + seq!['.', 'p', 'b', '3'])
            }
        }
    }
}

fn name_key_at(i: usize) -> (r: u8)
    requires
        i < 32,
    ensures
        r == name_key(i as int),
{
    let key: [u8; 16] = [0xa6, 0x75, 0xf3, 0x9c, 0xc5, 0x69, 0x78, 0xa3, 0x3e, 0xa5, 0x4f, 0x79, 0x59, 0xfe, 0x3a, 0xc7];
    assert(key@ =~= seq![0xa6u8, 0x75, 0xf3, 0x9c, 0xc5, 0x69, 0x78, 0xa3, 0x3e, 0xa5, 0x4f, 0x79, 0x59, 0xfe, 0x3a, 0xc7]);
    key[i % 16]
}

/// Reads the reference of a PB3 type-6 image's base image; the name must be
/// a non-empty, terminated, well-formed basename without `/`, `\` or `..`.
pub fn pb3_type6_base_reference(source: &[u8]) -> (r: Result<String, CmvsError>)
    ensures
        match r {
            Ok(t) => spec_pb3_type6_base_reference(source@) == Ok::<Seq<char>, CmvsError>(t@),
            Err(e) => spec_pb3_type6_base_reference(source@) == Err::<Seq<char>, CmvsError>(e),
        },
{
    if source.len() < 0x54 {
        return Err(CmvsError::Pb3Layout);
    }
    let mut bytes: Vec<u8> = Vec::new();
    let mut i: usize = 0;
    while i < 32
        invariant
            i <= 32,
            source@.len() >= 0x54,
            bytes@.len() == i,
            forall|j: int| 0 <= j < i ==> #[trigger] bytes@[j] == source@[0x34 + j] ^ name_key(j),
        decreases 32 - i,
    {
        bytes.push(source[0x34 + i] ^ name_key_at(i));
        i = i + 1;
    }
    assert(bytes@ =~= base_name_bytes(source@));
    let end = find_zero(bytes.as_slice(), 0);
    proof { lemma_find_zero(bytes@, 0); }
    if end >= 32 || end == 0 {
        return Err(CmvsError::Pb3BaseReference);
    }
    let raw = vstd::slice::slice_subrange(bytes.as_slice(), 0, end);
    let (name, malformed) = shift_jis_decode_text(raw);
    if malformed {
        return Err(CmvsError::Pb3BaseReference);
    }
    let mut chars = chars_of(name.as_str());
    let n = chars.len();
    assert(spec_pb3_type6_base_reference(source@) == (if has_char(name@, '/') || has_char(name@, '\\') || has_dot_dot(name@) {
        Err(CmvsError::Pb3BaseReference) } else { Ok(name@ + seq!['.', 'p', 'b', '3']) }));
    let mut k: usize = 0;
    while k < n
        invariant
            k <= n,
            n == chars@.len(),
            chars@ == name@,
            spec_pb3_type6_base_reference(source@) == (if has_char(name@, '/') || has_char(name@, '\\') || has_dot_dot(name@) {
                Err(CmvsError::Pb3BaseReference) } else { Ok(name@ + seq!['.', 'p', 'b', '3']) }),
            forall|j: int| 0 <= j < k ==> #[trigger] chars@[j] != '/' && chars@[j] != '\\',
            forall|j: int| 0 <= j < k && j + 1 < n ==> !(#[trigger] chars@[j] == '.' && chars@[j + 1] == '.'),
        decreases n - k,
    {
        if chars[k] == '/' || chars[k] == '\\' {
            assert(has_char(name@, chars@[k as int]));
            return Err(CmvsError::Pb3BaseReference);
        }
        if k + 1 < n && chars[k] == '.' && chars[k + 1] == '.' {
            assert(has_dot_dot(name@));
            return Err(CmvsError::Pb3BaseReference);
        }
        k = k + 1;
    }
    let ghost base = chars@;
    assert(!has_char(name@, '/') && !has_char(name@, '\\') && !has_dot_dot(name@));
    chars.push('.');
    chars.push('p');
    chars.push('b');
    chars.push('3');
    assert(chars@ =~= base + seq!['.', 'p', 'b', '3']);
    Ok(string_of(&chars))
}

/// Where one overlay block takes its pixels from: the base image, or the
/// overlay stream from `start` on, row by row.
#[derive(Debug, Clone, Copy, PartialEq, Eq, Structural)]
pub struct OverlayBlock {
    pub replaced: bool,
    pub start: usize,
}

/// The overlay block map from block `k` on: a clear flag replaces the block
/// with `4 * bw * bh` bytes of the overlay stream.
pub open spec fn spec_overlay_map(ov: Seq<u8>, g: BlockGeometry, k: nat, flag: int, mask: u8, data: int,
    acc: Seq<OverlayBlock>) -> Result<Seq<OverlayBlock>, CmvsError>
    decreases g.blocks - k,
{
    if k >= g.blocks || g.blocks_x <= 0 || data < 0 {
        Ok(acc)
    } else if flag >= ov.len() || flag < 0 {
        Err(CmvsError::Pb3Control)
    } else {
        let bw = block_extent(g.width, (k as int) % g.blocks_x, g.size);
        let bh = block_extent(g.height, (k as int) / g.blocks_x, g.size);
        let next_mask: u8 = if mask >> 1 == 0 { 0x80 } else { mask >> 1 };
        let next_flag = if mask >> 1 == 0 { flag + 1 } else { flag };
        if ov[flag] & mask == 0 {
            if data + 4 * bw * bh > ov.len() {
                Err(CmvsError::Pb3Data)
            } else {
                spec_overlay_map(ov, g, k + 1, next_flag, next_mask, data + 4 * bw * bh,
                    acc.push(OverlayBlock { replaced: true, start: data as usize }))
            }
        } else {
            spec_overlay_map(ov, g, k + 1, next_flag, next_mask, data, acc.push(OverlayBlock { replaced: false, start: 0 }))
        }
    }
}

/// Every replaced block of `blocks` lies inside an overlay stream of
/// `len` bytes.
pub open spec fn overlay_in_stream(blocks: Seq<OverlayBlock>, g: BlockGeometry, len: int) -> bool {
    forall|k: int| 0 <= k < blocks.len() && (#[trigger] blocks[k]).replaced ==>
        blocks[k].start + 4 * block_extent(g.width, k % g.blocks_x, g.size) * block_extent(g.height, k / g.blocks_x, g.size) <= len
}

/// Reads the overlay block map.
fn overlay_map(ov: &Vec<u8>, width: usize, height: usize, blocks_x: usize, blocks: usize, data: usize)
    -> (r: Result<Vec<OverlayBlock>, CmvsError>)
    requires
        0 < width <= 0xffff,
        0 < height <= 0xffff,
        blocks_x == (width as int + 7) / 8,
        blocks == blocks_x * ((height as int + 7) / 8),
    ensures
        match r {
            Ok(map) => spec_overlay_map(ov@, geometry(width as int, height as int, 8), 0, 8, 0x80, data as int, Seq::empty())
                == Ok::<Seq<OverlayBlock>, CmvsError>(map@) && map@.len() == blocks
                && overlay_in_stream(map@, geometry(width as int, height as int, 8), ov@.len() as int),
            Err(e) => spec_overlay_map(ov@, geometry(width as int, height as int, 8), 0, 8, 0x80, data as int, Seq::empty())
                == Err::<Seq<OverlayBlock>, CmvsError>(e),
        },
{
    let ghost g = geometry(width as int, height as int, 8);
    let len = ov.len();
    let mut map: Vec<OverlayBlock> = Vec::new();
    let mut flag: usize = 8;
    let mut mask: u8 = 0x80;
    let mut cur = data;
    let mut k: usize = 0;
    assert(blocks_x > 0) by (nonlinear_arith) requires blocks_x == (width as int + 7) / 8, width > 0;
    while k < blocks
        invariant
            k <= blocks,
            len == ov@.len(),
            0 < width <= 0xffff,
            0 < height <= 0xffff,
            blocks_x > 0,
            blocks_x == (width as int + 7) / 8,
            blocks == blocks_x * ((height as int + 7) / 8),
            g == geometry(width as int, height as int, 8),
            g.blocks == blocks,
            g.blocks_x == blocks_x,
            mask != 0,
            map@.len() == k,
            overlay_in_stream(map@, g, len as int),
            spec_overlay_map(ov@, g, 0, 8, 0x80, data as int, Seq::empty())
                == spec_overlay_map(ov@, g, k as nat, flag as int, mask, cur as int, map@),
        decreases blocks - k,
    {
        if flag >= len {
            return Err(CmvsError::Pb3Control);
        }
        let bxi = k % blocks_x;
        let byi = k / blocks_x;
        assert(bxi * 8 < width && byi * 8 < height) by (nonlinear_arith)
            requires
                bxi == k % blocks_x,
                byi == k / blocks_x,
                k < blocks,
                blocks_x > 0,
                blocks_x == (width as int + 7) / 8,
                blocks == blocks_x * ((height as int + 7) / 8);
        let bw = if width - bxi * 8 < 8 { width - bxi * 8 } else { 8 };
        let bh = if height - byi * 8 < 8 { height - byi * 8 } else { 8 };
        assert(4 * bw * bh <= 256) by (nonlinear_arith) requires bw <= 8, bh <= 8;
        let next_mask: u8 = if mask >> 1 == 0 { 0x80 } else { mask >> 1 };
        let next_flag = if mask >> 1 == 0 { flag + 1 } else { flag };
        let ghost before = map@;
        if ov[flag] & mask == 0 {
            if cur > len || len - cur < 4 * bw * bh {
                return Err(CmvsError::Pb3Data);
            }
            map.push(OverlayBlock { replaced: true, start: cur });
            cur = cur + 4 * bw * bh;
        } else {
            map.push(OverlayBlock { replaced: false, start: 0 });
        }
        assert(overlay_in_stream(map@, g, len as int)) by {
            assert forall|j: int| 0 <= j < map@.len() && (#[trigger] map@[j]).replaced implies
                map@[j].start + 4 * block_extent(g.width, j % g.blocks_x, g.size) * block_extent(g.height, j / g.blocks_x, g.size)
                    <= len by {
                if j < k {
                    assert(map@[j] == before[j]);
                }
            }
        }
        flag = next_flag;
        mask = next_mask;
        k = k + 1;
    }
    Ok(map)
}

/// Byte `i` of an overlaid image's RGBA bytes.
pub open spec fn overlay_byte(base: Seq<u8>, ov: Seq<u8>, map: Seq<OverlayBlock>, g: BlockGeometry, i: int) -> u8 {
    let p = i / 4;
    let k = i % 4;
    let x = p % g.width;
    let y = p / g.width;
    let b = map[(y / 8) * g.blocks_x + x / 8];
    if !b.replaced {
        base[i]
    } else {
        let src = b.start + ((y % 8) * block_extent(g.width, x / 8, 8) + x % 8) * 4;
        if k == 0 { ov[src + 2] } else if k == 1 { ov[src + 1] } else if k == 2 { ov[src] } else { ov[src + 3] }
    }
}

/// The base image's RGBA bytes with the replaced blocks taken from the
/// overlay stream.
pub open spec fn overlaid(base: Seq<u8>, ov: Seq<u8>, map: Seq<OverlayBlock>, g: BlockGeometry) -> Seq<u8> {
    Seq::new(base.len(), |i: int| if i < 4 * g.width * g.height { overlay_byte(base, ov, map, g, i) } else { base[i] })
}

/// An image holds at least `width * height` RGBA pixels.
pub open spec fn image_wf(img: (u32, u32, Seq<u8>)) -> bool {
    img.2.len() >= 4 * img.0 * img.1
}

/// A base image of `width` by `height` pixels with the overlay stream `ov`
/// applied.
pub open spec fn spec_apply_overlay(base: (u32, u32, Seq<u8>), ov: Seq<u8>) -> Result<(u32, u32, Seq<u8>), CmvsError> {
    let g = geometry(base.0 as int, base.1 as int, 8);
    match spec_pb_u32(ov, 0) {
        Err(e) => Err(e),
        Ok(v) => if 8 + v > usize::MAX {
            Err(CmvsError::Pb3Layout)
        } else {
            match spec_overlay_map(ov, g, 0, 8, 0x80, 8 + v, Seq::empty()) {
                Err(e) => Err(e),
                Ok(map) => Ok((base.0, base.1, overlaid(base.2, ov, map, g))),
            }
        },
    }
}

/// Replaces the flagged 8 by 8 blocks of `base` by the overlay's BGRA rows.
pub fn apply_pb3_type6_overlay(base: PbDecodedImage, overlay: &Vec<u8>) -> (r: Result<PbDecodedImage, CmvsError>)
    requires
        0 < base.width <= 0xffff,
        0 < base.height <= 0xffff,
        image_wf(base@),
    ensures
        match r {
            Ok(img) => spec_apply_overlay(base@, overlay@) == Ok::<(u32, u32, Seq<u8>), CmvsError>(img@),
            Err(e) => spec_apply_overlay(base@, overlay@) == Err::<(u32, u32, Seq<u8>), CmvsError>(e),
        },
{
    let w = base.width as usize;
    let h = base.height as usize;
    let ghost g = geometry(w as int, h as int, 8);
    let v = pb3_offset(overlay.as_slice(), 0)?;
    if v > usize::MAX - 8 {
        return Err(CmvsError::Pb3Layout);
    }
    let blocks_x = (w + 7) / 8;
    assert(blocks_x * ((h + 7) / 8) <= 0x2000 * 0x2000) by (nonlinear_arith)
        requires
            blocks_x == (w + 7) / 8,
            w <= 0xffff,
            h <= 0xffff;
    let blocks = blocks_x * ((h + 7) / 8);
    let map = overlay_map(overlay, w, h, blocks_x, blocks, 8 + v)?;
    assert(w * h <= 0xffff * 0xffff) by (nonlinear_arith) requires w <= 0xffff, h <= 0xffff;
    let n = w * h;
    assert(4 * base.width * base.height == 4 * n) by (nonlinear_arith) requires n == w * h, w == base.width, h == base.height;
    let _rlen = base.rgba.len();
    let olen = overlay.len();
    let mut out: Vec<u8> = Vec::new();
    let mut p: usize = 0;
    while p < n
        invariant
            p <= n,
            n == w * h,
            0 < w <= 0xffff,
            0 < h <= 0xffff,
            olen == overlay@.len(),
            blocks_x == (w as int + 7) / 8,
            blocks == blocks_x * ((h as int + 7) / 8),
            g == geometry(w as int, h as int, 8),
            map@.len() == blocks,
            overlay_in_stream(map@, g, overlay@.len() as int),
            base.rgba@.len() >= 4 * n,
            _rlen == base.rgba@.len(),
            out@.len() == 4 * p,
            forall|i: int| 0 <= i < 4 * p ==> #[trigger] out@[i] == overlay_byte(base.rgba@, overlay@, map@, g, i),
        decreases n - p,
    {
        let x = p % w;
        let y = p / w;
        assert(x < w && y < h) by (nonlinear_arith)
            requires
                x == p % w,
                y == p / w,
                p < w * h,
                w > 0;
        proof { lemma_block_coords(x as int, y as int, w as int, h as int, 8, blocks_x as int, blocks as int); }
        let kb = (y / 8) * blocks_x + x / 8;
        let b = map[kb];
        assert(4 * p + 3 < base.rgba@.len());
        if !b.replaced {
            out.push(base.rgba[4 * p]);
            out.push(base.rgba[4 * p + 1]);
            out.push(base.rgba[4 * p + 2]);
            out.push(base.rgba[4 * p + 3]);
        } else {
            let bw = if w - (x / 8) * 8 < 8 { w - (x / 8) * 8 } else { 8 };
            let bh = if h - (y / 8) * 8 < 8 { h - (y / 8) * 8 } else { 8 };
            assert(((y % 8) * bw + x % 8) * 4 + 4 <= 4 * bw * bh) by (nonlinear_arith)
                requires
                    0 <= y % 8 < bh,
                    0 <= x % 8 < bw;
            assert(4 * bw * bh <= 256) by (nonlinear_arith) requires bw <= 8, bh <= 8;
            assert(b.start + 4 * bw * bh <= olen);
            let src = b.start + ((y % 8) * bw + x % 8) * 4;
            out.push(overlay[src + 2]);
            out.push(overlay[src + 1]);
            out.push(overlay[src]);
            out.push(overlay[src + 3]);
        }
        assert forall|i: int| 0 <= i < 4 * (p + 1) implies #[trigger] out@[i] == overlay_byte(base.rgba@, overlay@, map@, g, i) by {
            if i >= 4 * p {
                lemma_quad(p as int, i - 4 * p);
            }
        }
        p = p + 1;
    }
    let total = base.rgba.len();
    let mut j: usize = 4 * n;
    while j < total
        invariant
            4 * n <= j <= total,
            total == base.rgba@.len(),
            out@.len() == j,
            forall|i: int| 0 <= i < 4 * n ==> #[trigger] out@[i] == overlay_byte(base.rgba@, overlay@, map@, g, i),
            forall|i: int| 4 * n <= i < j ==> #[trigger] out@[i] == base.rgba@[i],
        decreases total - j,
    {
        out.push(base.rgba[j]);
        j = j + 1;
    }
    assert(out@ =~= overlaid(base.rgba@, overlay@, map@, g)) by {
        assert(4 * g.width * g.height == 4 * n) by (nonlinear_arith) requires n == w * h, g.width == w, g.height == h;
    }
    Ok(PbDecodedImage { width: base.width, height: base.height, rgba: out })
}

/// Resolves the base image a PB3 type-6 image names, within the same
/// archive session; implementations reject traversal, cycles and ambiguous
/// names.
pub trait PbImageResolver {
    fn resolve_pb3_base(&self, reference: &str) -> Result<PbDecodedImage, CmvsError>;
}

/// The metadata of a PB3 type-6 source and its base image reference.
pub open spec fn spec_pb3_type6_reference(s: Seq<u8>) -> Result<(PbMetadata, Seq<char>), CmvsError> {
    match spec_parse_pb3_metadata(s) {
        Err(e) => Err(e),
        Ok(m) => if m.image_type != 6 || m.bits_per_pixel != 32 {
            Err(CmvsError::Pb3Variant)
        } else {
            match spec_pb3_type6_base_reference(pb3_plain(s)) {
                Err(e) => Err(e),
                Ok(r) => Ok((m, r)),
            }
        },
    }
}

/// The PB3 type-6 image of `s` over the base image `base`.
pub open spec fn spec_decode_pb3_type6_with_base(s: Seq<u8>, base: (u32, u32, Seq<u8>)) -> Result<(u32, u32, Seq<u8>), CmvsError> {
    match spec_pb3_type6_reference(s) {
        Err(e) => Err(e),
        Ok((m, _)) => if base.0 != m.width as u32 || base.1 != m.height as u32 {
            Err(CmvsError::Pb3BaseDimensions)
        } else {
            let d = pb3_plain(s);
            match spec_pb_u32(d, 0x0c) {
                Err(e) => Err(e),
                Ok(b) => if b + 0x20 > usize::MAX {
                    Err(CmvsError::Pb3Layout)
                } else {
                    match spec_pb_u32(d, 0x2c) {
                        Err(e) => Err(e),
                        Ok(o) => if b + 0x20 + o > usize::MAX {
                            Err(CmvsError::Pb3Layout)
                        } else {
                            match spec_decode_pb_lzss(d, b + 0x20, b + 0x20 + o, m.auxiliary_field->0 as nat) {
                                Err(e) => Err(e),
                                Ok(ov) => spec_apply_overlay(base, ov),
                            }
                        },
                    }
                },
            }
        },
    }
}

fn pb3_type6_reference(source: &[u8]) -> (r: Result<(PbMetadata, Vec<u8>, String), CmvsError>)
    ensures
        match r {
            Ok((m, d, name)) => spec_pb3_type6_reference(source@) == Ok::<(PbMetadata, Seq<char>), CmvsError>((m, name@))
                && d@ == pb3_plain(source@) && 0 < m.width && 0 < m.height && m.auxiliary_field is Some,
            Err(e) => spec_pb3_type6_reference(source@) == Err::<(PbMetadata, Seq<char>), CmvsError>(e),
        },
{
    let metadata = parse_pb3_metadata(source)?;
    if metadata.image_type != 6 || metadata.bits_per_pixel != 32 {
        return Err(CmvsError::Pb3Variant);
    }
    let decoded = decrypt_pb3_source(source)?;
    let reference = pb3_type6_base_reference(decoded.as_slice())?;
    Ok((metadata, decoded, reference))
}

/// Decodes a PB3 type-6 image over its already resolved base image.
pub fn decode_pb3_type6_with_base(source: &[u8], base: PbDecodedImage) -> (r: Result<PbDecodedImage, CmvsError>)
    requires
        image_wf(base@),
    ensures
        match r {
            Ok(img) => spec_decode_pb3_type6_with_base(source@, base@) == Ok::<(u32, u32, Seq<u8>), CmvsError>(img@),
            Err(e) => spec_decode_pb3_type6_with_base(source@, base@) == Err::<(u32, u32, Seq<u8>), CmvsError>(e),
        },
{
    let (metadata, decoded, _reference) = pb3_type6_reference(source)?;
    if base.width != metadata.width as u32 || base.height != metadata.height as u32 {
        return Err(CmvsError::Pb3BaseDimensions);
    }
    let b = pb3_offset(decoded.as_slice(), 0x0c)?;
    if b > usize::MAX - 0x20 {
        return Err(CmvsError::Pb3Layout);
    }
    let o = pb3_offset(decoded.as_slice(), 0x2c)?;
    if b + 0x20 > usize::MAX - o {
        return Err(CmvsError::Pb3Layout);
    }
    let size = match metadata.auxiliary_field {
        Some(v) => v as usize,
        None => 0,
    };
    let overlay = decode_pb_lzss(decoded.as_slice(), b + 0x20, b + 0x20 + o, size)?;
    apply_pb3_type6_overlay(base, &overlay)
}

/// Decodes a PB3 type-6 image, resolving its base image through
/// `resolver`; the base must have the overlay's dimensions.
pub fn decode_pb3_type6<R: PbImageResolver>(source: &[u8], resolver: &R) -> (r: Result<PbDecodedImage, CmvsError>)
    ensures
        spec_pb3_type6_reference(source@) is Err ==> r == Err::<PbDecodedImage, CmvsError>(spec_pb3_type6_reference(source@)->Err_0),
        r is Ok ==> exists|base: (u32, u32, Seq<u8>)| image_wf(base)
            && spec_decode_pb3_type6_with_base(source@, base) == Ok::<(u32, u32, Seq<u8>), CmvsError>(r->Ok_0@),
{
    let (metadata, _decoded, reference) = pb3_type6_reference(source)?;
    let base = resolver.resolve_pb3_base(reference.as_str())?;
    if base.width != metadata.width as u32 || base.height != metadata.height as u32 {
        return Err(CmvsError::Pb3BaseDimensions);
    }
    let w = base.width as u64;
    let h = base.height as u64;
    assert(4 * w * h <= 4 * 0xffff * 0xffff) by (nonlinear_arith) requires w <= 0xffff, h <= 0xffff;
    if (base.rgba.len() as u64) < 4 * w * h {
        return Err(CmvsError::Pb3BaseDimensions);
    }
    let ghost bv = base@;
    assert(image_wf(bv));
    let r = decode_pb3_type6_with_base(source, base);
    match r {
        Ok(img) => {
            assert(spec_decode_pb3_type6_with_base(source@, bv) == Ok::<(u32, u32, Seq<u8>), CmvsError>(img@));
            Ok(img)
        },
        Err(e) => Err(e),
    }
}

} // verus!
