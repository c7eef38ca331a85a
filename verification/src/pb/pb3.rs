//! PB3 pixel decoders.
use vstd::prelude::*;
use crate::error::CmvsError;
use super::{PbDecodedImage, PbMetadata, pb3_plain, spec_parse_pb3_metadata, parse_pb3_metadata, spec_decode_pb_lzss,
    decode_pb_lzss, decrypt_pb3_source, LzssCodes, spec_pb_lzss_stream, pb_lzss_stream};
use super::layout::lemma_quad;
use super::layout::{spec_pb_u32, pb3_offset, spec_pb3_channel_offset, pb3_channel_offset};
use super::blocks::{BlockSource, BlockCodes, BlockCursor, BlockGeometry, spec_block_map, block_map, blocks_in_plane,
    planes_view, descs_view, gather_block_rgba};
use super::pb2::{geometry, block_image};

verus! {

/// The error codes of the PB3 block map.
pub open spec fn pb3_block_codes() -> BlockCodes {
    BlockCodes { control: CmvsError::Pb3Control, data: CmvsError::Pb3Data, output: CmvsError::Pb3Output }
}

/// Channel `c` of a PB3 type-1 image: its decoded plane and block map.
#[verifier::opaque]
pub open spec fn spec_pb3_type1_channel(d: Seq<u8>, g: BlockGeometry, data1: int, data2: int, ch: int, c: int)
    -> Result<(Seq<u8>, Seq<BlockSource>), CmvsError>
{
    match spec_pb3_channel_offset(d, data1, ch, c as nat) {
        Err(e) => Err(e),
        Ok(co) => if data1 + co > usize::MAX {
            Err(CmvsError::Pb3Layout)
        } else {
            let bh = data1 + co;
            match spec_pb_u32(d, bh) {
                Err(e) => Err(e),
                Ok(flags_bytes) => match spec_pb_u32(d, bh + 4) {
                    Err(e) => Err(e),
                    Ok(plane_offset) => match spec_pb_u32(d, bh + 8) {
                        Err(e) => Err(e),
                        Ok(plane_size) => if plane_size > g.width * g.height
                            || bh + 12 + flags_bytes + plane_offset > usize::MAX {
                            Err(CmvsError::Pb3Layout)
                        } else {
                            match spec_pb3_channel_offset(d, data2, ch, c as nat) {
                                Err(e) => Err(e),
                                Ok(cdd) => if data2 + cdd > usize::MAX {
                                    Err(CmvsError::Pb3Layout)
                                } else {
                                    match spec_decode_pb_lzss(d, bh + 12 + flags_bytes + plane_offset, data2 + cdd, plane_size as nat) {
                                        Err(e) => Err(e),
                                        Ok(plane) => match spec_block_map(d, plane.len() as int, g, pb3_block_codes(), 0,
                                            BlockCursor { flag_offset: (bh + 12) as usize, flag_mask: 0x80,
                                                literal_offset: (bh + 12 + flags_bytes) as usize, plane_cursor: 0 }, Seq::empty()) {
                                            Err(e) => Err(e),
                                            Ok((descs, _)) => Ok((plane, descs)),
                                        },
                                    }
                                },
                            }
                        },
                    },
                },
            }
        },
    }
}

/// Channels `c` and up of a PB3 type-1 image, after `planes` and `descs`.
pub open spec fn spec_pb3_type1_channels(d: Seq<u8>, g: BlockGeometry, data1: int, data2: int, ch: nat, c: nat,
    planes: Seq<Seq<u8>>, descs: Seq<Seq<BlockSource>>) -> Result<(Seq<Seq<u8>>, Seq<Seq<BlockSource>>), CmvsError>
    decreases ch - c,
{
    if c >= ch {
        Ok((planes, descs))
    } else {
        match spec_pb3_type1_channel(d, g, data1, data2, ch as int, c as int) {
            Err(e) => Err(e),
            Ok((plane, map)) => spec_pb3_type1_channels(d, g, data1, data2, ch, c + 1, planes.push(plane), descs.push(map)),
        }
    }
}

/// The PB3 metadata of `s`, which must be of type `image_type` with 24-bit
/// or 32-bit pixels, and its channel count.
pub open spec fn spec_pb3_variant(s: Seq<u8>, image_type: u16) -> Result<(PbMetadata, int), CmvsError> {
    match spec_parse_pb3_metadata(s) {
        Err(e) => Err(e),
        Ok(m) => if m.image_type != image_type {
            Err(CmvsError::Pb3Variant)
        } else if !(m.bits_per_pixel / 8 == 3 || m.bits_per_pixel / 8 == 4) {
            Err(CmvsError::Pb3Bpp)
        } else {
            Ok((m, (m.bits_per_pixel / 8) as int))
        },
    }
}

fn pb3_variant(source: &[u8], image_type: u16) -> (r: Result<(PbMetadata, usize), CmvsError>)
    ensures
        match r {
            Ok((m, ch)) => spec_pb3_variant(source@, image_type) == Ok::<(PbMetadata, int), CmvsError>((m, ch as int))
                && (ch == 3 || ch == 4) && 0 < m.width && 0 < m.height,
            Err(e) => spec_pb3_variant(source@, image_type) == Err::<(PbMetadata, int), CmvsError>(e),
        },
{
    let m = parse_pb3_metadata(source)?;
    if m.image_type != image_type {
        return Err(CmvsError::Pb3Variant);
    }
    let ch = (m.bits_per_pixel / 8) as usize;
    if !(ch == 3 || ch == 4) {
        return Err(CmvsError::Pb3Bpp);
    }
    Ok((m, ch))
}

/// The PB3 type-1 image of `s`: per channel, a block map of constant or
/// LZSS-decoded 16 by 16 blocks.
pub open spec fn spec_decode_pb3_type1(s: Seq<u8>) -> Result<(u32, u32, Seq<u8>), CmvsError> {
    match spec_pb3_variant(s, 1) {
        Err(e) => Err(e),
        Ok((m, ch)) => {
            let d = pb3_plain(s);
            let g = geometry(m.width as int, m.height as int, 16);
            match spec_pb_u32(d, 0x2c) {
                Err(e) => Err(e),
                Ok(data1) => match spec_pb_u32(d, 0x30) {
                    Err(e) => Err(e),
                    Ok(data2) => block_image(spec_pb3_type1_channels(d, g, data1 as int, data2 as int, ch as nat, 0,
                        Seq::empty(), Seq::empty()), m.width, m.height, g, ch),
                },
            }
        },
    }
}

fn pb_u32_at(d: &Vec<u8>, base: usize, delta: usize) -> (r: Result<usize, CmvsError>)
    ensures
        match r {
            Ok(v) => spec_pb_u32(d@, base + delta) == Ok::<u32, CmvsError>(v as u32) && v as u32 as usize == v,
            Err(e) => spec_pb_u32(d@, base + delta) == Err::<u32, CmvsError>(e),
        },
{
    let _len = d.len();
    if base > usize::MAX - delta {
        return Err(CmvsError::PbHeader);
    }
    pb3_offset(d.as_slice(), base + delta)
}

fn pb3_type1_channel(d: &Vec<u8>, w: usize, h: usize, data1: usize, data2: usize, ch: usize, c: usize)
    -> (r: Result<(Vec<u8>, Vec<BlockSource>), CmvsError>)
    requires
        0 < w <= 0xffff,
        0 < h <= 0xffff,
        ch == 3 || ch == 4,
        c < ch,
    ensures
        match r {
            Ok((plane, descs)) => spec_pb3_type1_channel(d@, geometry(w as int, h as int, 16), data1 as int, data2 as int,
                ch as int, c as int) == Ok::<(Seq<u8>, Seq<BlockSource>), CmvsError>((plane@, descs@))
                && descs@.len() == geometry(w as int, h as int, 16).blocks
                && blocks_in_plane(descs@, geometry(w as int, h as int, 16), plane@.len() as int),
            Err(e) => spec_pb3_type1_channel(d@, geometry(w as int, h as int, 16), data1 as int, data2 as int, ch as int,
                c as int) == Err::<(Seq<u8>, Seq<BlockSource>), CmvsError>(e),
        },
{
    reveal(spec_pb3_type1_channel);
    let co = pb3_channel_offset(d.as_slice(), data1, ch, c)?;
    if data1 > usize::MAX - co {
        return Err(CmvsError::Pb3Layout);
    }
    let bh = data1 + co;
    let flags_bytes = pb_u32_at(d, bh, 0)?;
    let plane_offset = pb_u32_at(d, bh, 4)?;
    let plane_size = pb_u32_at(d, bh, 8)?;
    assert(w * h <= 0xffff * 0xffff) by (nonlinear_arith) requires w <= 0xffff, h <= 0xffff;
    if plane_size > w * h || bh > usize::MAX - 12 || bh + 12 > usize::MAX - flags_bytes
        || bh + 12 + flags_bytes > usize::MAX - plane_offset {
        return Err(CmvsError::Pb3Layout);
    }
    let cdd = pb3_channel_offset(d.as_slice(), data2, ch, c)?;
    if data2 > usize::MAX - cdd {
        return Err(CmvsError::Pb3Layout);
    }
    let plane = decode_pb_lzss(d.as_slice(), bh + 12 + flags_bytes + plane_offset, data2 + cdd, plane_size)?;
    let blocks_x = (w + 15) / 16;
    assert(blocks_x * ((h + 15) / 16) <= 0x1000 * 0x1000) by (nonlinear_arith)
        requires
            blocks_x == (w + 15) / 16,
            w <= 0xffff,
            h <= 0xffff;
    let blocks = blocks_x * ((h + 15) / 16);
    let start = BlockCursor { flag_offset: bh + 12, flag_mask: 0x80, literal_offset: bh + 12 + flags_bytes, plane_cursor: 0 };
    let codes = BlockCodes { control: CmvsError::Pb3Control, data: CmvsError::Pb3Data, output: CmvsError::Pb3Output };
    let (descs, _) = block_map(d, plane.len(), w, h, 16, blocks_x, blocks, codes, start)?;
    Ok((plane, descs))
}

/// Decodes a PB3 type-1 image of constant or LZSS-decoded 16 by 16 blocks.
#[verifier::rlimit(30)]
pub fn decode_pb3_type1(source: &[u8]) -> (r: Result<PbDecodedImage, CmvsError>)
    ensures
        match r {
            Ok(img) => spec_decode_pb3_type1(source@) == Ok::<(u32, u32, Seq<u8>), CmvsError>(img@),
            Err(e) => spec_decode_pb3_type1(source@) == Err::<(u32, u32, Seq<u8>), CmvsError>(e),
        },
{
    let (metadata, channels) = pb3_variant(source, 1)?;
    let decoded = decrypt_pb3_source(source)?;
    let w = metadata.width as usize;
    let h = metadata.height as usize;
    let data1 = pb_u32_at(&decoded, 0x2c, 0)?;
    let data2 = pb_u32_at(&decoded, 0x30, 0)?;
    let ghost g = geometry(w as int, h as int, 16);
    let ghost d = decoded@;
    let mut planes: Vec<Vec<u8>> = Vec::new();
    let mut descs: Vec<Vec<BlockSource>> = Vec::new();
    assert(planes_view(planes@) =~= Seq::<Seq<u8>>::empty());
    assert(descs_view(descs@) =~= Seq::<Seq<BlockSource>>::empty());
    assert(spec_decode_pb3_type1(source@) == block_image(spec_pb3_type1_channels(d, g, data1 as int, data2 as int,
        channels as nat, 0, Seq::empty(), Seq::empty()), metadata.width, metadata.height, g, channels as int));
    let mut c: usize = 0;
    while c < channels
        invariant
            c <= channels,
            channels == 3 || channels == 4,
            0 < w <= 0xffff,
            0 < h <= 0xffff,
            d == decoded@,
            g == geometry(w as int, h as int, 16),
            spec_decode_pb3_type1(source@) == block_image(spec_pb3_type1_channels(d, g, data1 as int, data2 as int,
                channels as nat, 0, Seq::empty(), Seq::empty()), metadata.width, metadata.height, g, channels as int),
            w == metadata.width,
            h == metadata.height,
            planes@.len() == c,
            descs@.len() == c,
            forall|k: int| 0 <= k < c ==> (#[trigger] descs@[k])@.len() == g.blocks,
            forall|k: int| 0 <= k < c ==> blocks_in_plane((#[trigger] descs@[k])@, g, planes@[k]@.len() as int),
            spec_pb3_type1_channels(d, g, data1 as int, data2 as int, channels as nat, 0, Seq::empty(), Seq::empty())
                == spec_pb3_type1_channels(d, g, data1 as int, data2 as int, channels as nat, c as nat,
                    planes_view(planes@), descs_view(descs@)),
        decreases channels - c,
    {
        let (plane, map) = pb3_type1_channel(&decoded, w, h, data1, data2, channels, c)?;
        let ghost pv = planes_view(planes@);
        let ghost dv = descs_view(descs@);
        planes.push(plane);
        descs.push(map);
        assert(planes_view(planes@) =~= pv.push(plane@));
        assert(descs_view(descs@) =~= dv.push(map@));
        c = c + 1;
    }
    let blocks_x = (w + 15) / 16;
    assert(blocks_x * ((h + 15) / 16) <= 0x1000 * 0x1000) by (nonlinear_arith)
        requires
            blocks_x == (w + 15) / 16,
            w <= 0xffff,
            h <= 0xffff;
    let blocks = blocks_x * ((h + 15) / 16);
    let rgba = gather_block_rgba(&planes, &descs, w, h, channels, 16, blocks_x, blocks);
    Ok(PbDecodedImage { width: w as u32, height: h as u32, rgba })
}

/// The error codes of the PB3 type-5 channel streams.
pub open spec fn pb3_type5_codes() -> LzssCodes {
    LzssCodes { control: CmvsError::Pb3Control, data: CmvsError::Pb3Data, output: CmvsError::Pb3Output }
}

/// The running byte sum of `v` up to and including `p`.
pub open spec fn running_sum(v: Seq<u8>, p: int) -> u8
    decreases p,
{
    if p <= 0 { v[0] } else { running_sum(v, p - 1).wrapping_add(v[p]) }
}

/// The plain integer sum of the bytes of `s`.
pub open spec fn byte_total(s: Seq<u8>) -> int
    decreases s.len(),
{
    if s.len() == 0 { 0 } else { byte_total(s.drop_last()) + s.last() as int }
}

/// A type-5 channel byte accumulates its deltas: the byte at pixel `p` is
/// the sum of the deltas of pixels `0` to `p`, modulo 256, so each byte is
/// the one before plus its own delta.
pub proof fn lemma_running_sum_accumulates(v: Seq<u8>, p: int)
    requires
        0 <= p < v.len(),
    ensures
        running_sum(v, p) as int == byte_total(v.subrange(0, p + 1)) % 256,
        p > 0 ==> running_sum(v, p) as int == (running_sum(v, p - 1) as int + v[p] as int) % 256,
    decreases p,
{
    let t = v.subrange(0, p + 1);
    assert(t.drop_last() =~= v.subrange(0, p));
    assert(t.last() == v[p]);
    if p == 0 {
        assert(v.subrange(0, 0) =~= Seq::<u8>::empty());
        assert(byte_total(t) == v[0] as int);
    } else {
        lemma_running_sum_accumulates(v, p - 1);
        let prev = byte_total(v.subrange(0, p));
        assert(prev >= 0) by {
            lemma_byte_total_nonnegative(v.subrange(0, p));
        }
        assert(byte_total(t) == prev + v[p] as int);
        let a = running_sum(v, p - 1);
        assert(a as int == prev % 256);
        vstd::arithmetic::div_mod::lemma_add_mod_noop(prev, v[p] as int, 256);
        assert((v[p] as int) % 256 == v[p] as int);
        assert(running_sum(v, p) == a.wrapping_add(v[p]));
        assert(a.wrapping_add(v[p]) as int == (a as int + v[p] as int) % 256);
    }
}

proof fn lemma_byte_total_nonnegative(s: Seq<u8>)
    ensures
        byte_total(s) >= 0,
    decreases s.len(),
{
    if s.len() > 0 {
        lemma_byte_total_nonnegative(s.drop_last());
    }
}

/// The delta stream of channel `c` of a PB3 type-5 image of `n` pixels.
pub open spec fn spec_pb3_type5_channel(d: Seq<u8>, c: int, n: nat) -> Result<Seq<u8>, CmvsError> {
    let table = 0x34 + c * 8;
    match spec_pb_u32(d, table) {
        Err(e) => Err(e),
        Ok(bo) => match spec_pb_u32(d, table + 4) {
            Err(e) => Err(e),
            Ok(dof) => if 0x54 + bo > usize::MAX || 0x54 + dof > usize::MAX {
                Err(CmvsError::Pb3Layout)
            } else {
                spec_pb_lzss_stream(d, 0x54 + bo, 0x54 + dof, n, pb3_type5_codes())
            },
        },
    }
}

/// RGBA bytes of the four running-sum delta channels of a PB3 type-5 image.
pub open spec fn delta_rgba(v0: Seq<u8>, v1: Seq<u8>, v2: Seq<u8>, v3: Seq<u8>, n: int, ch: int) -> Seq<u8> {
    Seq::new((4 * n) as nat, |i: int| {
        let p = i / 4;
        let k = i % 4;
        if k == 0 { running_sum(v2, p) } else if k == 1 { running_sum(v1, p) } else if k == 2 { running_sum(v0, p) }
        else if ch == 4 { running_sum(v3, p) } else { 0xffu8 }
    })
}

/// The PB3 type-5 image of `s`: four LZSS delta channels, each summed
/// pixel by pixel.
pub open spec fn spec_decode_pb3_type5(s: Seq<u8>) -> Result<(u32, u32, Seq<u8>), CmvsError> {
    match spec_pb3_variant(s, 5) {
        Err(e) => Err(e),
        Ok((m, ch)) => {
            let d = pb3_plain(s);
            let n = (m.width * m.height) as nat;
            match spec_pb3_type5_channel(d, 0, n) {
                Err(e) => Err(e),
                Ok(v0) => match spec_pb3_type5_channel(d, 1, n) {
                    Err(e) => Err(e),
                    Ok(v1) => match spec_pb3_type5_channel(d, 2, n) {
                        Err(e) => Err(e),
                        Ok(v2) => match spec_pb3_type5_channel(d, 3, n) {
                            Err(e) => Err(e),
                            Ok(v3) => Ok((m.width as u32, m.height as u32, delta_rgba(v0, v1, v2, v3, n as int, ch))),
                        },
                    },
                },
            }
        },
    }
}

fn pb3_type5_channel(d: &Vec<u8>, c: usize, n: usize) -> (r: Result<Vec<u8>, CmvsError>)
    requires
        c < 4,
    ensures
        match r {
            Ok(v) => spec_pb3_type5_channel(d@, c as int, n as nat) == Ok::<Seq<u8>, CmvsError>(v@) && v@.len() == n,
            Err(e) => spec_pb3_type5_channel(d@, c as int, n as nat) == Err::<Seq<u8>, CmvsError>(e),
        },
{
    let table = 0x34 + c * 8;
    let bo = pb_u32_at(d, table, 0)?;
    let dof = pb_u32_at(d, table, 4)?;
    if bo > usize::MAX - 0x54 || dof > usize::MAX - 0x54 {
        return Err(CmvsError::Pb3Layout);
    }
    let codes = LzssCodes { control: CmvsError::Pb3Control, data: CmvsError::Pb3Data, output: CmvsError::Pb3Output };
    pb_lzss_stream(d.as_slice(), 0x54 + bo, 0x54 + dof, n, codes)
}

fn running_sums(v: &Vec<u8>) -> (r: Vec<u8>)
    ensures
        r@.len() == v@.len(),
        forall|p: int| 0 <= p < v@.len() ==> #[trigger] r@[p] == running_sum(v@, p),
{
    let mut out: Vec<u8> = Vec::new();
    let mut acc: u8 = 0;
    let mut p: usize = 0;
    while p < v.len()
        invariant
            p <= v@.len(),
            out@.len() == p,
            p > 0 ==> acc == running_sum(v@, p - 1),
            p == 0 ==> acc == 0,
            forall|q: int| 0 <= q < p ==> #[trigger] out@[q] == running_sum(v@, q),
        decreases v@.len() - p,
    {
        acc = acc.wrapping_add(v[p]);
        out.push(acc);
        p = p + 1;
    }
    out
}

/// Decodes a PB3 type-5 image of four LZSS delta channels.
pub fn decode_pb3_type5(source: &[u8]) -> (r: Result<PbDecodedImage, CmvsError>)
    ensures
        match r {
            Ok(img) => spec_decode_pb3_type5(source@) == Ok::<(u32, u32, Seq<u8>), CmvsError>(img@),
            Err(e) => spec_decode_pb3_type5(source@) == Err::<(u32, u32, Seq<u8>), CmvsError>(e),
        },
{
    let (metadata, channels) = pb3_variant(source, 5)?;
    let decoded = decrypt_pb3_source(source)?;
    let w = metadata.width as usize;
    let h = metadata.height as usize;
    assert(w * h <= 0xffff * 0xffff) by (nonlinear_arith) requires w <= 0xffff, h <= 0xffff;
    let n = w * h;
    let v0 = pb3_type5_channel(&decoded, 0, n)?;
    let v1 = pb3_type5_channel(&decoded, 1, n)?;
    let v2 = pb3_type5_channel(&decoded, 2, n)?;
    let v3 = pb3_type5_channel(&decoded, 3, n)?;
    let s0 = running_sums(&v0);
    let s1 = running_sums(&v1);
    let s2 = running_sums(&v2);
    let s3 = running_sums(&v3);
    let mut rgba: Vec<u8> = Vec::new();
    let mut p: usize = 0;
    while p < n
        invariant
            p <= n,
            channels == 3 || channels == 4,
            v0@.len() == n && v1@.len() == n && v2@.len() == n && v3@.len() == n,
            s0@.len() == n && s1@.len() == n && s2@.len() == n && s3@.len() == n,
            forall|q: int| 0 <= q < n ==> #[trigger] s0@[q] == running_sum(v0@, q),
            forall|q: int| 0 <= q < n ==> #[trigger] s1@[q] == running_sum(v1@, q),
            forall|q: int| 0 <= q < n ==> #[trigger] s2@[q] == running_sum(v2@, q),
            forall|q: int| 0 <= q < n ==> #[trigger] s3@[q] == running_sum(v3@, q),
            rgba@.len() == 4 * p,
            forall|i: int| 0 <= i < 4 * p ==> #[trigger] rgba@[i] == delta_rgba(v0@, v1@, v2@, v3@, n as int, channels as int)[i],
        decreases n - p,
    {
        rgba.push(s2[p]);
        rgba.push(s1[p]);
        rgba.push(s0[p]);
        if channels == 4 {
            rgba.push(s3[p]);
        } else {
            rgba.push(0xff);
        }
        assert forall|i: int| 0 <= i < 4 * (p + 1) implies #[trigger] rgba@[i] == delta_rgba(v0@, v1@, v2@, v3@, n as int, channels as int)[i] by {
            if i >= 4 * p {
                lemma_quad(p as int, i - 4 * p);
                assert(s0@[p as int] == running_sum(v0@, p as int));
                assert(s1@[p as int] == running_sum(v1@, p as int));
                assert(s2@[p as int] == running_sum(v2@, p as int));
                assert(s3@[p as int] == running_sum(v3@, p as int));
            }
        }
        p = p + 1;
    }
    assert(rgba@ =~= delta_rgba(v0@, v1@, v2@, v3@, n as int, channels as int));
    Ok(PbDecodedImage { width: w as u32, height: h as u32, rgba })
}

/// The image a PB3 type-2 or type-3 (JBP) source decodes to.
pub open spec fn spec_decode_pb3_jbp(s: Seq<u8>) -> Result<(u32, u32, Seq<u8>), CmvsError> {
    match spec_parse_pb3_metadata(s) {
        Err(e) => Err(e),
        Ok(m) => if m.image_type != 2 && m.image_type != 3 {
            Err(CmvsError::Pb3Variant)
        } else {
            match super::spec_decrypt_pb3_source(s) {
                Err(e) => Err(e),
                Ok(d) => match crate::jbp::spec_pb3_jbp_bounds(d, m.bits_per_pixel, d.len() as int) {
                    Err(e) => Err(e),
                    Ok(b) => crate::jbp::spec_decode_jbp(d, 0x34, m.width, m.height, m.bits_per_pixel, b),
                },
            }
        },
    }
}

/// Decodes PB3 type-2 and type-3 JBP containers, whose stream carries its
/// own Huffman, quantization and optional alpha data.
pub fn decode_pb3_jbp(source: &[u8]) -> (r: Result<PbDecodedImage, CmvsError>)
    ensures
        match spec_decode_pb3_jbp(source@) {
            Ok(v) => r matches Ok(img) && img@ == v,
            Err(e) => r matches Err(e2) && e2 == e,
        },
{
    let metadata = parse_pb3_metadata(source)?;
    if metadata.image_type != 2 && metadata.image_type != 3 {
        return Err(CmvsError::Pb3Variant);
    }
    let decoded = super::decrypt_pb3_source(source)?;
    let end = decoded.len();
    crate::jbp::decode_pb3_jbp(decoded.as_slice(), metadata.width, metadata.height, metadata.bits_per_pixel, end)
}

} // verus!
