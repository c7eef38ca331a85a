//! PB2 pixel decoders.
use vstd::prelude::*;
use crate::error::CmvsError;
use crate::bytes::spec_le_u32;
use crate::scan::{spec_find_zero, find_zero, lemma_find_zero};
use super::{PbDecodedImage, pb2_plain, spec_decode_pb_lzss, decode_pb_lzss, decrypt_pb2_source, image_fits};
use super::layout::{spec_require_pb2_variant, require_pb2_variant, spec_pixel_channels, pb2_channels, pb2_offset,
    spec_checked_image_bytes, checked_image_bytes, spec_pb_u32, pb3_offset, lemma_quad};
use super::planar::{planar_index, planar_index_of, lemma_planar_index_bound};
use super::blocks::{BlockSource, BlockCodes, BlockCursor, BlockGeometry, spec_block_map, block_map, blocks_in_plane,
    block_rgba, planes_view, descs_view, gather_block_rgba};

verus! {

/// RGBA bytes of a `w` by `h` image whose `ch` BGR(A) channel planes are
/// stored one after another in `size` by `size` block order.
pub open spec fn planar_rgba(bd: Seq<u8>, w: int, h: int, ch: int, size: int) -> Seq<u8> {
    Seq::new((4 * w * h) as nat, |i: int| {
        let p = i / 4;
        let k = i % 4;
        let pl = planar_index(p % w, p / w, w, h, size);
        if k < 3 {
            bd[(2 - k) * w * h + pl]
        } else if ch == 4 {
            bd[3 * w * h + pl]
        } else {
            0xffu8
        }
    })
}

proof fn lemma_pixel_coords(p: int, w: int, h: int)
    requires
        0 <= p < w * h,
        w > 0,
        h > 0,
    ensures
        0 <= p % w < w,
        0 <= p / w < h,
{
    vstd::arithmetic::div_mod::lemma_mod_pos_bound(p, w);
    vstd::arithmetic::div_mod::lemma_div_pos_is_pos(p, w);
    vstd::arithmetic::div_mod::lemma_fundamental_div_mod(p, w);
    let q = p / w;
    let r = p % w;
    assert(q < h) by (nonlinear_arith)
        requires
            p == w * q + r,
            0 <= r,
            p < w * h,
            w > 0;
}

/// Gathers planar block data into RGBA raster order.
fn gather_planar_rgba(bd: &Vec<u8>, w: u64, h: u64, ch: u64, size: u64) -> (r: Vec<u8>)
    requires
        0 < w <= 0xffff,
        0 < h <= 0xffff,
        ch == 3 || ch == 4,
        size == 8 || size == 16,
        bd@.len() == w * h * ch,
    ensures
        r@ == planar_rgba(bd@, w as int, h as int, ch as int, size as int),
{
    assert(w * h <= 0xffff * 0xffff) by (nonlinear_arith)
        requires
            w <= 0xffff,
            h <= 0xffff;
    let n: u64 = w * h;
    let mut out: Vec<u8> = Vec::new();
    let mut p: u64 = 0;
    while p < n
        invariant
            p <= n,
            n == w * h,
            n <= 0xffff * 0xffff,
            0 < w <= 0xffff,
            0 < h <= 0xffff,
            ch == 3 || ch == 4,
            size == 8 || size == 16,
            bd@.len() == w * h * ch,
            out@.len() == 4 * p,
            forall|i: int| 0 <= i < 4 * p ==> #[trigger] out@[i] == planar_rgba(bd@, w as int, h as int, ch as int, size as int)[i],
        decreases n - p,
    {
        proof { lemma_pixel_coords(p as int, w as int, h as int); }
        let x = p % w;
        let y = p / w;
        let pl = planar_index_of(x, y, w, h, size);
        assert(2 * n + pl < bd@.len() && 3 * n + pl < 4 * n + n) by (nonlinear_arith)
            requires
                pl < n,
                n == w * h,
                bd@.len() == w * h * ch,
                ch >= 3;
        let _blen = bd.len();
        let i0 = (2 * n + pl) as usize;
        let i1 = (n + pl) as usize;
        let v0 = bd[i0];
        let v1 = bd[i1];
        assert(v0 == bd@[2 * n + pl] && v1 == bd@[n + pl]);
        out.push(v0);
        out.push(v1);
        out.push(bd[pl as usize]);
        if ch == 4 {
            assert(3 * n + pl < bd@.len()) by (nonlinear_arith)
                requires
                    pl < n,
                    n == w * h,
                    bd@.len() == w * h * ch,
                    ch == 4;
            out.push(bd[(3 * n + pl) as usize]);
        } else {
            out.push(0xff);
        }
        assert forall|i: int| 0 <= i < 4 * (p + 1) implies #[trigger] out@[i] == planar_rgba(bd@, w as int, h as int, ch as int, size as int)[i] by {
            if i >= 4 * p {
                let k = i - 4 * p;
                lemma_quad(p as int, k);
                assert(2 * w * h == 2 * n && 3 * w * h == 3 * n) by (nonlinear_arith) requires n == w * h;
                assert((2 - 0) * w * h == 2 * n && (2 - 1) * w * h == n && (2 - 2) * w * h == 0) by (nonlinear_arith)
                    requires n == w * h;
                assert(4 * w * h == 4 * n) by (nonlinear_arith) requires n == w * h;
                assert(i < 4 * w * h);
                assert(i / 4 == p as int && i % 4 == k);
                let f = planar_rgba(bd@, w as int, h as int, ch as int, size as int);
                assert(planar_index((p as int) % (w as int), (p as int) / (w as int), w as int, h as int, size as int) == pl as int);
                if k == 0 {
                    assert(out@[i] == v0);
                } else if k == 1 {
                    assert(out@[i] == v1);
                }
            }
        }
        p = p + 1;
    }
    assert(out@ =~= planar_rgba(bd@, w as int, h as int, ch as int, size as int)) by {
        assert(4 * w * h == 4 * n) by (nonlinear_arith) requires n == w * h;
    }
    out
}

/// The PB2 type-1 image of `s`: one LZSS stream of planar 8 by 8 blocks.
pub open spec fn spec_decode_pb2_type1(s: Seq<u8>) -> Result<(u32, u32, Seq<u8>), CmvsError> {
    match spec_require_pb2_variant(s, 1) {
        Err(e) => Err(e),
        Ok(m) => match spec_pixel_channels(m, CmvsError::Pb2Bpp) {
            Err(e) => Err(e),
            Ok(ch) => match spec_checked_image_bytes(m.width as int, m.height as int, ch as int, CmvsError::Pb2Pixels) {
                Err(e) => Err(e),
                Ok(n) => match spec_decode_pb_lzss(pb2_plain(s), m.offset_1->0 as int, m.offset_2->0 as int, n as nat) {
                    Err(e) => Err(e),
                    Ok(bd) => Ok((m.width as u32, m.height as u32,
                        planar_rgba(bd, m.width as int, m.height as int, ch as int, 8))),
                },
            },
        },
    }
}

/// Decodes a PB2 type-1 image of planar 8 by 8 blocks.
pub fn decode_pb2_type1(source: &[u8]) -> (r: Result<PbDecodedImage, CmvsError>)
    ensures
        match r {
            Ok(img) => spec_decode_pb2_type1(source@) == Ok::<(u32, u32, Seq<u8>), CmvsError>(img@),
            Err(e) => spec_decode_pb2_type1(source@) == Err::<(u32, u32, Seq<u8>), CmvsError>(e),
        },
{
    let metadata = require_pb2_variant(source, 1)?;
    let channels = pb2_channels(metadata)?;
    let decoded = decrypt_pb2_source(source)?;
    let width = metadata.width as usize;
    let height = metadata.height as usize;
    let n = checked_image_bytes(width, height, channels, CmvsError::Pb2Pixels)?;
    let offset_1 = pb2_offset(metadata.offset_1, "PB2 type-1 control offset is missing")?;
    let offset_2 = pb2_offset(metadata.offset_2, "PB2 type-1 data offset is missing")?;
    let block_data = decode_pb_lzss(decoded.as_slice(), offset_1, offset_2, n)?;
    let rgba = gather_planar_rgba(&block_data, width as u64, height as u64, channels as u64, 8);
    proof {
        assert(4 * width * height <= 4 * 0xffff * 0xffff) by (nonlinear_arith) requires width <= 0xffff, height <= 0xffff;
    }
    Ok(PbDecodedImage { width: width as u32, height: height as u32, rgba })
}

/// RGBA bytes of the four XOR-chained PB2 type-6 planes.
pub open spec fn xor_planes_rgba(c0: Seq<u8>, c1: Seq<u8>, c2: Seq<u8>, c3: Seq<u8>, n: int) -> Seq<u8> {
    Seq::new((4 * n) as nat, |i: int| {
        let p = i / 4;
        let k = i % 4;
        let red = c2[p] ^ c3[p];
        let green = c1[p] ^ red;
        let blue = c0[p] ^ green;
        if k == 0 { red } else if k == 1 { green } else if k == 2 { blue } else { c3[p] }
    })
}

/// The plane `c` of a PB2 type-6 image whose channel table is at `table`.
pub open spec fn spec_pb2_type6_plane(d: Seq<u8>, table: int, c: int, n: nat) -> Result<Seq<u8>, CmvsError> {
    let entry = table + c * 8;
    if entry > usize::MAX {
        Err(CmvsError::Pb2Layout)
    } else {
        match spec_pb_u32(d, entry) {
            Err(e) => Err(e),
            Ok(cd) => match spec_pb_u32(d, entry + 4) {
                Err(e) => Err(e),
                Ok(dd) => if table + 0x20 + cd > usize::MAX || table + 0x20 + dd > usize::MAX {
                    Err(CmvsError::Pb2Layout)
                } else {
                    spec_decode_pb_lzss(d, table + 0x20 + cd, table + 0x20 + dd, n)
                },
            },
        }
    }
}

/// The PB2 type-6 image of `s`: four LZSS planes chained by XOR.
pub open spec fn spec_decode_pb2_type6(s: Seq<u8>) -> Result<(u32, u32, Seq<u8>), CmvsError> {
    match spec_require_pb2_variant(s, 6) {
        Err(e) => Err(e),
        Ok(m) => if m.bits_per_pixel != 32 {
            Err(CmvsError::Pb2Bpp)
        } else {
            let d = pb2_plain(s);
            let n = (m.width * m.height) as nat;
            let z = if d.len() >= 0x24 { spec_find_zero(d, 0x24) } else { d.len() as int };
            if z >= d.len() || z + 3 > usize::MAX {
                Err(CmvsError::Pb2Layout)
            } else {
                let table = (z + 3) / 4 * 4;
                match spec_pb2_type6_plane(d, table, 0, n) {
                    Err(e) => Err(e),
                    Ok(c0) => match spec_pb2_type6_plane(d, table, 1, n) {
                        Err(e) => Err(e),
                        Ok(c1) => match spec_pb2_type6_plane(d, table, 2, n) {
                            Err(e) => Err(e),
                            Ok(c2) => match spec_pb2_type6_plane(d, table, 3, n) {
                                Err(e) => Err(e),
                                Ok(c3) => Ok((m.width as u32, m.height as u32, xor_planes_rgba(c0, c1, c2, c3, n as int))),
                            },
                        },
                    },
                }
            }
        },
    }
}

fn pb2_type6_plane(d: &Vec<u8>, table: usize, c: usize, n: usize) -> (r: Result<Vec<u8>, CmvsError>)
    requires
        c < 4,
    ensures
        match r {
            Ok(v) => spec_pb2_type6_plane(d@, table as int, c as int, n as nat) == Ok::<Seq<u8>, CmvsError>(v@) && v@.len() == n,
            Err(e) => spec_pb2_type6_plane(d@, table as int, c as int, n as nat) == Err::<Seq<u8>, CmvsError>(e),
        },
{
    let _len = d.len();
    if table > usize::MAX - c * 8 {
        return Err(CmvsError::Pb2Layout);
    }
    let entry = table + c * 8;
    let cd = pb3_offset(d.as_slice(), entry)?;
    if entry > usize::MAX - 4 {
        return Err(CmvsError::PbHeader);
    }
    let dd = pb3_offset(d.as_slice(), entry + 4)?;
    if table > usize::MAX - 0x20 || table + 0x20 > usize::MAX - cd || table + 0x20 > usize::MAX - dd {
        return Err(CmvsError::Pb2Layout);
    }
    decode_pb_lzss(d.as_slice(), table + 0x20 + cd, table + 0x20 + dd, n)
}

/// Decodes a PB2 type-6 image of four XOR-chained planes; it must have
/// 32-bit pixels.
pub fn decode_pb2_type6(source: &[u8]) -> (r: Result<PbDecodedImage, CmvsError>)
    ensures
        match r {
            Ok(img) => spec_decode_pb2_type6(source@) == Ok::<(u32, u32, Seq<u8>), CmvsError>(img@),
            Err(e) => spec_decode_pb2_type6(source@) == Err::<(u32, u32, Seq<u8>), CmvsError>(e),
        },
{
    let metadata = require_pb2_variant(source, 6)?;
    if metadata.bits_per_pixel != 32 {
        return Err(CmvsError::Pb2Bpp);
    }
    let decoded = decrypt_pb2_source(source)?;
    let w = metadata.width as usize;
    let h = metadata.height as usize;
    assert(w * h <= 0xffff * 0xffff) by (nonlinear_arith) requires w <= 0xffff, h <= 0xffff;
    let n = w * h;
    let len = decoded.len();
    let z = if len >= 0x24 { find_zero(decoded.as_slice(), 0x24) } else { len };
    if z >= len {
        return Err(CmvsError::Pb2Layout);
    }
    if z > usize::MAX - 3 {
        return Err(CmvsError::Pb2Layout);
    }
    let table = (z + 3) / 4 * 4;
    let c0 = pb2_type6_plane(&decoded, table, 0, n)?;
    let c1 = pb2_type6_plane(&decoded, table, 1, n)?;
    let c2 = pb2_type6_plane(&decoded, table, 2, n)?;
    let c3 = pb2_type6_plane(&decoded, table, 3, n)?;
    let mut rgba: Vec<u8> = Vec::new();
    let mut p: usize = 0;
    while p < n
        invariant
            p <= n,
            c0@.len() == n && c1@.len() == n && c2@.len() == n && c3@.len() == n,
            rgba@.len() == 4 * p,
            forall|i: int| 0 <= i < 4 * p ==> #[trigger] rgba@[i] == xor_planes_rgba(c0@, c1@, c2@, c3@, n as int)[i],
        decreases n - p,
    {
        let red = c2[p] ^ c3[p];
        let green = c1[p] ^ red;
        let blue = c0[p] ^ green;
        rgba.push(red);
        rgba.push(green);
        rgba.push(blue);
        rgba.push(c3[p]);
        assert forall|i: int| 0 <= i < 4 * (p + 1) implies #[trigger] rgba@[i] == xor_planes_rgba(c0@, c1@, c2@, c3@, n as int)[i] by {
            if i >= 4 * p {
                lemma_quad(p as int, i - 4 * p);
            }
        }
        p = p + 1;
    }
    assert(rgba@ =~= xor_planes_rgba(c0@, c1@, c2@, c3@, n as int));
    Ok(PbDecodedImage { width: w as u32, height: h as u32, rgba })
}

/// The error codes of the PB2 block map.
pub open spec fn pb2_block_codes() -> BlockCodes {
    BlockCodes { control: CmvsError::Pb2Control, data: CmvsError::Pb2Data, output: CmvsError::Pb2Output }
}

/// Channel `c` of a PB2 type-2 image: its decoded plane, block map and the
/// next channel's control and data headers.
#[verifier::opaque]
pub open spec fn spec_pb2_type2_channel(d: Seq<u8>, g: BlockGeometry, bc: int, bd: int, c: int, ctrl_h: int, data_h: int)
    -> Result<(Seq<u8>, Seq<BlockSource>, int, int), CmvsError>
{
    if bc + c * 4 > usize::MAX || bd + c * 4 > usize::MAX {
        Err(CmvsError::Pb2Layout)
    } else {
        match spec_pb_u32(d, bc + c * 4) {
            Err(e) => Err(e),
            Ok(cd) => match spec_pb_u32(d, bd + c * 4) {
                Err(e) => Err(e),
                Ok(dd) => match spec_pb_u32(d, ctrl_h) {
                    Err(e) => Err(e),
                    Ok(bp) => match spec_pb_u32(d, ctrl_h + 4) {
                        Err(e) => Err(e),
                        Ok(bdl) => if ctrl_h + bp + bdl + 12 > usize::MAX {
                            Err(CmvsError::Pb2Layout)
                        } else {
                            match spec_pb_u32(d, ctrl_h + 8) {
                                Err(e) => Err(e),
                                Ok(unpacked) => if unpacked > g.width * g.height || data_h + dd > usize::MAX {
                                    Err(CmvsError::Pb2Layout)
                                } else {
                                    match spec_decode_pb_lzss(d, ctrl_h + bp + bdl + 12, data_h + dd, unpacked as nat) {
                                        Err(e) => Err(e),
                                        Ok(plane) => if ctrl_h + cd + 12 > usize::MAX {
                                            Err(CmvsError::Pb2Layout)
                                        } else {
                                            match spec_block_map(d, plane.len() as int, g, pb2_block_codes(), 0,
                                                BlockCursor { flag_offset: (ctrl_h + 12) as usize, flag_mask: 0x80,
                                                    literal_offset: (ctrl_h + cd + 12) as usize, plane_cursor: 0 }, Seq::empty()) {
                                                Err(e) => Err(e),
                                                Ok((descs, st)) => if st.plane_cursor != plane.len() {
                                                    Err(CmvsError::Pb2Output)
                                                } else if data_h + dd > usize::MAX {
                                                    Err(CmvsError::Pb2Layout)
                                                } else {
                                                    Ok((plane, descs, ctrl_h + cd, data_h + dd))
                                                },
                                            }
                                        },
                                    }
                                },
                            }
                        },
                    },
                },
            },
        }
    }
}

/// Channels `c` and up of a PB2 type-2 image, after `planes` and `descs`.
pub open spec fn spec_pb2_type2_channels(d: Seq<u8>, g: BlockGeometry, bc: int, bd: int, ch: nat, c: nat, ctrl_h: int,
    data_h: int, planes: Seq<Seq<u8>>, descs: Seq<Seq<BlockSource>>) -> Result<(Seq<Seq<u8>>, Seq<Seq<BlockSource>>), CmvsError>
    decreases ch - c,
{
    if c >= ch {
        Ok((planes, descs))
    } else {
        match spec_pb2_type2_channel(d, g, bc, bd, c as int, ctrl_h, data_h) {
            Err(e) => Err(e),
            Ok((plane, map, nc, nd)) => spec_pb2_type2_channels(d, g, bc, bd, ch, c + 1, nc, nd, planes.push(plane), descs.push(map)),
        }
    }
}

/// The geometry of a `w` by `h` image cut into `size` blocks.
pub open spec fn geometry(w: int, h: int, size: int) -> BlockGeometry {
    BlockGeometry {
        width: w,
        height: h,
        size,
        blocks_x: (w + size - 1) / size,
        blocks: ((w + size - 1) / size * ((h + size - 1) / size)) as nat,
    }
}

/// The image of block-mapped channel planes, or the error that stopped
/// their decoding.
pub open spec fn block_image(r: Result<(Seq<Seq<u8>>, Seq<Seq<BlockSource>>), CmvsError>, w: u16, h: u16, g: BlockGeometry,
    ch: int) -> Result<(u32, u32, Seq<u8>), CmvsError>
{
    match r {
        Err(e) => Err(e),
        Ok((planes, descs)) => Ok((w as u32, h as u32, block_rgba(planes, descs, g, ch))),
    }
}

/// The PB2 type-2 image of `s`: per channel, a block map of constant or
/// LZSS-decoded 8 by 8 blocks.
pub open spec fn spec_decode_pb2_type2(s: Seq<u8>) -> Result<(u32, u32, Seq<u8>), CmvsError> {
    match spec_require_pb2_variant(s, 2) {
        Err(e) => Err(e),
        Ok(m) => match spec_pixel_channels(m, CmvsError::Pb2Bpp) {
            Err(e) => Err(e),
            Ok(ch) => match spec_checked_image_bytes(m.width as int, m.height as int, ch as int, CmvsError::Pb2Pixels) {
                Err(e) => Err(e),
                Ok(_) => {
                    let bc = m.offset_1->0 as int;
                    let bd = m.offset_2->0 as int;
                    let g = geometry(m.width as int, m.height as int, 8);
                    if bc + ch * 4 > usize::MAX || bd + ch * 4 > usize::MAX {
                        Err(CmvsError::Pb2Layout)
                    } else {
                        block_image(spec_pb2_type2_channels(pb2_plain(s), g, bc, bd, ch as nat, 0, bc + ch * 4, bd + ch * 4,
                            Seq::empty(), Seq::empty()), m.width, m.height, g, ch as int)
                    }
                },
            },
        },
    }
}

fn pb_u32_at(d: &Vec<u8>, base: usize, delta: usize) -> (r: Result<usize, CmvsError>)
    ensures
        match r {
            Ok(v) => spec_pb_u32(d@, base + delta) == Ok::<u32, CmvsError>(v as u32) && v as u32 as usize == v,
            Err(e) => spec_pb_u32(d@, base + delta) == Err::<u32, CmvsError>(e),
        },
{
    let _len = d.len();
    if base > usize::MAX - delta {
        return Err(CmvsError::PbHeader);
    }
    pb3_offset(d.as_slice(), base + delta)
}

fn pb2_type2_channel(d: &Vec<u8>, w: usize, h: usize, bc: usize, bd: usize, c: usize, ctrl_h: usize, data_h: usize)
    -> (r: Result<(Vec<u8>, Vec<BlockSource>, usize, usize), CmvsError>)
    requires
        0 < w <= 0xffff,
        0 < h <= 0xffff,
        c < 4,
    ensures
        match r {
            Ok((plane, descs, nc, nd)) => spec_pb2_type2_channel(d@, geometry(w as int, h as int, 8), bc as int, bd as int,
                c as int, ctrl_h as int, data_h as int) == Ok::<(Seq<u8>, Seq<BlockSource>, int, int), CmvsError>(
                    (plane@, descs@, nc as int, nd as int))
                && descs@.len() == geometry(w as int, h as int, 8).blocks
                && blocks_in_plane(descs@, geometry(w as int, h as int, 8), plane@.len() as int),
            Err(e) => spec_pb2_type2_channel(d@, geometry(w as int, h as int, 8), bc as int, bd as int, c as int,
                ctrl_h as int, data_h as int) == Err::<(Seq<u8>, Seq<BlockSource>, int, int), CmvsError>(e),
        },
{
    reveal(spec_pb2_type2_channel);
    if bc > usize::MAX - c * 4 || bd > usize::MAX - c * 4 {
        return Err(CmvsError::Pb2Layout);
    }
    let cd = pb_u32_at(d, bc, c * 4)?;
    let dd = pb_u32_at(d, bd, c * 4)?;
    let bp = pb_u32_at(d, ctrl_h, 0)?;
    let bdl = pb_u32_at(d, ctrl_h, 4)?;
    if ctrl_h > usize::MAX - bp || ctrl_h + bp > usize::MAX - bdl || ctrl_h + bp + bdl > usize::MAX - 12 {
        return Err(CmvsError::Pb2Layout);
    }
    let unpacked = pb_u32_at(d, ctrl_h, 8)?;
    assert(w * h <= 0xffff * 0xffff) by (nonlinear_arith) requires w <= 0xffff, h <= 0xffff;
    if unpacked > w * h || data_h > usize::MAX - dd {
        return Err(CmvsError::Pb2Layout);
    }
    let plane = decode_pb_lzss(d.as_slice(), ctrl_h + bp + bdl + 12, data_h + dd, unpacked)?;
    if ctrl_h > usize::MAX - cd || ctrl_h + cd > usize::MAX - 12 {
        return Err(CmvsError::Pb2Layout);
    }
    let blocks_x = (w + 7) / 8;
    assert(blocks_x * ((h + 7) / 8) <= 0x2000 * 0x2000) by (nonlinear_arith)
        requires
            blocks_x == (w + 7) / 8,
            w <= 0xffff,
            h <= 0xffff;
    let blocks = blocks_x * ((h + 7) / 8);
    let start = BlockCursor { flag_offset: ctrl_h + 12, flag_mask: 0x80, literal_offset: ctrl_h + cd + 12, plane_cursor: 0 };
    let codes = BlockCodes { control: CmvsError::Pb2Control, data: CmvsError::Pb2Data, output: CmvsError::Pb2Output };
    let (descs, st) = block_map(d, plane.len(), w, h, 8, blocks_x, blocks, codes, start)?;
    if st.plane_cursor != plane.len() {
        return Err(CmvsError::Pb2Output);
    }
    if data_h > usize::MAX - dd {
        return Err(CmvsError::Pb2Layout);
    }
    Ok((plane, descs, ctrl_h + cd, data_h + dd))
}

/// Decodes a PB2 type-2 image of constant or LZSS-decoded 8 by 8 blocks.
#[verifier::rlimit(30)]
pub fn decode_pb2_type2(source: &[u8]) -> (r: Result<PbDecodedImage, CmvsError>)
    ensures
        match r {
            Ok(img) => spec_decode_pb2_type2(source@) == Ok::<(u32, u32, Seq<u8>), CmvsError>(img@),
            Err(e) => spec_decode_pb2_type2(source@) == Err::<(u32, u32, Seq<u8>), CmvsError>(e),
        },
{
    let metadata = require_pb2_variant(source, 2)?;
    let channels = pb2_channels(metadata)?;
    let decoded = decrypt_pb2_source(source)?;
    let w = metadata.width as usize;
    let h = metadata.height as usize;
    let _n = checked_image_bytes(w, h, channels, CmvsError::Pb2Pixels)?;
    let bc = pb2_offset(metadata.offset_1, "PB2 type-2 control offset is missing")?;
    let bd = pb2_offset(metadata.offset_2, "PB2 type-2 data offset is missing")?;
    if bc > usize::MAX - channels * 4 || bd > usize::MAX - channels * 4 {
        return Err(CmvsError::Pb2Layout);
    }
    let ghost g = geometry(w as int, h as int, 8);
    let ghost d = decoded@;
    assert(spec_decode_pb2_type2(source@) == block_image(spec_pb2_type2_channels(d, g, bc as int, bd as int,
        channels as nat, 0, (bc + channels * 4) as int, (bd + channels * 4) as int, Seq::empty(), Seq::empty()),
        metadata.width, metadata.height, g, channels as int));
    let mut ctrl_h = bc + channels * 4;
    let mut data_h = bd + channels * 4;
    let mut planes: Vec<Vec<u8>> = Vec::new();
    let mut descs: Vec<Vec<BlockSource>> = Vec::new();
    assert(planes_view(planes@) =~= Seq::<Seq<u8>>::empty());
    assert(descs_view(descs@) =~= Seq::<Seq<BlockSource>>::empty());
    let mut c: usize = 0;
    while c < channels
        invariant
            c <= channels,
            channels == 3 || channels == 4,
            0 < w <= 0xffff,
            0 < h <= 0xffff,
            d == decoded@,
            g == geometry(w as int, h as int, 8),
            w == metadata.width,
            h == metadata.height,
            spec_decode_pb2_type2(source@) == block_image(spec_pb2_type2_channels(d, g, bc as int, bd as int,
                channels as nat, 0, (bc + channels * 4) as int, (bd + channels * 4) as int, Seq::empty(), Seq::empty()),
                metadata.width, metadata.height, g, channels as int),
            planes@.len() == c,
            descs@.len() == c,
            forall|k: int| 0 <= k < c ==> (#[trigger] descs@[k])@.len() == g.blocks,
            forall|k: int| 0 <= k < c ==> blocks_in_plane((#[trigger] descs@[k])@, g, planes@[k]@.len() as int),
            spec_pb2_type2_channels(d, g, bc as int, bd as int, channels as nat, 0, (bc + channels * 4) as int,
                (bd + channels * 4) as int, Seq::empty(), Seq::empty())
                == spec_pb2_type2_channels(d, g, bc as int, bd as int, channels as nat, c as nat, ctrl_h as int,
                    data_h as int, planes_view(planes@), descs_view(descs@)),
        decreases channels - c,
    {
        let (plane, map, nc, nd) = pb2_type2_channel(&decoded, w, h, bc, bd, c, ctrl_h, data_h)?;
        let ghost pv = planes_view(planes@);
        let ghost dv = descs_view(descs@);
        planes.push(plane);
        descs.push(map);
        assert(planes_view(planes@) =~= pv.push(plane@));
        assert(descs_view(descs@) =~= dv.push(map@));
        ctrl_h = nc;
        data_h = nd;
        c = c + 1;
    }
    let blocks_x = (w + 7) / 8;
    assert(blocks_x * ((h + 7) / 8) <= 0x2000 * 0x2000) by (nonlinear_arith)
        requires
            blocks_x == (w + 7) / 8,
            w <= 0xffff,
            h <= 0xffff;
    let blocks = blocks_x * ((h + 7) / 8);
    let rgba = gather_block_rgba(&planes, &descs, w, h, channels, 8, blocks_x, blocks);
    Ok(PbDecodedImage { width: w as u32, height: h as u32, rgba })
}

/// The JBP bounds of a decrypted PB2 type-4 source: the stream ends with
/// the container, and a 32-bit image with a non-zero alpha offset has its
/// alpha stream from that offset to the end.
pub open spec fn spec_pb2_jbp_bounds(d: Seq<u8>, m: super::PbMetadata) -> crate::jbp::JbpBounds {
    let alpha = m.offset_1->0 as usize;
    crate::jbp::JbpBounds {
        payload_end: d.len() as usize,
        alpha: if m.bits_per_pixel == 32 && alpha != 0 { Some((alpha, d.len() as usize)) } else { None },
    }
}

/// The image a PB2 type-4 (JBP) source decodes to.
pub open spec fn spec_decode_pb2_jbp(s: Seq<u8>) -> Result<(u32, u32, Seq<u8>), CmvsError> {
    match spec_require_pb2_variant(s, 4) {
        Err(e) => Err(e),
        Ok(m) => match super::spec_decrypt_pb2_source(s) {
            Err(e) => Err(e),
            Ok(d) => if m.offset_1 is None {
                Err(CmvsError::Pb2Layout)
            } else {
                crate::jbp::spec_decode_jbp(d, 0x20, m.width, m.height, m.bits_per_pixel, spec_pb2_jbp_bounds(d, m))
            },
        },
    }
}

/// Decodes PB2 type-4 JBP with the alpha stream bounded by the container
/// end; PB2 has no alpha-length field.
pub fn decode_pb2_jbp(source: &[u8]) -> (r: Result<PbDecodedImage, CmvsError>)
    ensures
        match spec_decode_pb2_jbp(source@) {
            Ok(v) => r matches Ok(img) && img@ == v,
            Err(e) => r matches Err(e2) && e2 == e,
        },
{
    let metadata = require_pb2_variant(source, 4)?;
    let decoded = decrypt_pb2_source(source)?;
    let alpha_offset = pb2_offset(metadata.offset_1, "PB2 JBP alpha offset is missing")?;
    let end = decoded.len();
    let alpha = if metadata.bits_per_pixel == 32 && alpha_offset != 0 { Some((alpha_offset, end)) } else { None };
    crate::jbp::decode_jbp(
        decoded.as_slice(),
        super::PB2_HEADER_BYTES,
        metadata.width,
        metadata.height,
        metadata.bits_per_pixel,
        crate::jbp::JbpBounds { payload_end: end, alpha },
    )
}

/// The image a PB2 source decodes to, by its type.
pub open spec fn spec_decode_pb2_image(s: Seq<u8>) -> Result<(u32, u32, Seq<u8>), CmvsError> {
    match super::spec_parse_pb2_metadata(s) {
        Err(e) => Err(e),
        Ok(m) => if m.image_type == 1 {
            spec_decode_pb2_type1(s)
        } else if m.image_type == 2 {
            spec_decode_pb2_type2(s)
        } else if m.image_type == 4 {
            spec_decode_pb2_jbp(s)
        } else if m.image_type == 6 {
            spec_decode_pb2_type6(s)
        } else {
            Err(CmvsError::Pb2Variant)
        },
    }
}

/// Decodes the PB2 variants 1, 2, 4 and 6; other types are refused.
pub fn decode_pb2_image(source: &[u8]) -> (r: Result<PbDecodedImage, CmvsError>)
    ensures
        match spec_decode_pb2_image(source@) {
            Ok(v) => r matches Ok(img) && img@ == v,
            Err(e) => r matches Err(e2) && e2 == e,
        },
{
    let metadata = super::parse_pb2_metadata(source)?;
    if metadata.image_type == 1 {
        decode_pb2_type1(source)
    } else if metadata.image_type == 2 {
        decode_pb2_type2(source)
    } else if metadata.image_type == 4 {
        decode_pb2_jbp(source)
    } else if metadata.image_type == 6 {
        decode_pb2_type6(source)
    } else {
        Err(CmvsError::Pb2Variant)
    }
}

} // verus!
