//! The constant-or-plane block maps of the PB2 type-2 and PB3 type-1
//! codecs: a flag per block, most significant bit first, selects a constant
//! byte from the literal stream or the next block of a decoded plane.
use vstd::prelude::*;
use crate::error::CmvsError;
use super::planar::block_extent;
use super::layout::lemma_quad;

verus! {

/// Where one block of one channel takes its bytes from: a constant, or a
/// run of its decoded plane that starts at `start`.
#[derive(Debug, Clone, Copy, PartialEq, Eq, Structural)]
pub struct BlockSource {
    pub constant: bool,
    pub value: u8,
    pub start: usize,
}

/// The error codes of one codec's block map.
#[derive(Debug, Clone, Copy, PartialEq, Eq, Structural)]
pub struct BlockCodes {
    pub control: CmvsError,
    pub data: CmvsError,
    pub output: CmvsError,
}

/// Where the block map reader stands.
#[derive(Debug, Clone, Copy, PartialEq, Eq, Structural)]
pub struct BlockCursor {
    pub flag_offset: usize,
    pub flag_mask: u8,
    pub literal_offset: usize,
    pub plane_cursor: usize,
}

/// The geometry of one block map.
pub struct BlockGeometry {
    pub width: int,
    pub height: int,
    pub size: int,
    pub blocks_x: int,
    pub blocks: nat,
}

/// The block map from block `k` on, after `acc`, with the reader's final
/// state.
pub open spec fn spec_block_map(d: Seq<u8>, plane_len: int, g: BlockGeometry, codes: BlockCodes, k: nat, st: BlockCursor,
    acc: Seq<BlockSource>) -> Result<(Seq<BlockSource>, BlockCursor), CmvsError>
    decreases g.blocks - k,
{
    if k >= g.blocks || g.blocks_x <= 0 {
        Ok((acc, st))
    } else if st.flag_offset >= d.len() {
        Err(codes.control)
    } else {
        let bw = block_extent(g.width, (k as int) % g.blocks_x, g.size);
        let bh = block_extent(g.height, (k as int) / g.blocks_x, g.size);
        let next_mask: u8 = if st.flag_mask >> 1 == 0 { 0x80 } else { st.flag_mask >> 1 };
        let next_flag = if st.flag_mask >> 1 == 0 { st.flag_offset + 1 } else { st.flag_offset as int };
        if d[st.flag_offset as int] & st.flag_mask != 0 {
            if st.literal_offset >= d.len() {
                Err(codes.data)
            } else {
                spec_block_map(d, plane_len, g, codes, k + 1,
                    BlockCursor { flag_offset: next_flag as usize, flag_mask: next_mask,
                        literal_offset: (st.literal_offset + 1) as usize, plane_cursor: st.plane_cursor },
                    acc.push(BlockSource { constant: true, value: d[st.literal_offset as int], start: 0 }))
            }
        } else if st.plane_cursor + bw * bh > plane_len {
            Err(codes.output)
        } else {
            spec_block_map(d, plane_len, g, codes, k + 1,
                BlockCursor { flag_offset: next_flag as usize, flag_mask: next_mask,
                    literal_offset: st.literal_offset, plane_cursor: (st.plane_cursor + bw * bh) as usize },
                acc.push(BlockSource { constant: false, value: 0, start: st.plane_cursor }))
        }
    }
}

/// Every plane block of `descs` lies inside a plane of `plane_len` bytes.
pub open spec fn blocks_in_plane(descs: Seq<BlockSource>, g: BlockGeometry, plane_len: int) -> bool {
    forall|k: int| 0 <= k < descs.len() && !(#[trigger] descs[k]).constant ==>
        descs[k].start + block_extent(g.width, k % g.blocks_x, g.size) * block_extent(g.height, k / g.blocks_x, g.size) <= plane_len
}

/// Reads the block map of one channel.
pub fn block_map(d: &Vec<u8>, plane_len: usize, width: usize, height: usize, size: usize, blocks_x: usize,
    blocks: usize, codes: BlockCodes, start: BlockCursor) -> (r: Result<(Vec<BlockSource>, BlockCursor), CmvsError>)
    requires
        0 < width <= 0xffff,
        0 < height <= 0xffff,
        size == 8 || size == 16,
        blocks_x == (width as int + size as int - 1) / (size as int),
        blocks == blocks_x * ((height as int + size as int - 1) / (size as int)),
        start.flag_mask != 0,
        start.plane_cursor <= plane_len,
    ensures
        ({
            let g = BlockGeometry { width: width as int, height: height as int, size: size as int, blocks_x: blocks_x as int,
                blocks: blocks as nat };
            match r {
                Ok((descs, st)) => spec_block_map(d@, plane_len as int, g, codes, 0, start, Seq::empty())
                    == Ok::<(Seq<BlockSource>, BlockCursor), CmvsError>((descs@, st))
                    && descs@.len() == blocks && blocks_in_plane(descs@, g, plane_len as int)
                    && st.plane_cursor <= plane_len,
                Err(e) => spec_block_map(d@, plane_len as int, g, codes, 0, start, Seq::empty())
                    == Err::<(Seq<BlockSource>, BlockCursor), CmvsError>(e),
            }
        }),
{
    let ghost g = BlockGeometry { width: width as int, height: height as int, size: size as int, blocks_x: blocks_x as int,
        blocks: blocks as nat };
    let len = d.len();
    let mut descs: Vec<BlockSource> = Vec::new();
    let mut st = start;
    let mut k: usize = 0;
    assert(blocks_x > 0) by (nonlinear_arith)
        requires
            blocks_x == (width as int + size as int - 1) / (size as int),
            width > 0,
            size > 0;
    while k < blocks
        invariant
            k <= blocks,
            len == d@.len(),
            0 < width <= 0xffff,
            0 < height <= 0xffff,
            size == 8 || size == 16,
            blocks_x > 0,
            blocks_x == (width as int + size as int - 1) / (size as int),
            blocks == blocks_x * ((height as int + size as int - 1) / (size as int)),
            g == (BlockGeometry { width: width as int, height: height as int, size: size as int, blocks_x: blocks_x as int,
                blocks: blocks as nat }),
            st.flag_mask != 0,
            descs@.len() == k,
            st.plane_cursor <= plane_len,
            blocks_in_plane(descs@, g, plane_len as int),
            spec_block_map(d@, plane_len as int, g, codes, 0, start, Seq::empty())
                == spec_block_map(d@, plane_len as int, g, codes, k as nat, st, descs@),
        decreases blocks - k,
    {
        if st.flag_offset >= len {
            return Err(codes.control);
        }
        let bxi = k % blocks_x;
        let byi = k / blocks_x;
        assert(bxi * size < width && byi * size < height) by (nonlinear_arith)
            requires
                bxi == k % blocks_x,
                byi == k / blocks_x,
                k < blocks,
                blocks_x > 0,
                blocks_x == (width as int + size as int - 1) / (size as int),
                blocks == blocks_x * ((height as int + size as int - 1) / (size as int)),
                size > 0;
        let bw = if width - bxi * size < size { width - bxi * size } else { size };
        let bh = if height - byi * size < size { height - byi * size } else { size };
        assert(bw * bh <= 256) by (nonlinear_arith)
            requires
                bw <= size,
                bh <= size,
                size <= 16;
        let flag = d[st.flag_offset];
        let next_mask: u8 = if st.flag_mask >> 1 == 0 { 0x80 } else { st.flag_mask >> 1 };
        let next_flag = if st.flag_mask >> 1 == 0 { st.flag_offset + 1 } else { st.flag_offset };
        let ghost before = descs@;
        if flag & st.flag_mask != 0 {
            if st.literal_offset >= len {
                return Err(codes.data);
            }
            let value = d[st.literal_offset];
            descs.push(BlockSource { constant: true, value, start: 0 });
            st = BlockCursor { flag_offset: next_flag, flag_mask: next_mask, literal_offset: st.literal_offset + 1,
                plane_cursor: st.plane_cursor };
        } else {
            if st.plane_cursor > plane_len || plane_len - st.plane_cursor < bw * bh {
                return Err(codes.output);
            }
            descs.push(BlockSource { constant: false, value: 0, start: st.plane_cursor });
            st = BlockCursor { flag_offset: next_flag, flag_mask: next_mask, literal_offset: st.literal_offset,
                plane_cursor: st.plane_cursor + bw * bh };
        }
        assert(blocks_in_plane(descs@, g, plane_len as int)) by {
            assert forall|j: int| 0 <= j < descs@.len() && !(#[trigger] descs@[j]).constant implies
                descs@[j].start + block_extent(g.width, j % g.blocks_x, g.size) * block_extent(g.height, j / g.blocks_x, g.size)
                    <= plane_len by {
                if j < k {
                    assert(descs@[j] == before[j]);
                }
            }
        }
        k = k + 1;
    }
    Ok((descs, st))
}

/// The byte of channel plane `plane` at pixel `(x, y)` under block map
/// `descs`.
pub open spec fn block_value(plane: Seq<u8>, descs: Seq<BlockSource>, g: BlockGeometry, x: int, y: int) -> u8 {
    let k = (y / g.size) * g.blocks_x + x / g.size;
    let b = descs[k];
    if b.constant {
        b.value
    } else {
        plane[b.start + (y % g.size) * block_extent(g.width, x / g.size, g.size) + x % g.size]
    }
}

/// RGBA bytes of a `w` by `h` image whose BGR(A) channels are given by the
/// block maps `descs` over the planes `planes`; three-channel images are
/// opaque.
pub open spec fn block_rgba(planes: Seq<Seq<u8>>, descs: Seq<Seq<BlockSource>>, g: BlockGeometry, ch: int) -> Seq<u8> {
    Seq::new((4 * g.width * g.height) as nat, |i: int| {
        let p = i / 4;
        let k = i % 4;
        let x = p % g.width;
        let y = p / g.width;
        if k < 3 {
            block_value(planes[2 - k], descs[2 - k], g, x, y)
        } else if ch == 4 {
            block_value(planes[3], descs[3], g, x, y)
        } else {
            0xffu8
        }
    })
}

pub open spec fn planes_view(v: Seq<Vec<u8>>) -> Seq<Seq<u8>> {
    Seq::new(v.len(), |i: int| v[i]@)
}

pub open spec fn descs_view(v: Seq<Vec<BlockSource>>) -> Seq<Seq<BlockSource>> {
    Seq::new(v.len(), |i: int| v[i]@)
}

pub proof fn lemma_block_coords(x: int, y: int, w: int, h: int, size: int, blocks_x: int, blocks: int)
    requires
        0 <= x < w,
        0 <= y < h,
        size > 0,
        blocks_x == (w + size - 1) / size,
        blocks == blocks_x * ((h + size - 1) / size),
    ensures
        ({
            let k = (y / size) * blocks_x + x / size;
            &&& 0 <= k < blocks
            &&& k % blocks_x == x / size
            &&& k / blocks_x == y / size
            &&& 0 <= y % size < block_extent(h, y / size, size)
            &&& 0 <= x % size < block_extent(w, x / size, size)
        }),
{
    let bx = x / size;
    let by = y / size;
    vstd::arithmetic::div_mod::lemma_fundamental_div_mod(x, size);
    vstd::arithmetic::div_mod::lemma_fundamental_div_mod(y, size);
    vstd::arithmetic::div_mod::lemma_mod_pos_bound(x, size);
    vstd::arithmetic::div_mod::lemma_mod_pos_bound(y, size);
    vstd::arithmetic::div_mod::lemma_div_pos_is_pos(x, size);
    vstd::arithmetic::div_mod::lemma_div_pos_is_pos(y, size);
    let by_n = (h + size - 1) / size;
    vstd::arithmetic::div_mod::lemma_fundamental_div_mod(w + size - 1, size);
    vstd::arithmetic::div_mod::lemma_fundamental_div_mod(h + size - 1, size);
    vstd::arithmetic::div_mod::lemma_mod_pos_bound(w + size - 1, size);
    vstd::arithmetic::div_mod::lemma_mod_pos_bound(h + size - 1, size);
    assert(bx < blocks_x) by (nonlinear_arith)
        requires
            x == size * bx + x % size,
            0 <= x % size,
            x < w,
            w + size - 1 == size * blocks_x + (w + size - 1) % size,
            (w + size - 1) % size < size,
            size > 0;
    assert(by < by_n) by (nonlinear_arith)
        requires
            y == size * by + y % size,
            0 <= y % size,
            y < h,
            h + size - 1 == size * by_n + (h + size - 1) % size,
            (h + size - 1) % size < size,
            size > 0;
    let k = by * blocks_x + bx;
    assert(0 <= k < blocks) by (nonlinear_arith)
        requires
            k == by * blocks_x + bx,
            0 <= bx < blocks_x,
            0 <= by < by_n,
            blocks == blocks_x * by_n;
    vstd::arithmetic::div_mod::lemma_fundamental_div_mod_converse_mod(k, blocks_x, by, bx);
    vstd::arithmetic::div_mod::lemma_fundamental_div_mod_converse_div(k, blocks_x, by, bx);
    let bh = block_extent(h, by, size);
    let bw = block_extent(w, bx, size);
    assert(y % size < bh && x % size < bw) by (nonlinear_arith)
        requires
            y == size * by + y % size,
            x == size * bx + x % size,
            0 <= y % size < size,
            0 <= x % size < size,
            y < h,
            x < w,
            bh == (if h - by * size < size { h - by * size } else { size }),
            bw == (if w - bx * size < size { w - bx * size } else { size });
}

/// The byte of one channel at pixel `(x, y)`.
fn block_pixel(plane: &Vec<u8>, descs: &Vec<BlockSource>, w: usize, h: usize, size: usize, blocks_x: usize, blocks: usize,
    x: usize, y: usize) -> (r: u8)
    requires
        0 < w <= 0xffff,
        0 < h <= 0xffff,
        size == 8 || size == 16,
        x < w,
        y < h,
        blocks_x == (w as int + size as int - 1) / (size as int),
        blocks == blocks_x * ((h as int + size as int - 1) / (size as int)),
        descs@.len() == blocks,
        blocks_in_plane(descs@, BlockGeometry { width: w as int, height: h as int, size: size as int,
            blocks_x: blocks_x as int, blocks: blocks as nat }, plane@.len() as int),
    ensures
        r == block_value(plane@, descs@, BlockGeometry { width: w as int, height: h as int, size: size as int,
            blocks_x: blocks_x as int, blocks: blocks as nat }, x as int, y as int),
{
    proof { lemma_block_coords(x as int, y as int, w as int, h as int, size as int, blocks_x as int, blocks as int); }
    let bxi = x / size;
    let byi = y / size;
    assert(byi * blocks_x + bxi < blocks);
    let k = byi * blocks_x + bxi;
    let b = descs[k];
    if b.constant {
        b.value
    } else {
        let bw = if w - bxi * size < size { w - bxi * size } else { size };
        let bh = if h - byi * size < size { h - byi * size } else { size };
        assert((y % size) * bw + x % size < bw * bh) by (nonlinear_arith)
            requires
                0 <= y % size < bh,
                0 <= x % size < bw;
        assert(bw * bh <= 256) by (nonlinear_arith)
            requires
                bw <= size,
                bh <= size,
                size <= 16;
        assert(b.start + bw * bh <= plane@.len());
        let _plen = plane.len();
        let off = (y % size) * bw + x % size;
        plane[b.start + off]
    }
}

/// Gathers block-mapped channel planes into RGBA raster order.
pub fn gather_block_rgba(planes: &Vec<Vec<u8>>, descs: &Vec<Vec<BlockSource>>, w: usize, h: usize, ch: usize, size: usize,
    blocks_x: usize, blocks: usize) -> (r: Vec<u8>)
    requires
        0 < w <= 0xffff,
        0 < h <= 0xffff,
        ch == 3 || ch == 4,
        size == 8 || size == 16,
        blocks_x == (w as int + size as int - 1) / (size as int),
        blocks == blocks_x * ((h as int + size as int - 1) / (size as int)),
        planes@.len() == ch,
        descs@.len() == ch,
        forall|c: int| 0 <= c < ch ==> (#[trigger] descs@[c])@.len() == blocks,
        forall|c: int| 0 <= c < ch ==> blocks_in_plane((#[trigger] descs@[c])@, BlockGeometry { width: w as int,
            height: h as int, size: size as int, blocks_x: blocks_x as int, blocks: blocks as nat }, planes@[c]@.len() as int),
    ensures
        r@ == block_rgba(planes_view(planes@), descs_view(descs@), BlockGeometry { width: w as int, height: h as int,
            size: size as int, blocks_x: blocks_x as int, blocks: blocks as nat }, ch as int),
{
    let ghost g = BlockGeometry { width: w as int, height: h as int, size: size as int, blocks_x: blocks_x as int,
        blocks: blocks as nat };
    assert(w * h <= 0xffff * 0xffff) by (nonlinear_arith) requires w <= 0xffff, h <= 0xffff;
    let n = w * h;
    let mut out: Vec<u8> = Vec::new();
    let mut p: usize = 0;
    while p < n
        invariant
            p <= n,
            n == w * h,
            0 < w <= 0xffff,
            0 < h <= 0xffff,
            ch == 3 || ch == 4,
            size == 8 || size == 16,
            blocks_x == (w as int + size as int - 1) / (size as int),
            blocks == blocks_x * ((h as int + size as int - 1) / (size as int)),
            planes@.len() == ch,
            descs@.len() == ch,
            g == (BlockGeometry { width: w as int, height: h as int, size: size as int, blocks_x: blocks_x as int,
                blocks: blocks as nat }),
            forall|c: int| 0 <= c < ch ==> (#[trigger] descs@[c])@.len() == blocks,
            forall|c: int| 0 <= c < ch ==> blocks_in_plane((#[trigger] descs@[c])@, g, planes@[c]@.len() as int),
            out@.len() == 4 * p,
            forall|i: int| 0 <= i < 4 * p ==> #[trigger] out@[i] == block_rgba(planes_view(planes@), descs_view(descs@), g, ch as int)[i],
        decreases n - p,
    {
        let x = p % w;
        let y = p / w;
        assert(x < w && y < h) by (nonlinear_arith)
            requires
                x == p % w,
                y == p / w,
                p < w * h,
                w > 0;
        assert(descs@[2]@.len() == blocks && descs@[1]@.len() == blocks && descs@[0]@.len() == blocks);
        assert(blocks_in_plane(descs@[2]@, g, planes@[2]@.len() as int));
        assert(blocks_in_plane(descs@[1]@, g, planes@[1]@.len() as int));
        assert(blocks_in_plane(descs@[0]@, g, planes@[0]@.len() as int));
        let v0 = block_pixel(&planes[2], &descs[2], w, h, size, blocks_x, blocks, x, y);
        let v1 = block_pixel(&planes[1], &descs[1], w, h, size, blocks_x, blocks, x, y);
        let v2 = block_pixel(&planes[0], &descs[0], w, h, size, blocks_x, blocks, x, y);
        let v3 = if ch == 4 {
            assert(descs@[3]@.len() == blocks);
            assert(blocks_in_plane(descs@[3]@, g, planes@[3]@.len() as int));
            block_pixel(&planes[3], &descs[3], w, h, size, blocks_x, blocks, x, y)
        } else {
            0xff
        };
        out.push(v0);
        out.push(v1);
        out.push(v2);
        out.push(v3);
        assert forall|i: int| 0 <= i < 4 * (p + 1) implies #[trigger] out@[i] == block_rgba(planes_view(planes@), descs_view(descs@), g, ch as int)[i] by {
            if i >= 4 * p {
                lemma_quad(p as int, i - 4 * p);
                assert(4 * w * h == 4 * n) by (nonlinear_arith) requires n == w * h;
            }
        }
        p = p + 1;
    }
    assert(out@ =~= block_rgba(planes_view(planes@), descs_view(descs@), g, ch as int)) by {
        assert(4 * w * h == 4 * n) by (nonlinear_arith) requires n == w * h;
    }
    out
}

} // verus!
