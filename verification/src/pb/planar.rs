//! The planar block order of the PB block codecs: an image is cut into
//! square blocks in raster order, each stored row by row, one channel
//! plane after another.
use vstd::prelude::*;

verus! {

/// Extent of block `b` along an axis of `total` pixels cut into `size`.
pub open spec fn block_extent(total: int, b: int, size: int) -> int {
    if total - b * size < size { total - b * size } else { size }
}

/// Position of pixel `(x, y)` in one channel plane stored block by block.
pub open spec fn planar_index(x: int, y: int, w: int, h: int, size: int) -> int {
    let by = y / size;
    let bx = x / size;
    by * size * w + bx * size * block_extent(h, by, size) + (y % size) * block_extent(w, bx, size) + x % size
}

pub proof fn lemma_planar_index_bound(x: int, y: int, w: int, h: int, size: int)
    requires
        0 <= x < w,
        0 <= y < h,
        size > 0,
    ensures
        0 <= planar_index(x, y, w, h, size) < w * h,
{
    let by = y / size;
    let bx = x / size;
    let ry = y % size;
    let rx = x % size;
    vstd::arithmetic::div_mod::lemma_fundamental_div_mod(y, size);
    vstd::arithmetic::div_mod::lemma_fundamental_div_mod(x, size);
    vstd::arithmetic::div_mod::lemma_mod_pos_bound(y, size);
    vstd::arithmetic::div_mod::lemma_mod_pos_bound(x, size);
    assert(by >= 0 && bx >= 0) by {
        vstd::arithmetic::div_mod::lemma_div_pos_is_pos(y, size);
        vstd::arithmetic::div_mod::lemma_div_pos_is_pos(x, size);
    }
    let bh = block_extent(h, by, size);
    let bw = block_extent(w, bx, size);
    assert(y == size * by + ry);
    assert(x == size * bx + rx);
    assert(ry < bh && rx < bw && bh > 0 && bw > 0) by (nonlinear_arith)
        requires
            y == size * by + ry,
            x == size * bx + rx,
            0 <= ry < size,
            0 <= rx < size,
            y < h,
            x < w,
            bh == (if h - by * size < size { h - by * size } else { size }),
            bw == (if w - bx * size < size { w - bx * size } else { size });
    assert(by * size + bh <= h) by (nonlinear_arith)
        requires
            bh == (if h - by * size < size { h - by * size } else { size }),
            y == size * by + ry,
            0 <= ry,
            y < h;
    assert(bx * size + bw <= w) by (nonlinear_arith)
        requires
            bw == (if w - bx * size < size { w - bx * size } else { size }),
            x == size * bx + rx,
            0 <= rx,
            x < w;
    let p = by * size * w + bx * size * bh + ry * bw + rx;
    assert(0 <= p < w * h) by (nonlinear_arith)
        requires
            p == by * size * w + bx * size * bh + ry * bw + rx,
            0 <= ry < bh,
            0 <= rx < bw,
            by >= 0,
            bx >= 0,
            size > 0,
            by * size + bh <= h,
            bx * size + bw <= w;
}

/// Computes the planar position of pixel `(x, y)`.
pub fn planar_index_of(x: u64, y: u64, w: u64, h: u64, size: u64) -> (r: u64)
    requires
        x < w <= 0xffff,
        y < h <= 0xffff,
        size == 8 || size == 16,
    ensures
        r as int == planar_index(x as int, y as int, w as int, h as int, size as int),
        r < w * h,
{
    proof { lemma_planar_index_bound(x as int, y as int, w as int, h as int, size as int); }
    let by = y / size;
    let bx = x / size;
    let bh = if h - by * size < size { h - by * size } else { size };
    let bw = if w - bx * size < size { w - bx * size } else { size };
    assert(by * size <= y && bx * size <= x) by (nonlinear_arith)
        requires
            by == y / size,
            bx == x / size,
            size > 0;
    assert(by * size * w <= 0xffff * 0xffff && bx * size * bh <= 0xffff * 16 && (y % size) * bw <= 16 * 16) by (nonlinear_arith)
        requires
            by * size <= y,
            bx * size <= x,
            y < 0xffff,
            x < 0xffff,
            w <= 0xffff,
            bh <= size,
            bw <= size,
            size <= 16,
            y % size < size;
    by * size * w + bx * size * bh + (y % size) * bw + x % size
}

} // verus!
