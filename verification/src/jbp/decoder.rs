use vstd::prelude::*;
use vstd::arithmetic::power2::pow2;
use crate::error::CmvsError;
use super::bitstream::{JBitStream, bits_value, lemma_bits_value_bound};
use super::huffman::{HuffmanTree, huffman_walk, spec_tree_nodes, spec_frequencies, read_frequencies};
use super::{spec_jbp_layout, spec_align, aligned_size, spec_aligned_size, align, read_u16, read_u32, checked_range, MAX_PIXELS, MAX_DECODED_BYTES, JBP_HEADER_BYTES, JBP_TABLE_BYTES};
use super::color::{spec_inverse_dct, tile_written, tile_fits, inverse_dct, ycc_to_bgr, lemma_tile_written_len};

verus! {

/// The leaves and inner nodes of a Huffman tree.
pub struct HuffmanV {
    pub base: Seq<u8>,
    pub left: Seq<usize>,
    pub right: Seq<usize>,
}

/// The shape of an executable tree.
pub open spec fn tree_view(t: &HuffmanTree) -> HuffmanV {
    HuffmanV { base: t.leaves(), left: t.left_nodes(), right: t.right_nodes() }
}

/// One symbol read from bit `c` on: its leaf value and the cursor after it.
pub open spec fn read_symbol(t: HuffmanV, s: Seq<u8>, c: int) -> Option<(u8, int)> {
    match huffman_walk(t.left, t.right, 30, s, c) {
        Some((leaf, c1)) => Some((t.base[leaf], c1)),
        None => None,
    }
}

/// An `n`-bit magnitude with the JPEG sign convention: values below
/// `2^(n-1)` stand for negatives.
pub open spec fn extend_sign(v: u32, n: nat) -> u32 {
    if (v as nat) < pow2((n - 1) as nat) {
        v.wrapping_sub((pow2(n) - 1) as u32)
    } else {
        v
    }
}

/// The order in which AC coefficients fill an 8x8 block.
pub open spec fn zigzag_order() -> Seq<usize> {
    seq![
        1, 8, 16, 9, 2, 3, 10, 17, 24, 32, 25, 18, 11, 4, 5, 12, 19, 26, 33, 40, 48, 41, 34, 27, 20,
        13, 6, 7, 14, 21, 28, 35, 42, 49, 56, 57, 50, 43, 36, 29, 22, 15, 23, 30, 37, 44, 51, 58, 59,
        52, 45, 38, 31, 39, 46, 53, 60, 61, 54, 47, 55, 62, 63, 0
    ]
}

/// One DC difference: the cursor after it and the running sum.
pub open spec fn dc_step(t: HuffmanV, s: Seq<u8>, c: int, previous: u32) -> Result<(int, u32), CmvsError> {
    match read_symbol(t, s, c) {
        None => Err(CmvsError::JbpDcBits),
        Some((n, c1)) => if n == 0 || n > 16 {
            Err(CmvsError::JbpDc)
        } else if c1 + n > s.len() * 8 {
            Err(CmvsError::JbpDcBits)
        } else {
            Ok((c1 + n, previous.wrapping_add(extend_sign(bits_value(s, c1, n as nat) as u32, n as nat))))
        },
    }
}

/// The first `n` DC values, each the running sum kept in 16 bits, with the
/// cursor and sum after them.
pub open spec fn dc_run(t: HuffmanV, s: Seq<u8>, c: int, previous: u32, n: nat) -> Result<(Seq<i16>, int, u32), CmvsError>
    decreases n,
{
    if n == 0 {
        Ok((Seq::empty(), c, previous))
    } else {
        match dc_run(t, s, c, previous, (n - 1) as nat) {
            Err(e) => Err(e),
            Ok((values, c1, p1)) => match dc_step(t, s, c1, p1) {
                Err(e) => Err(e),
                Ok((c2, p2)) => Ok((values.push(p2 as u16 as i16), c2, p2)),
            },
        }
    }
}

/// The AC coefficients of one plane from coefficient `k` on: each symbol is
/// a run of zeros in its high nibble and a magnitude size in its low one.
pub open spec fn ac_plane(t: HuffmanV, s: Seq<u8>, c: int, k: int, table: Seq<i16>) -> Result<(Seq<i16>, int), CmvsError>
    decreases 64 - k,
{
    if k >= 63 || k < 0 {
        Ok((table, c))
    } else {
        match read_symbol(t, s, c) {
            None => Err(CmvsError::JbpAcBits),
            Some((leaf, c1)) => if leaf == 0 {
                Err(CmvsError::JbpAc)
            } else {
                let raw = leaf - 1;
                if raw == 0 {
                    Ok((table, c1))
                } else {
                    let k2 = k + raw / 16;
                    let size = raw % 16;
                    if k2 > 63 {
                        Err(CmvsError::JbpAc)
                    } else if size == 0 {
                        ac_plane(t, s, c1, k2, table)
                    } else if c1 + size > s.len() * 8 {
                        Err(CmvsError::JbpAcBits)
                    } else {
                        let v = extend_sign(bits_value(s, c1, size as nat) as u32, size as nat);
                        ac_plane(t, s, c1 + size, k2 + 1, table.update(zigzag_order()[k2] as int, v as u16 as i16))
                    }
                }
            },
        }
    }
}

/// A plane whose only coefficient so far is its DC value.
pub open spec fn dc_table(dc: i16) -> Seq<i16> {
    Seq::new(64, |i: int| if i == 0 { dc } else { 0i16 })
}

/// The coefficient tables of the first `p` planes of a block.
pub open spec fn ac_block(t: HuffmanV, s: Seq<u8>, c: int, dcs: Seq<i16>, p: nat) -> Result<(Seq<Seq<i16>>, int), CmvsError>
    decreases p,
{
    if p == 0 {
        Ok((Seq::empty(), c))
    } else {
        match ac_block(t, s, c, dcs, (p - 1) as nat) {
            Err(e) => Err(e),
            Ok((tables, c1)) => match ac_plane(t, s, c1, 0, dc_table(dcs[p - 1])) {
                Err(e) => Err(e),
                Ok((table, c2)) => Ok((tables.push(table), c2)),
            },
        }
    }
}

/// A decoded 16x16 block drawn at `dst1`: four luma tiles sharing the two
/// chroma planes.
pub open spec fn block_render(out: Seq<u8>, stride: int, dst1: int, t: Seq<Seq<i16>>, qy: Seq<i16>, qc: Seq<i16>) -> Seq<u8> {
    let cb = spec_inverse_dct(t[4], qc);
    let cr = spec_inverse_dct(t[5], qc);
    let dst2 = dst1 + stride * 9;
    let o1 = tile_written(out, stride, dst1, dst1 + stride, (spec_inverse_dct(t[0], qy), cb, cr), 0, 16);
    let o2 = tile_written(o1, stride, dst1 + 32, dst1 + stride + 32, (spec_inverse_dct(t[1], qy), cb, cr), 4, 16);
    let o3 = tile_written(o2, stride, dst2 - stride, dst2, (spec_inverse_dct(t[2], qy), cb, cr), 32, 16);
    tile_written(o3, stride, dst2 - stride + 32, dst2 + 32, (spec_inverse_dct(t[3], qy), cb, cr), 36, 16)
}

/// What the block pass works from.
pub struct BlockPlanV {
    pub s: Seq<u8>,
    pub ac: HuffmanV,
    pub dc: Seq<i16>,
    pub qy: Seq<i16>,
    pub qc: Seq<i16>,
    pub stride: int,
    pub blocks_x: int,
    pub out_len: nat,
}

/// The first byte of block `b`, blocks counted row by row.
pub open spec fn block_origin(plan: BlockPlanV, b: int) -> int {
    (b / plan.blocks_x) * plan.stride * 16 + (b % plan.blocks_x) * 64
}

/// The output after the first `k` blocks, with the AC cursor after them.
pub open spec fn blocks_run(plan: BlockPlanV, c: int, k: nat) -> Result<(Seq<u8>, int), CmvsError>
    decreases k,
{
    if k == 0 {
        Ok((Seq::new(plan.out_len, |i: int| 0u8), c))
    } else {
        match blocks_run(plan, c, (k - 1) as nat) {
            Err(e) => Err(e),
            Ok((out, c1)) => {
                let b = k - 1;
                match ac_block(plan.ac, plan.s, c1, plan.dc.subrange(6 * b, 6 * b + 6), 6) {
                    Err(e) => Err(e),
                    Ok((tables, c2)) => Ok((block_render(out, plan.stride, block_origin(plan, b), tables, plan.qy, plan.qc), c2)),
                }
            },
        }
    }
}

/// The position of AC coefficient `k` in its block.
fn zigzag(k: usize) -> (r: usize)
    requires
        k < 64,
    ensures
        r == zigzag_order()[k as int],
        r < 64,
{
    let order: [usize; 64] = [
        1, 8, 16, 9, 2, 3, 10, 17, 24, 32, 25, 18, 11, 4, 5, 12, 19, 26, 33, 40, 48, 41, 34, 27, 20,
        13, 6, 7, 14, 21, 28, 35, 42, 49, 56, 57, 50, 43, 36, 29, 22, 15, 23, 30, 37, 44, 51, 58, 59,
        52, 45, 38, 31, 39, 46, 53, 60, 61, 54, 47, 55, 62, 63, 0,
    ];
    assert(order@ =~= zigzag_order());
    order[k]
}

/// Applies the JPEG sign convention to an `n`-bit magnitude.
fn extend_sign_exec(v: u32, n: usize) -> (r: u32)
    requires
        1 <= n <= 16,
    ensures
        r == extend_sign(v, n as nat),
{
    proof {
        vstd::bits::lemma_u32_pow2_no_overflow((n - 1) as nat);
        vstd::bits::lemma_u32_pow2_no_overflow(n as nat);
        vstd::bits::lemma_u32_shl_is_mul(1, (n - 1) as u32);
        vstd::bits::lemma_u32_shl_is_mul(1, n as u32);
        vstd::arithmetic::power2::lemma_pow2_pos(n as nat);
    }
    let half: u32 = 1u32 << ((n - 1) as u32);
    let full: u32 = 1u32 << (n as u32);
    if v < half {
        v.wrapping_sub(full - 1)
    } else {
        v
    }
}

/// Once the DC pass fails, every longer pass fails the same way.
proof fn lemma_dc_run_err(t: HuffmanV, s: Seq<u8>, c: int, previous: u32, n: nat, m: nat)
    requires
        n <= m,
        dc_run(t, s, c, previous, n) is Err,
    ensures
        dc_run(t, s, c, previous, m) == dc_run(t, s, c, previous, n),
    decreases m - n,
{
    if n < m {
        lemma_dc_run_err(t, s, c, previous, n, (m - 1) as nat);
    }
}

/// Decodes `count` DC values, each a running sum of signed differences.
fn dc_pass(tree: &HuffmanTree, bits: &mut JBitStream, count: usize) -> (r: Result<Vec<i16>, CmvsError>)
    requires
        tree.wf(),
        old(bits).wf(),
        old(bits).error_code() == CmvsError::JbpDcBits,
    ensures
        match dc_run(tree_view(tree), old(bits).data(), old(bits).cursor(), 0, count as nat) {
            Ok((values, c, p)) => r matches Ok(v) && v@ == values,
            Err(e) => r == Err::<Vec<i16>, CmvsError>(e),
        },
{
    let ghost s = bits.data();
    let ghost c0 = bits.cursor();
    let mut values: Vec<i16> = Vec::new();
    let mut previous: u32 = 0;
    let mut k: usize = 0;
    while k < count
        invariant
            tree.wf(),
            bits.wf(),
            bits.data() == s,
            bits.error_code() == CmvsError::JbpDcBits,
            s == old(bits).data(),
            c0 == old(bits).cursor(),
            k <= count,
            dc_run(tree_view(tree), s, c0, 0, k as nat) == Ok::<(Seq<i16>, int, u32), CmvsError>((values@, bits.cursor(), previous)),
        decreases count - k,
    {
        let ghost c1 = bits.cursor();
        let leaf = match tree.read(bits) {
            Ok(l) => l,
            Err(e) => {
                proof { lemma_dc_run_err(tree_view(tree), s, c0, 0, (k + 1) as nat, count as nat); }
                return Err(e);
            },
        };
        let bit_count = leaf as usize;
        if bit_count == 0 || bit_count > 16 {
            proof { lemma_dc_run_err(tree_view(tree), s, c0, 0, (k + 1) as nat, count as nat); }
            return Err(CmvsError::JbpDc);
        }
        let ghost c2 = bits.cursor();
        let raw = match bits.get_bits(bit_count) {
            Ok(v) => v,
            Err(e) => {
                proof { lemma_dc_run_err(tree_view(tree), s, c0, 0, (k + 1) as nat, count as nat); }
                return Err(e);
            },
        };
        proof {
            lemma_bits_value_bound(s, c2, bit_count as nat);
        }
        let decoded = extend_sign_exec(raw, bit_count);
        previous = previous.wrapping_add(decoded);
        values.push(previous as u16 as i16);
        k = k + 1;
    }
    Ok(values)
}

proof fn lemma_nibbles(raw: u8)
    by (bit_vector)
    ensures
        (raw >> 4u8) == raw / 16,
        (raw & 15u8) == raw % 16,
{
}

/// Decodes the AC coefficients of one plane into `table`.
fn ac_plane_exec(tree: &HuffmanTree, bits: &mut JBitStream, table: &mut [i16; 64]) -> (r: Result<(), CmvsError>)
    requires
        tree.wf(),
        old(bits).wf(),
        old(bits).error_code() == CmvsError::JbpAcBits,
    ensures
        final(bits).data() == old(bits).data(),
        final(bits).error_code() == old(bits).error_code(),
        match ac_plane(tree_view(tree), old(bits).data(), old(bits).cursor(), 0, old(table)@) {
            Ok((t, c)) => r is Ok && final(table)@ == t && final(bits).wf() && final(bits).cursor() == c,
            Err(e) => r == Err::<(), CmvsError>(e),
        },
{
    let ghost s = bits.data();
    let ghost target = ac_plane(tree_view(tree), s, bits.cursor(), 0, table@);
    let mut coefficient: usize = 0;
    while coefficient < 63
        invariant
            tree.wf(),
            bits.wf(),
            bits.data() == s,
            s == old(bits).data(),
            bits.error_code() == CmvsError::JbpAcBits,
            old(bits).error_code() == CmvsError::JbpAcBits,
            target == ac_plane(tree_view(tree), old(bits).data(), old(bits).cursor(), 0, old(table)@),
            coefficient <= 64,
            ac_plane(tree_view(tree), s, bits.cursor(), coefficient as int, table@) == target,
        decreases 64 - coefficient,
    {
        let leaf = tree.read(bits)?;
        if leaf == 0 {
            return Err(CmvsError::JbpAc);
        }
        let raw = leaf - 1;
        if raw == 0 {
            return Ok(());
        }
        proof {
            lemma_nibbles(raw);
        }
        let run = (raw >> 4) as usize;
        let size = (raw & 0xF) as usize;
        coefficient = coefficient + run;
        if coefficient > 63 {
            return Err(CmvsError::JbpAc);
        }
        if size == 0 {
            continue;
        }
        let ghost c1 = bits.cursor();
        let value = bits.get_bits(size)?;
        proof {
            lemma_bits_value_bound(s, c1, size as nat);
        }
        let value = extend_sign_exec(value, size);
        let position = zigzag(coefficient);
        table[position] = value as u16 as i16;
        coefficient = coefficient + 1;
    }
    Ok(())
}

/// Decodes the AC coefficients of one plane whose DC value is `dc`.
fn ac_table(tree: &HuffmanTree, bits: &mut JBitStream, dc: i16) -> (r: Result<[i16; 64], CmvsError>)
    requires
        tree.wf(),
        old(bits).wf(),
        old(bits).error_code() == CmvsError::JbpAcBits,
    ensures
        final(bits).data() == old(bits).data(),
        final(bits).error_code() == old(bits).error_code(),
        match ac_plane(tree_view(tree), old(bits).data(), old(bits).cursor(), 0, dc_table(dc)) {
            Ok((t, c)) => r matches Ok(a) && a@ == t && final(bits).wf() && final(bits).cursor() == c,
            Err(e) => r == Err::<[i16; 64], CmvsError>(e),
        },
{
    let mut table: [i16; 64] = [0; 64];
    table[0] = dc;
    assert(table@ =~= dc_table(dc));
    ac_plane_exec(tree, bits, &mut table)?;
    Ok(table)
}

/// Once a block's AC pass fails, every longer pass fails the same way.
proof fn lemma_ac_block_err(t: HuffmanV, s: Seq<u8>, c: int, dcs: Seq<i16>, n: nat, m: nat)
    requires
        n <= m,
        ac_block(t, s, c, dcs, n) is Err,
    ensures
        ac_block(t, s, c, dcs, m) == ac_block(t, s, c, dcs, n),
    decreases m - n,
{
    if n < m {
        lemma_ac_block_err(t, s, c, dcs, n, (m - 1) as nat);
    }
}

/// Once the block pass fails, every longer pass fails the same way.
proof fn lemma_blocks_run_err(plan: BlockPlanV, c: int, n: nat, m: nat)
    requires
        n <= m,
        blocks_run(plan, c, n) is Err,
    ensures
        blocks_run(plan, c, m) == blocks_run(plan, c, n),
    decreases m - n,
{
    if n < m {
        lemma_blocks_run_err(plan, c, n, (m - 1) as nat);
    }
}

/// A 16x16 block at `dst1` lies inside the output.
pub open spec fn block_fits(len: int, stride: int, dst1: int) -> bool {
    &&& 16 <= stride
    &&& dst1 + 15 * stride + 64 <= len
    &&& dst1 + 17 * stride + 32 <= usize::MAX
}

/// The six coefficient tables of a block whose DC values start at `first`.
fn ac_block_exec(tree: &HuffmanTree, bits: &mut JBitStream, dcs: &Vec<i16>, first: usize)
    -> (r: Result<([i16; 64], [i16; 64], [i16; 64], [i16; 64], [i16; 64], [i16; 64]), CmvsError>)
    requires
        tree.wf(),
        old(bits).wf(),
        old(bits).error_code() == CmvsError::JbpAcBits,
        first + 6 <= dcs@.len(),
    ensures
        final(bits).data() == old(bits).data(),
        final(bits).error_code() == old(bits).error_code(),
        match ac_block(tree_view(tree), old(bits).data(), old(bits).cursor(), dcs@.subrange(first as int, first + 6), 6) {
            Ok((tables, c)) => r matches Ok(t) && final(bits).wf() && final(bits).cursor() == c
                && tables == Seq::empty().push(t.0@).push(t.1@).push(t.2@).push(t.3@).push(t.4@).push(t.5@),
            Err(e) => r == Err::<([i16; 64], [i16; 64], [i16; 64], [i16; 64], [i16; 64], [i16; 64]), CmvsError>(e),
        },
{
    let ghost tv = tree_view(tree);
    let ghost s = bits.data();
    let ghost c0 = bits.cursor();
    let ghost d6 = dcs@.subrange(first as int, first + 6);
    let count = dcs.len();
    assert(forall|k: int| 0 <= k < 6 ==> #[trigger] d6[k] == dcs@[first + k]);
    assert(ac_block(tv, s, c0, d6, 0) == Ok::<(Seq<Seq<i16>>, int), CmvsError>((Seq::empty(), c0)));
    let mut t0 = match ac_table(tree, bits, dcs[first]) {
        Ok(t) => t,
        Err(e) => { proof { lemma_ac_block_err(tv, s, c0, d6, 1, 6); } return Err(e); },
    };
    assert(ac_block(tv, s, c0, d6, 1) == Ok::<(Seq<Seq<i16>>, int), CmvsError>((Seq::empty().push(t0@), bits.cursor())));
    let mut t1 = match ac_table(tree, bits, dcs[first + 1]) {
        Ok(t) => t,
        Err(e) => { proof { lemma_ac_block_err(tv, s, c0, d6, 2, 6); } return Err(e); },
    };
    assert(ac_block(tv, s, c0, d6, 2) == Ok::<(Seq<Seq<i16>>, int), CmvsError>((Seq::empty().push(t0@).push(t1@), bits.cursor())));
    let mut t2 = match ac_table(tree, bits, dcs[first + 2]) {
        Ok(t) => t,
        Err(e) => { proof { lemma_ac_block_err(tv, s, c0, d6, 3, 6); } return Err(e); },
    };
    assert(ac_block(tv, s, c0, d6, 3) == Ok::<(Seq<Seq<i16>>, int), CmvsError>((Seq::empty().push(t0@).push(t1@).push(t2@), bits.cursor())));
    let mut t3 = match ac_table(tree, bits, dcs[first + 3]) {
        Ok(t) => t,
        Err(e) => { proof { lemma_ac_block_err(tv, s, c0, d6, 4, 6); } return Err(e); },
    };
    assert(ac_block(tv, s, c0, d6, 4) == Ok::<(Seq<Seq<i16>>, int), CmvsError>((Seq::empty().push(t0@).push(t1@).push(t2@).push(t3@), bits.cursor())));
    let mut t4 = match ac_table(tree, bits, dcs[first + 4]) {
        Ok(t) => t,
        Err(e) => { proof { lemma_ac_block_err(tv, s, c0, d6, 5, 6); } return Err(e); },
    };
    assert(ac_block(tv, s, c0, d6, 5) == Ok::<(Seq<Seq<i16>>, int), CmvsError>((Seq::empty().push(t0@).push(t1@).push(t2@).push(t3@).push(t4@), bits.cursor())));
    let mut t5 = match ac_table(tree, bits, dcs[first + 5]) {
        Ok(t) => t,
        Err(e) => { proof { lemma_ac_block_err(tv, s, c0, d6, 6, 6); } return Err(e); },
    };
    let ghost tables = Seq::empty().push(t0@).push(t1@).push(t2@).push(t3@).push(t4@).push(t5@);
    assert(ac_block(tv, s, c0, d6, 6) == Ok::<(Seq<Seq<i16>>, int), CmvsError>((tables, bits.cursor())));
    Ok((t0, t1, t2, t3, t4, t5))
}

/// Transforms the six planes of a block and draws it at `dst1`.
fn render_block(
    output: &mut Vec<u8>,
    stride: usize,
    dst1: usize,
    tables: ([i16; 64], [i16; 64], [i16; 64], [i16; 64], [i16; 64], [i16; 64]),
    quant_y: &[i16; 64],
    quant_c: &[i16; 64],
)
    requires
        block_fits(old(output)@.len() as int, stride as int, dst1 as int),
    ensures
        final(output)@ == block_render(old(output)@, stride as int, dst1 as int,
            Seq::empty().push(tables.0@).push(tables.1@).push(tables.2@).push(tables.3@).push(tables.4@).push(tables.5@),
            quant_y@, quant_c@),
        final(output)@.len() == old(output)@.len(),
{
    let (mut t0, mut t1, mut t2, mut t3, mut t4, mut t5) = tables;
    let _ = inverse_dct(&mut t0, quant_y);
    let _ = inverse_dct(&mut t1, quant_y);
    let _ = inverse_dct(&mut t2, quant_y);
    let _ = inverse_dct(&mut t3, quant_y);
    let _ = inverse_dct(&mut t4, quant_c);
    let _ = inverse_dct(&mut t5, quant_c);
    let dst2 = dst1 + stride * 9;
    let ghost o0 = output@;
    let _ = ycc_to_bgr(output.as_mut_slice(), stride, dst1, dst1 + stride, [&t0, &t4, &t5], 0);
    proof { lemma_tile_written_len(o0, stride as int, dst1 as int, dst1 + stride, (t0@, t4@, t5@), 0, 16); }
    let ghost o1 = output@;
    let _ = ycc_to_bgr(output.as_mut_slice(), stride, dst1 + 32, dst1 + stride + 32, [&t1, &t4, &t5], 4);
    proof { lemma_tile_written_len(o1, stride as int, dst1 + 32, dst1 + stride + 32, (t1@, t4@, t5@), 4, 16); }
    let ghost o2 = output@;
    let _ = ycc_to_bgr(output.as_mut_slice(), stride, dst2 - stride, dst2, [&t2, &t4, &t5], 32);
    proof { lemma_tile_written_len(o2, stride as int, dst2 - stride, dst2 as int, (t2@, t4@, t5@), 32, 16); }
    let ghost o3 = output@;
    let _ = ycc_to_bgr(output.as_mut_slice(), stride, dst2 - stride + 32, dst2 + 32, [&t3, &t4, &t5], 36);
    proof { lemma_tile_written_len(o3, stride as int, dst2 - stride + 32, dst2 + 32, (t3@, t4@, t5@), 36, 16); }
}

/// Decodes block `b` and draws it at `dst1`.
fn draw_block_at(
    tree: &HuffmanTree,
    bits: &mut JBitStream,
    dcs: &Vec<i16>,
    quant_y: &[i16; 64],
    quant_c: &[i16; 64],
    output: &mut Vec<u8>,
    stride: usize,
    dst1: usize,
    first: usize,
    Ghost(plan): Ghost<BlockPlanV>,
    Ghost(c0): Ghost<int>,
    Ghost(b): Ghost<nat>,
) -> (r: Result<(), CmvsError>)
    requires
        tree.wf(),
        old(bits).wf(),
        old(bits).error_code() == CmvsError::JbpAcBits,
        first == 6 * b,
        first + 6 <= dcs@.len(),
        plan.s == old(bits).data(),
        plan.ac == tree_view(tree),
        plan.dc == dcs@,
        plan.qy == quant_y@,
        plan.qc == quant_c@,
        plan.stride == stride,
        block_origin(plan, b as int) == dst1,
        block_fits(old(output)@.len() as int, stride as int, dst1 as int),
        blocks_run(plan, c0, b) == Ok::<(Seq<u8>, int), CmvsError>((old(output)@, old(bits).cursor())),
    ensures
        final(bits).data() == old(bits).data(),
        final(bits).error_code() == old(bits).error_code(),
        final(output)@.len() == old(output)@.len(),
        match blocks_run(plan, c0, b + 1) {
            Ok((out, c)) => r is Ok && final(output)@ == out && final(bits).wf() && final(bits).cursor() == c,
            Err(e) => r == Err::<(), CmvsError>(e),
        },
{
    let tables = ac_block_exec(tree, bits, dcs, first)?;
    render_block(output, stride, dst1, tables, quant_y, quant_c);
    Ok(())
}

/// A finished DC pass yields one value per request.
proof fn lemma_dc_run_len(t: HuffmanV, s: Seq<u8>, c: int, previous: u32, n: nat)
    requires
        dc_run(t, s, c, previous, n) is Ok,
    ensures
        dc_run(t, s, c, previous, n)->Ok_0.0.len() == n,
    decreases n,
{
    if n > 0 {
        lemma_dc_run_len(t, s, c, previous, (n - 1) as nat);
    }
}

/// The geometry read from a JBP header.
pub struct JbpLayoutV {
    pub data_offset: int,
    pub format: u32,
    pub aligned_height: int,
    pub stride: int,
    pub blocks_x: int,
    pub blocks_y: int,
    pub bitstream_bytes: int,
}

/// Byte `i` of `s`.
pub open spec fn byte_at(s: Seq<u8>, i: int) -> u8 {
    s[i]
}

/// The decoded blue-green-red-unused pixels of a JBP stream with the given
/// layout, rows of `stride` bytes.
pub open spec fn spec_jbp_decode(s: Seq<u8>, d: JbpLayoutV) -> Result<Seq<u8>, CmvsError> {
    let tdo = d.data_offset + 0x80;
    if exists|i: int| 0 <= i < 16 && #[trigger] byte_at(s, tdo + i) == 255 {
        Err(CmvsError::JbpTree)
    } else {
        let base = Seq::new(16, |i: int| (s[tdo + i] + 1) as u8);
        match (spec_tree_nodes(spec_frequencies(s, d.data_offset)), spec_tree_nodes(spec_frequencies(s, d.data_offset + 0x40))) {
            (Some((ldc, rdc)), Some((lac, rac))) => if d.format & 0x0800_0000u32 == 0 {
                Err(CmvsError::JbpQuantization)
            } else {
                let qo = tdo + 0x10;
                let bits = (qo + 0x80) * 8;
                let total = d.blocks_x * d.blocks_y;
                match dc_run(HuffmanV { base, left: ldc, right: rdc }, s, bits, 0, (total * 6) as nat) {
                    Err(e) => Err(e),
                    Ok((dcs, _c, _p)) => {
                        let plan = BlockPlanV {
                            s,
                            ac: HuffmanV { base, left: lac, right: rac },
                            dc: dcs,
                            qy: Seq::new(64, |i: int| s[qo + i] as i16),
                            qc: Seq::new(64, |i: int| s[qo + 0x40 + i] as i16),
                            stride: d.stride,
                            blocks_x: d.blocks_x,
                            out_len: (d.stride * d.aligned_height) as nat,
                        };
                        match blocks_run(plan, bits, total as nat) {
                            Err(e) => Err(e),
                            Ok((out, _c)) => Ok(out),
                        }
                    },
                }
            },
            _ => Err(CmvsError::JbpTree),
        }
    }
}

/// The decoder of one JBP stream, once its header has been checked.
pub struct JbpDecoder<'a> {
    source: &'a [u8],
    data_offset: usize,
    format: u32,
    aligned_height: usize,
    stride: usize,
    blocks_x: usize,
    blocks_y: usize,
    bitstream_bytes: usize,
}

impl<'a> JbpDecoder<'a> {
    /// The stream's bytes.
    pub closed spec fn data(&self) -> Seq<u8> {
        self.source@
    }

    /// The checked layout.
    pub closed spec fn layout(&self) -> JbpLayoutV {
        JbpLayoutV {
            data_offset: self.data_offset as int,
            format: self.format,
            aligned_height: self.aligned_height as int,
            stride: self.stride as int,
            blocks_x: self.blocks_x as int,
            blocks_y: self.blocks_y as int,
            bitstream_bytes: self.bitstream_bytes as int,
        }
    }

    /// Checks the header of the stream at `offset` and the bounds of its bit
    /// stream, which ends at `bitstream_end`.
    #[verifier::rlimit(30)]
    pub fn new(source: &'a [u8], offset: usize, bitstream_end: usize) -> (r: Result<Self, CmvsError>)
        ensures
            match spec_jbp_layout(source@, offset as int, bitstream_end as int) {
                Ok(l) => r matches Ok(d) && d.wf() && d.layout() == l && d.data() == source@,
                Err(e) => r matches Err(e2) && e2 == e,
            },
    {
        let len = source.len();
        checked_range(source, offset, JBP_HEADER_BYTES, CmvsError::JbpHeader)?;
        let table = read_u32(source, offset + 4)?;
        let data_offset = match offset.checked_add(table) {
            Some(v) => v,
            None => return Err(CmvsError::JbpLayout),
        };
        checked_range(source, data_offset, JBP_TABLE_BYTES, CmvsError::JbpTable)?;
        let format = read_u32(source, offset + 8)? as u32;
        let width = read_u16(source, offset + 0x10)? as usize;
        let height = read_u16(source, offset + 0x12)? as usize;
        if width == 0 || height == 0 {
            return Err(CmvsError::JbpDimensions);
        }
        let sampling = (format >> 28) & 3;
        assert((format >> 28u32) & 3u32 <= 3) by (bit_vector);
        if sampling == 3 {
            return Err(CmvsError::JbpFormat);
        }
        let (aligned_width, aligned_height) = aligned_size(width, height, sampling);
        assert(aligned_width * aligned_height <= 65567 * 65567) by (nonlinear_arith)
            requires
                aligned_width <= 65567,
                aligned_height <= 65567;
        let pixels = aligned_width as u64 * aligned_height as u64;
        if pixels > MAX_PIXELS as u64 {
            return Err(CmvsError::JbpDimensions);
        }
        let stride = aligned_width * 4;
        assert(stride * aligned_height <= 65567 * 4 * 65567) by (nonlinear_arith)
            requires
                stride == aligned_width * 4,
                aligned_width <= 65567,
                aligned_height <= 65567;
        assert(stride * aligned_height == aligned_width * 4 * aligned_height) by (nonlinear_arith)
            requires
                stride == aligned_width * 4;
        if stride as u64 * aligned_height as u64 > MAX_DECODED_BYTES as u64 {
            return Err(CmvsError::JbpOutput);
        }
        let _declared_dc_bytes = read_u32(source, offset + 0x1c)?;
        let _declared_ac_bytes = read_u32(source, offset + 0x20)?;
        let bits_offset = data_offset + JBP_TABLE_BYTES;
        if bitstream_end > source.len() || bitstream_end < bits_offset {
            return Err(CmvsError::JbpBits);
        }
        checked_range(source, bits_offset, bitstream_end - bits_offset, CmvsError::JbpBits)?;
        let blocks_x = aligned_width / 16;
        let blocks_y = aligned_height / 16;
        assert(blocks_x * blocks_y <= 0x4_0000) by (nonlinear_arith)
            requires
                blocks_x == aligned_width / 16,
                blocks_y == aligned_height / 16,
                aligned_width * aligned_height <= 0x400_0000;
        Ok(JbpDecoder {
            source,
            data_offset,
            format,
            aligned_height,
            stride,
            blocks_x,
            blocks_y,
            bitstream_bytes: bitstream_end - bits_offset,
        })
    }

    /// The bytes of one output row.
    pub fn stride(&self) -> (r: usize)
        requires
            self.wf(),
        ensures
            r == self.layout().stride,
            r <= 0x1000_0000,
    {
        self.stride
    }

    /// The layout fits the source and the decoder budget.
    pub closed spec fn wf(&self) -> bool {
        &&& self.data_offset + 0x110 + self.bitstream_bytes <= self.source@.len()
        &&& self.source@.len() <= usize::MAX
        &&& 32 <= self.stride
        &&& 8 <= self.aligned_height
        &&& self.stride * self.aligned_height <= 0x1000_0000
        &&& self.stride <= 0x1000_0000
        &&& self.blocks_x * 64 <= self.stride
        &&& self.blocks_y * 16 <= self.aligned_height
        &&& self.blocks_x * self.blocks_y <= 0x4_0000
    }

    /// Decodes the pixels: Huffman trees, quantization tables, the DC pass,
    /// then per block the AC pass, the inverse DCT and the color conversion.
    pub fn decode(&self) -> (r: Result<Vec<u8>, CmvsError>)
        requires
            self.wf(),
        ensures
            match spec_jbp_decode(self.data(), self.layout()) {
                Ok(out) => r matches Ok(v) && v@ == out,
                Err(e) => r == Err::<Vec<u8>, CmvsError>(e),
            },
    {
        let ghost s = self.source@;
        let tree_data_offset = self.data_offset + 0x80;
        let mut base: [u8; 16] = [0; 16];
        let mut index: usize = 0;
        while index < 16
            invariant
                self.wf(),
                s == self.source@,
                tree_data_offset == self.data_offset + 0x80,
                index <= 16,
                forall|i: int| 0 <= i < index ==> #[trigger] byte_at(s, tree_data_offset + i) != 255,
                forall|i: int| 0 <= i < index ==> #[trigger] base@[i] == (s[tree_data_offset + i] + 1) as u8,
            decreases 16 - index,
        {
            let value = self.source[tree_data_offset + index];
            if value == 255 {
                assert(byte_at(s, tree_data_offset + index) == 255);
                return Err(CmvsError::JbpTree);
            }
            base[index] = value + 1;
            assert(byte_at(s, tree_data_offset + index) != 255);
            index = index + 1;
        }
        assert(base@ =~= Seq::new(16, |i: int| (s[tree_data_offset + i] + 1) as u8));
        let tree_dc_freq = read_frequencies(self.source, self.data_offset)?;
        let tree_dc = HuffmanTree::new(base, tree_dc_freq)?;
        let tree_ac_freq = read_frequencies(self.source, self.data_offset + 0x40)?;
        let tree_ac = HuffmanTree::new(base, tree_ac_freq)?;
        let quant_offset = tree_data_offset + 0x10;
        let mut quant_y: [i16; 64] = [0; 64];
        let mut quant_c: [i16; 64] = [0; 64];
        if self.format & 0x0800_0000 != 0 {
            let mut k: usize = 0;
            while k < 64
                invariant
                    self.wf(),
                    s == self.source@,
                    quant_offset == self.data_offset + 0x90,
                    k <= 64,
                    forall|i: int| 0 <= i < k ==> #[trigger] quant_y@[i] == s[quant_offset + i] as i16,
                    forall|i: int| 0 <= i < k ==> #[trigger] quant_c@[i] == s[quant_offset + 0x40 + i] as i16,
                decreases 64 - k,
            {
                quant_y[k] = self.source[quant_offset + k] as i16;
                quant_c[k] = self.source[quant_offset + 0x40 + k] as i16;
                k = k + 1;
            }
        } else {
            return Err(CmvsError::JbpQuantization);
        }
        assert(quant_y@ =~= Seq::new(64, |i: int| s[quant_offset + i] as i16));
        assert(quant_c@ =~= Seq::new(64, |i: int| s[quant_offset + 0x40 + i] as i16));
        let bits_offset = quant_offset + 0x80;
        let mut bits_dc = JBitStream::new(self.source, bits_offset, self.bitstream_bytes, CmvsError::JbpDcBits)?;
        let mut bits_ac = JBitStream::new(self.source, bits_offset, self.source.len() - bits_offset, CmvsError::JbpAcBits)?;
        let total_blocks = match self.blocks_x.checked_mul(self.blocks_y) {
            Some(t) => t,
            None => return Err(CmvsError::JbpBlocks),
        };
        let dcs = dc_pass(&tree_dc, &mut bits_dc, total_blocks * 6)?;
        proof {
            lemma_dc_run_len(tree_view(&tree_dc), s, bits_offset * 8, 0, (total_blocks * 6) as nat);
        }
        let ghost plan = BlockPlanV {
            s,
            ac: tree_view(&tree_ac),
            dc: dcs@,
            qy: quant_y@,
            qc: quant_c@,
            stride: self.stride as int,
            blocks_x: self.blocks_x as int,
            out_len: (self.stride * self.aligned_height) as nat,
        };
        let ghost c_ac = bits_offset * 8;
        let output = self.draw_blocks(&tree_ac, &mut bits_ac, &dcs, &quant_y, &quant_c, Ghost(plan));
        output
    }

    /// Decodes and draws every block, row by row.
    #[verifier::rlimit(40)]
    fn draw_blocks(
        &self,
        tree: &HuffmanTree,
        bits: &mut JBitStream,
        dcs: &Vec<i16>,
        quant_y: &[i16; 64],
        quant_c: &[i16; 64],
        Ghost(plan): Ghost<BlockPlanV>,
    ) -> (r: Result<Vec<u8>, CmvsError>)
        requires
            self.wf(),
            tree.wf(),
            old(bits).wf(),
            old(bits).error_code() == CmvsError::JbpAcBits,
            dcs@.len() == self.blocks_x * self.blocks_y * 6,
            plan == (BlockPlanV {
                s: old(bits).data(),
                ac: tree_view(tree),
                dc: dcs@,
                qy: quant_y@,
                qc: quant_c@,
                stride: self.stride as int,
                blocks_x: self.blocks_x as int,
                out_len: (self.stride * self.aligned_height) as nat,
            }),
        ensures
            match blocks_run(plan, old(bits).cursor(), (self.blocks_x * self.blocks_y) as nat) {
                Ok((out, _c)) => r matches Ok(v) && v@ == out,
                Err(e) => r == Err::<Vec<u8>, CmvsError>(e),
            },
    {
        let ghost c0 = bits.cursor();
        let ghost total = (self.blocks_x * self.blocks_y) as nat;
        let len = self.stride * self.aligned_height;
        let mut output: Vec<u8> = vec![0u8; len];
        assert(output@ =~= Seq::new(plan.out_len, |i: int| 0u8));
        let mut block_y: usize = 0;
        while block_y < self.blocks_y
            invariant
                self.wf(),
                tree.wf(),
                bits.wf(),
                bits.data() == old(bits).data(),
                bits.error_code() == CmvsError::JbpAcBits,
                old(bits).error_code() == CmvsError::JbpAcBits,
                c0 == old(bits).cursor(),
                total == self.blocks_x * self.blocks_y,
                dcs@.len() == self.blocks_x * self.blocks_y * 6,
                plan == (BlockPlanV {
                    s: old(bits).data(),
                    ac: tree_view(tree),
                    dc: dcs@,
                    qy: quant_y@,
                    qc: quant_c@,
                    stride: self.stride as int,
                    blocks_x: self.blocks_x as int,
                    out_len: (self.stride * self.aligned_height) as nat,
                }),
                block_y <= self.blocks_y,
                output@.len() == self.stride * self.aligned_height,
                blocks_run(plan, c0, (block_y * self.blocks_x) as nat)
                    == Ok::<(Seq<u8>, int), CmvsError>((output@, bits.cursor())),
            decreases self.blocks_y - block_y,
        {
            assert(block_y * self.stride * 16 + 16 * self.stride <= self.stride * self.aligned_height) by (nonlinear_arith)
                requires
                    block_y < self.blocks_y,
                    self.blocks_y * 16 <= self.aligned_height;
            let mut dst1 = block_y * self.stride * 16;
            let mut block_x: usize = 0;
            while block_x < self.blocks_x
                invariant
                    self.wf(),
                    tree.wf(),
                    bits.wf(),
                    bits.data() == old(bits).data(),
                    bits.error_code() == CmvsError::JbpAcBits,
                    old(bits).error_code() == CmvsError::JbpAcBits,
                    c0 == old(bits).cursor(),
                    total == self.blocks_x * self.blocks_y,
                    dcs@.len() == self.blocks_x * self.blocks_y * 6,
                    plan.s == old(bits).data(),
                    plan.ac == tree_view(tree),
                    plan.dc == dcs@,
                    plan.qy == quant_y@,
                    plan.qc == quant_c@,
                    plan.stride == self.stride,
                    plan.blocks_x == self.blocks_x,
                    block_y < self.blocks_y,
                    block_x <= self.blocks_x,
                    block_y * self.stride * 16 + 16 * self.stride <= self.stride * self.aligned_height,
                    dst1 == block_y * self.stride * 16 + block_x * 64,
                    output@.len() == self.stride * self.aligned_height,
                    blocks_run(plan, c0, (block_y * self.blocks_x + block_x) as nat)
                        == Ok::<(Seq<u8>, int), CmvsError>((output@, bits.cursor())),
                decreases self.blocks_x - block_x,
            {
                let ghost b = block_y * self.blocks_x + block_x;
                assert(b + 1 <= total && (b + 1) * 6 <= total * 6) by (nonlinear_arith)
                    requires
                        b == block_y * self.blocks_x + block_x,
                        block_x < self.blocks_x,
                        block_y < self.blocks_y,
                        total == self.blocks_x * self.blocks_y;
                let first = (block_y * self.blocks_x + block_x) * 6;
                proof {
                    vstd::arithmetic::div_mod::lemma_fundamental_div_mod_converse(b, self.blocks_x as int, block_y as int, block_x as int);
                    assert(block_origin(plan, b) == dst1);
                    assert(block_fits(output@.len() as int, self.stride as int, dst1 as int)) by (nonlinear_arith)
                        requires
                            dst1 == block_y * self.stride * 16 + block_x * 64,
                            block_x < self.blocks_x,
                            self.blocks_x * 64 <= self.stride,
                            32 <= self.stride,
                            block_y * self.stride * 16 + 16 * self.stride <= self.stride * self.aligned_height,
                            output@.len() == self.stride * self.aligned_height,
                            self.stride * self.aligned_height <= 0x1000_0000;
                }
                let drawn = draw_block_at(tree, bits, dcs, quant_y, quant_c, &mut output, self.stride, dst1, first,
                    Ghost(plan), Ghost(c0), Ghost(b as nat));
                if let Err(e) = drawn {
                    proof { lemma_blocks_run_err(plan, c0, (b + 1) as nat, total); }
                    return Err(e);
                }
                dst1 = dst1 + 64;
                block_x = block_x + 1;
            }
            block_y = block_y + 1;
            assert(block_y * self.blocks_x == (block_y - 1) * self.blocks_x + self.blocks_x) by (nonlinear_arith);
        }
        assert(self.blocks_y * self.blocks_x == total) by (nonlinear_arith)
            requires
                total == self.blocks_x * self.blocks_y;
        Ok(output)
    }
}

} // verus!
