use vstd::prelude::*;
use crate::error::CmvsError;

verus! {

/// The low sixteen bits of `value`, read as a signed number: the DCT keeps
/// each stage in a 16-bit slot.
pub fn wrap_i16(value: i64) -> (r: i16)
    ensures
        r == value as i16,
{
    value as i16
}

/// `value` limited to a byte.
pub open spec fn spec_clamp(value: int) -> u8 {
    if value < 0 {
        0
    } else if value > 255 {
        255
    } else {
        value as u8
    }
}

/// Limits `value` to `0..=255`.
pub fn clamp(value: i64) -> (r: u8)
    ensures
        r == spec_clamp(value as int),
{
    if value < 0 {
        0
    } else if value > 255 {
        255
    } else {
        value as u8
    }
}

/// The pixel bytes written for luma `y` and the three chroma offsets.
pub open spec fn bgr_written(out: Seq<u8>, offset: int, y: int, blue: int, green: int, red: int) -> Seq<u8> {
    out.update(offset, spec_clamp(y + blue)).update(offset + 1, spec_clamp(y - green)).update(offset + 2, spec_clamp(y + red))
}

/// Writes one blue-green-red triple at `offset`; the fourth byte of the
/// pixel is left alone.
pub fn write_bgr(output: &mut [u8], offset: usize, y: i64, blue: i64, green: i64, red: i64) -> (r: Result<(), CmvsError>)
    requires
        offset + 3 <= usize::MAX,
        i64::MIN <= y + blue <= i64::MAX,
        i64::MIN <= y - green <= i64::MAX,
        i64::MIN <= y + red <= i64::MAX,
    ensures
        match r {
            Ok(()) => offset + 3 <= old(output)@.len()
                && final(output)@ == bgr_written(old(output)@, offset as int, y as int, blue as int, green as int, red as int),
            Err(e) => e == CmvsError::JbpOutput && offset + 3 > old(output)@.len() && final(output)@ == old(output)@,
        },
{
    if offset > output.len() || output.len() - offset < 3 {
        return Err(CmvsError::JbpOutput);
    }
    output[offset] = clamp(y + blue);
    output[offset + 1] = clamp(y - green);
    output[offset + 2] = clamp(y + red);
    Ok(())
}

/// `out` with the alpha byte of pixels `first..first + count` set to `alpha`.
pub open spec fn fill_alpha(out: Seq<u8>, first: int, count: int, alpha: u8) -> Seq<u8> {
    Seq::new(out.len(), |i: int| if first * 4 <= i < (first + count) * 4 && i % 4 == 3 { alpha } else { out[i] })
}

/// The run-length alpha stream from byte `offset` (below `end`) applied to
/// the pixels from `pixel` on of an image of `pixels` pixels; `None` where
/// the stream is truncated, a run is empty or a run overshoots the image.
pub open spec fn spec_alpha_runs(s: Seq<u8>, offset: int, end: int, pixels: int, pixel: int, out: Seq<u8>) -> Option<Seq<u8>>
    decreases pixels - pixel,
{
    if pixel >= pixels {
        Some(out)
    } else if offset >= end {
        None
    } else {
        let alpha = s[offset];
        if alpha != 0 && alpha != 0xff {
            spec_alpha_runs(s, offset + 1, end, pixels, pixel + 1, out.update(pixel * 4 + 3, alpha))
        } else if offset + 1 >= end {
            None
        } else {
            let count = s[offset + 1] as int;
            if count == 0 || count > pixels - pixel {
                None
            } else {
                spec_alpha_runs(s, offset + 2, end, pixels, pixel + count, fill_alpha(out, pixel, count, alpha))
            }
        }
    }
}

/// The image bytes once the alpha stream from byte `offset` has been applied
/// as far as it goes: all of it, or the runs before the one where it is
/// truncated, empty or overshoots the image.
pub open spec fn spec_alpha_written(s: Seq<u8>, offset: int, end: int, pixels: int, pixel: int, out: Seq<u8>) -> Seq<u8>
    decreases pixels - pixel,
{
    if pixel >= pixels || offset >= end {
        out
    } else {
        let alpha = s[offset];
        if alpha != 0 && alpha != 0xff {
            spec_alpha_written(s, offset + 1, end, pixels, pixel + 1, out.update(pixel * 4 + 3, alpha))
        } else if offset + 1 >= end {
            out
        } else {
            let count = s[offset + 1] as int;
            if count == 0 || count > pixels - pixel {
                out
            } else {
                spec_alpha_written(s, offset + 2, end, pixels, pixel + count, fill_alpha(out, pixel, count, alpha))
            }
        }
    }
}

/// The image bytes an alpha stream leaves, whether it succeeds or not; a
/// range outside the source leaves them as they were.
pub open spec fn spec_alpha_output(s: Seq<u8>, offset: int, end: int, out: Seq<u8>) -> Seq<u8> {
    if offset > end || end > s.len() {
        out
    } else {
        spec_alpha_written(s, offset, end, (out.len() / 4) as int, 0, out)
    }
}

/// Applying an alpha stream keeps the image length.
pub proof fn lemma_alpha_runs_len(s: Seq<u8>, offset: int, end: int, pixels: int, pixel: int, out: Seq<u8>)
    requires
        pixels * 4 <= out.len(),
        0 <= pixel,
        spec_alpha_runs(s, offset, end, pixels, pixel, out) is Some,
    ensures
        spec_alpha_runs(s, offset, end, pixels, pixel, out)->Some_0.len() == out.len(),
    decreases pixels - pixel,
{
    if pixel < pixels && offset < end {
        let alpha = s[offset];
        if alpha != 0 && alpha != 0xff {
            lemma_alpha_runs_len(s, offset + 1, end, pixels, pixel + 1, out.update(pixel * 4 + 3, alpha));
        } else if offset + 1 < end {
            let count = s[offset + 1] as int;
            if count != 0 && count <= pixels - pixel {
                lemma_alpha_runs_len(s, offset + 2, end, pixels, pixel + count, fill_alpha(out, pixel, count, alpha));
            }
        }
    }
}

/// An alpha stream changes only the alpha byte of each pixel.
pub proof fn lemma_alpha_runs_touch_only_alpha(s: Seq<u8>, offset: int, end: int, pixels: int, pixel: int, out: Seq<u8>)
    requires
        pixels * 4 <= out.len(),
        0 <= pixel,
        spec_alpha_runs(s, offset, end, pixels, pixel, out) is Some,
    ensures
        forall|i: int| 0 <= i < out.len() && i % 4 != 3
            ==> #[trigger] spec_alpha_runs(s, offset, end, pixels, pixel, out)->Some_0[i] == out[i],
    decreases pixels - pixel,
{
    lemma_alpha_runs_len(s, offset, end, pixels, pixel, out);
    if pixel < pixels && offset < end {
        let alpha = s[offset];
        if alpha != 0 && alpha != 0xff {
            let next = out.update(pixel * 4 + 3, alpha);
            lemma_alpha_runs_touch_only_alpha(s, offset + 1, end, pixels, pixel + 1, next);
            assert forall|i: int| 0 <= i < out.len() && i % 4 != 3 implies next[i] == out[i] by {
                if i == pixel * 4 + 3 {
                    assert((pixel * 4 + 3) % 4 == 3);
                }
            }
        } else if offset + 1 < end {
            let count = s[offset + 1] as int;
            if count != 0 && count <= pixels - pixel {
                lemma_alpha_runs_touch_only_alpha(s, offset + 2, end, pixels, pixel + count, fill_alpha(out, pixel, count, alpha));
            }
        }
    }
}

/// The image bytes after the alpha stream `source[offset..end]` is applied.
pub open spec fn spec_apply_alpha(s: Seq<u8>, offset: int, end: int, out: Seq<u8>) -> Option<Seq<u8>> {
    if offset > end || end > s.len() {
        None
    } else {
        spec_alpha_runs(s, offset, end, (out.len() / 4) as int, 0, out)
    }
}

/// Sets the alpha byte of every pixel from a run-length stream: a byte other
/// than `0` and `0xff` is one pixel's alpha; `0` or `0xff` is followed by a
/// count of pixels that take it.
pub fn apply_alpha(source: &[u8], offset: usize, end: usize, output: &mut [u8]) -> (r: Result<(), CmvsError>)
    ensures
        match spec_apply_alpha(source@, offset as int, end as int, old(output)@) {
            Some(out) => r is Ok && final(output)@ == out,
            None => r == Err::<(), CmvsError>(CmvsError::JbpAlpha),
        },
        final(output)@ == spec_alpha_output(source@, offset as int, end as int, old(output)@),
{
    if offset > end || end > source.len() {
        return Err(CmvsError::JbpAlpha);
    }
    let len = output.len();
    let pixels = len / 4;
    let ghost target = spec_apply_alpha(source@, offset as int, end as int, old(output)@);
    let ghost written = spec_alpha_output(source@, offset as int, end as int, old(output)@);
    let mut cursor = offset;
    let mut pixel: usize = 0;
    while pixel < pixels
        invariant
            end <= source@.len(),
            offset <= end,
            target == spec_apply_alpha(source@, offset as int, end as int, old(output)@),
            len == output@.len(),
            pixels == output@.len() / 4,
            output@.len() == old(output)@.len(),
            pixel <= pixels,
            spec_alpha_runs(source@, cursor as int, end as int, pixels as int, pixel as int, output@) == target,
            written == spec_alpha_output(source@, offset as int, end as int, old(output)@),
            spec_alpha_written(source@, cursor as int, end as int, pixels as int, pixel as int, output@) == written,
        decreases pixels - pixel,
    {
        if cursor >= end {
            return Err(CmvsError::JbpAlpha);
        }
        let alpha = source[cursor];
        cursor = cursor + 1;
        if alpha != 0 && alpha != 0xff {
            assert(pixel * 4 + 3 < output@.len()) by (nonlinear_arith)
                requires
                    pixel < pixels,
                    pixels == output@.len() / 4;
            output[pixel * 4 + 3] = alpha;
            pixel = pixel + 1;
            continue;
        }
        if cursor >= end {
            return Err(CmvsError::JbpAlpha);
        }
        let count = source[cursor] as usize;
        cursor = cursor + 1;
        if count == 0 {
            return Err(CmvsError::JbpAlpha);
        }
        if count > pixels - pixel {
            return Err(CmvsError::JbpAlpha);
        }
        let ghost before = output@;
        let mut k: usize = pixel;
        while k < pixel + count
            invariant
                len == output@.len(),
                pixel <= k <= pixel + count,
                pixel + count <= pixels,
                pixels == output@.len() / 4,
                output@.len() == before.len(),
                forall|i: int| 0 <= i < output@.len() ==> #[trigger] output@[i]
                    == (if pixel * 4 <= i < k * 4 && i % 4 == 3 { alpha } else { before[i] }),
            decreases pixel + count - k,
        {
            assert(k * 4 + 3 < output@.len()) by (nonlinear_arith)
                requires
                    k < pixels,
                    pixels == output@.len() / 4;
            output[k * 4 + 3] = alpha;
            k = k + 1;
        }
        assert(output@ == fill_alpha(before, pixel as int, count as int, alpha));
        pixel = pixel + count;
    }
    Ok(())
}

/// `x >> 16`, arithmetic, on a value that fits 64 bits.
pub open spec fn sh16(x: int) -> int {
    ((x as i64) >> 16i64) as int
}

/// `x >> 3`, arithmetic, on a value that fits 64 bits.
pub open spec fn sh3(x: int) -> int {
    ((x as i64) >> 3i64) as int
}

proof fn lemma_i64_sh16_bound(x: i64)
    by (bit_vector)
    requires
        -4503599627370496i64 <= x <= 4503599627370496i64,
    ensures
        -68719476736i64 <= (x >> 16i64) <= 68719476736i64,
{
}

proof fn lemma_sh16_bound(x: int)
    requires
        -4503599627370496 <= x <= 4503599627370496,
    ensures
        -68719476736 <= sh16(x) <= 68719476736,
{
    lemma_i64_sh16_bound(x as i64);
}

proof fn lemma_sh16_zero(x: i64)
    by (bit_vector)
    requires
        x == 0,
    ensures
        (x >> 16i64) == 0i64,
{
}

/// The even half of the eight-point transform: `(w, x, y, z)`.
pub open spec fn idct_even(a: int, b: int, c: int, d: int) -> (int, int, int, int) {
    let x = sh16((c + d) * 35467);
    let c1 = sh16(c * 50159) + x;
    let d1 = sh16(d * -121094) + x;
    (a + b + c1, a + b - c1, a - b + d1, a - b - d1)
}

/// The odd half of the eight-point transform: `(s, t, u, v)`.
pub open spec fn idct_odd(a: int, b: int, c: int, d: int) -> (int, int, int, int) {
    let n = sh16((a + b + c + d) * 77062);
    let s = n + sh16(a * 201373) + sh16((c + a) * -128553) + sh16((d + a) * -167963);
    let t = n + sh16(b * 98390) + sh16((d + b) * -25570) + sh16((c + b) * -58980);
    let u = n + sh16(c * 19571) + sh16((c + a) * -128553) + sh16((c + b) * -58980);
    let v = n + sh16(d * 134553) + sh16((d + b) * -25570) + sh16((d + a) * -167963);
    (s, t, u, v)
}

/// The fixed-point eight-point inverse transform of `i`, in output order.
pub open spec fn idct_1d(i: Seq<int>) -> Seq<int> {
    let (w, x, y, z) = idct_even(i[0], i[4], i[2], i[6]);
    let (s, t, u, v) = idct_odd(i[3], i[1], i[7], i[5]);
    seq![w + t, y + s, z + v, x + u, x - u, z - v, y - s, w - t]
}

/// Column `p` of `v`, each coefficient scaled by its quantizer.
pub open spec fn column_input(v: Seq<i16>, q: Seq<i16>, p: int) -> Seq<int> {
    Seq::new(8, |k: int| v[p + 8 * k] as int * q[p + 8 * k] as int)
}

/// Row `r` of `u`.
pub open spec fn row_input(u: Seq<i16>, r: int) -> Seq<int> {
    Seq::new(8, |k: int| u[8 * r + k] as int)
}

/// The column pass: each column transformed, each value kept in 16 bits.
pub open spec fn idct_columns(v: Seq<i16>, q: Seq<i16>) -> Seq<i16> {
    Seq::new(64, |i: int| idct_1d(column_input(v, q, i % 8))[i / 8] as i16)
}

/// The row pass: each row transformed and scaled down by eight.
pub open spec fn idct_rows(u: Seq<i16>) -> Seq<i16> {
    Seq::new(64, |i: int| sh3(idct_1d(row_input(u, i / 8))[i % 8]) as i16)
}

/// The dequantized two-dimensional inverse transform of a block.
#[verifier::opaque]
pub open spec fn spec_inverse_dct(v: Seq<i16>, q: Seq<i16>) -> Seq<i16> {
    idct_rows(idct_columns(v, q))
}

/// One eight-point transform on inputs of at most 31 bits.
fn idct_1d_exec(i0: i64, i1: i64, i2: i64, i3: i64, i4: i64, i5: i64, i6: i64, i7: i64) -> (r: [i64; 8])
    requires
        -2147483648 <= i0 <= 2147483648,
        -2147483648 <= i1 <= 2147483648,
        -2147483648 <= i2 <= 2147483648,
        -2147483648 <= i3 <= 2147483648,
        -2147483648 <= i4 <= 2147483648,
        -2147483648 <= i5 <= 2147483648,
        -2147483648 <= i6 <= 2147483648,
        -2147483648 <= i7 <= 2147483648,
    ensures
        forall|k: int| 0 <= k < 8 ==> #[trigger] r@[k] as int
            == idct_1d(seq![i0 as int, i1 as int, i2 as int, i3 as int, i4 as int, i5 as int, i6 as int, i7 as int])[k],
{
    let a = i0;
    let b = i4;
    let c = i2;
    let d = i6;
    proof { lemma_sh16_bound((c + d) * 35467); lemma_sh16_bound(c * 50159); lemma_sh16_bound(d * -121094); }
    let x = ((c + d) * 35467) >> 16i64;
    let c1 = ((c * 50159) >> 16i64) + x;
    let d1 = ((d * -121094) >> 16i64) + x;
    let w = a + b + c1;
    let x = a + b - c1;
    let y = a - b + d1;
    let z = a - b - d1;
    let a = i3;
    let b = i1;
    let c = i7;
    let d = i5;
    proof {
        lemma_sh16_bound((a + b + c + d) * 77062);
        lemma_sh16_bound(a * 201373);
        lemma_sh16_bound((c + a) * -128553);
        lemma_sh16_bound((d + a) * -167963);
        lemma_sh16_bound(b * 98390);
        lemma_sh16_bound((d + b) * -25570);
        lemma_sh16_bound((c + b) * -58980);
        lemma_sh16_bound(c * 19571);
        lemma_sh16_bound(d * 134553);
    }
    let n = ((a + b + c + d) * 77062) >> 16i64;
    let s = n + ((a * 201373) >> 16i64) + (((c + a) * -128553) >> 16i64) + (((d + a) * -167963) >> 16i64);
    let t = n + ((b * 98390) >> 16i64) + (((d + b) * -25570) >> 16i64) + (((c + b) * -58980) >> 16i64);
    let u = n + ((c * 19571) >> 16i64) + (((c + a) * -128553) >> 16i64) + (((c + b) * -58980) >> 16i64);
    let v = n + ((d * 134553) >> 16i64) + (((d + b) * -25570) >> 16i64) + (((d + a) * -167963) >> 16i64);
    let r = [w + t, y + s, z + v, x + u, x - u, z - v, y - s, w - t];
    r
}

/// A column with only its first coefficient transforms to that value.
proof fn lemma_idct_dc_only(i: Seq<int>)
    requires
        i.len() == 8,
        forall|k: int| 1 <= k < 8 ==> #[trigger] i[k] == 0,
    ensures
        forall|k: int| 0 <= k < 8 ==> #[trigger] idct_1d(i)[k] == i[0],
{
    assert(i[1] == 0 && i[2] == 0 && i[3] == 0 && i[4] == 0 && i[5] == 0 && i[6] == 0 && i[7] == 0);
    lemma_sh16_zero(0i64);
    assert(sh16(0) == 0);
}

/// The scaled coefficient `v * q` of two 16-bit values fits 31 bits.
proof fn lemma_product_bound(v: i16, q: i16)
    ensures
        -2147483648 <= v as int * q as int <= 2147483648,
{
    assert(-2147483648 <= v as int * q as int <= 2147483648) by (nonlinear_arith)
        requires
            -32768 <= v <= 32767,
            -32768 <= q <= 32767;
}

/// Transforms column `p` in place.
#[verifier::rlimit(40)]
fn idct_column(values: &mut [i16; 64], quantization: &[i16; 64], p: usize)
    requires
        p < 8,
    ensures
        forall|i: int| 0 <= i < 64 ==> #[trigger] final(values)@[i]
            == (if i % 8 == p { idct_1d(column_input(old(values)@, quantization@, p as int))[i / 8] as i16 } else { old(values)@[i] }),
{
    let ghost v0 = values@;
    let ghost input = column_input(v0, quantization@, p as int);
    proof {
        assert forall|k: int| 0 <= k < 8 implies (#[trigger] (p + 8 * k)) % 8 == p && (p + 8 * k) / 8 == k by {
            vstd::arithmetic::div_mod::lemma_fundamental_div_mod_converse(p + 8 * k, 8, k, p as int);
        }
        assert forall|i: int| 0 <= i < 64 && i % 8 == p implies i == p + 8 * (i / 8) && 0 <= #[trigger] (i / 8) < 8 by {}
    }
    if values[p + 8] == 0 && values[p + 16] == 0 && values[p + 24] == 0 && values[p + 32] == 0
        && values[p + 40] == 0 && values[p + 48] == 0 && values[p + 56] == 0 {
        proof {
            lemma_product_bound(values@[p as int], quantization@[p as int]);
            assert forall|k: int| 1 <= k < 8 implies #[trigger] input[k] == 0 by {
                assert(v0[p + 8 * k] == 0);
            }
            lemma_idct_dc_only(input);
        }
        let value = wrap_i16(values[p] as i64 * quantization[p] as i64);
        values[p] = value;
        values[p + 8] = value;
        values[p + 16] = value;
        values[p + 24] = value;
        values[p + 32] = value;
        values[p + 40] = value;
        values[p + 48] = value;
        values[p + 56] = value;
    } else {
        proof {
            lemma_product_bound(v0[p as int], quantization@[p as int]);
            lemma_product_bound(v0[p + 8], quantization@[p + 8]);
            lemma_product_bound(v0[p + 16], quantization@[p + 16]);
            lemma_product_bound(v0[p + 24], quantization@[p + 24]);
            lemma_product_bound(v0[p + 32], quantization@[p + 32]);
            lemma_product_bound(v0[p + 40], quantization@[p + 40]);
            lemma_product_bound(v0[p + 48], quantization@[p + 48]);
            lemma_product_bound(v0[p + 56], quantization@[p + 56]);
        }
        let out = idct_1d_exec(
            values[p] as i64 * quantization[p] as i64,
            values[p + 8] as i64 * quantization[p + 8] as i64,
            values[p + 16] as i64 * quantization[p + 16] as i64,
            values[p + 24] as i64 * quantization[p + 24] as i64,
            values[p + 32] as i64 * quantization[p + 32] as i64,
            values[p + 40] as i64 * quantization[p + 40] as i64,
            values[p + 48] as i64 * quantization[p + 48] as i64,
            values[p + 56] as i64 * quantization[p + 56] as i64,
        );
        assert(input =~= seq![input[0], input[1], input[2], input[3], input[4], input[5], input[6], input[7]]);
        values[p] = wrap_i16(out[0]);
        values[p + 56] = wrap_i16(out[7]);
        values[p + 8] = wrap_i16(out[1]);
        values[p + 48] = wrap_i16(out[6]);
        values[p + 16] = wrap_i16(out[2]);
        values[p + 40] = wrap_i16(out[5]);
        values[p + 24] = wrap_i16(out[3]);
        values[p + 32] = wrap_i16(out[4]);
    }
}

/// Transforms row `r` in place and scales it down by eight.
fn idct_row(values: &mut [i16; 64], r: usize)
    requires
        r < 8,
    ensures
        forall|i: int| 0 <= i < 64 ==> #[trigger] final(values)@[i]
            == (if i / 8 == r { sh3(idct_1d(row_input(old(values)@, r as int))[i % 8]) as i16 } else { old(values)@[i] }),
{
    let ghost v0 = values@;
    let ghost input = row_input(v0, r as int);
    let p = r * 8;
    proof {
        assert forall|k: int| 0 <= k < 8 implies (#[trigger] (p + k)) / 8 == r && (p + k) % 8 == k by {
            vstd::arithmetic::div_mod::lemma_fundamental_div_mod_converse(p + k, 8, r as int, k);
        }
        assert forall|i: int| 0 <= i < 64 && i / 8 == r implies i == p + (i % 8) && 0 <= #[trigger] (i % 8) < 8 by {}
    }
    let out = idct_1d_exec(
        values[p] as i64,
        values[p + 1] as i64,
        values[p + 2] as i64,
        values[p + 3] as i64,
        values[p + 4] as i64,
        values[p + 5] as i64,
        values[p + 6] as i64,
        values[p + 7] as i64,
    );
    assert(input =~= seq![input[0], input[1], input[2], input[3], input[4], input[5], input[6], input[7]]);
    values[p] = wrap_i16(out[0] >> 3i64);
    values[p + 7] = wrap_i16(out[7] >> 3i64);
    values[p + 1] = wrap_i16(out[1] >> 3i64);
    values[p + 6] = wrap_i16(out[6] >> 3i64);
    values[p + 2] = wrap_i16(out[2] >> 3i64);
    values[p + 5] = wrap_i16(out[5] >> 3i64);
    values[p + 3] = wrap_i16(out[3] >> 3i64);
    values[p + 4] = wrap_i16(out[4] >> 3i64);
}

/// The dequantizing fixed-point inverse DCT of one 8x8 block, columns first.
pub fn inverse_dct(values: &mut [i16; 64], quantization: &[i16; 64]) -> (r: Result<(), CmvsError>)
    ensures
        r is Ok,
        final(values)@ == spec_inverse_dct(old(values)@, quantization@),
{
    let ghost v0 = values@;
    let mut row: usize = 0;
    while row < 8
        invariant
            row <= 8,
            v0 == old(values)@,
            forall|i: int| 0 <= i < 64 ==> #[trigger] values@[i]
                == (if i % 8 < row { idct_columns(v0, quantization@)[i] } else { v0[i] }),
        decreases 8 - row,
    {
        proof {
            assert(column_input(values@, quantization@, row as int) =~= column_input(v0, quantization@, row as int));
        }
        idct_column(values, quantization, row);
        row = row + 1;
    }
    let ghost u = values@;
    assert(u =~= idct_columns(v0, quantization@));
    let mut row: usize = 0;
    while row < 8
        invariant
            row <= 8,
            u == idct_columns(v0, quantization@),
            v0 == old(values)@,
            forall|i: int| 0 <= i < 64 ==> #[trigger] values@[i]
                == (if i / 8 < row { idct_rows(u)[i] } else { u[i] }),
        decreases 8 - row,
    {
        proof {
            assert(row_input(values@, row as int) =~= row_input(u, row as int));
        }
        idct_row(values, row);
        row = row + 1;
    }
    assert(values@ =~= spec_inverse_dct(v0, quantization@)) by {
        reveal(spec_inverse_dct);
    }
    Ok(())
}

/// The blue, green and red offsets of a chroma pair.
pub open spec fn chroma_terms(cb: int, cr: int) -> (int, int, int) {
    (sh16(cb * 0x1c590), sh16(cb * 0x5810) + sh16(cr * 0xb6c0), sh16(cr * 0x166f0))
}

/// The four pixels of pair `(i, j)` of an 8x8 tile: one chroma sample
/// shared by a 2x2 square of luma samples.
pub open spec fn quad_written(out: Seq<u8>, stride: int, dc: int, ac: int, planes: (Seq<i16>, Seq<i16>, Seq<i16>),
    chroma: int, i: int, j: int) -> Seq<u8>
{
    let d = dc + 2 * i * stride + 8 * j;
    let a = ac + 2 * i * stride + 8 * j;
    let ch = chroma + 8 * i + j;
    let ys = 16 * i + 2 * j;
    let (blue, green, red) = chroma_terms(planes.1[ch] as int, planes.2[ch] as int);
    let o1 = bgr_written(out, d, planes.0[ys] + 0x180, blue, green, red);
    let o2 = bgr_written(o1, a + 4 - stride, planes.0[ys + 1] + 0x180, blue, green, red);
    let o3 = bgr_written(o2, a, planes.0[ys + 8] + 0x180, blue, green, red);
    bgr_written(o3, a + 4, planes.0[ys + 9] + 0x180, blue, green, red)
}

/// The colour conversion of a pixel: blue is luma plus `Cb * 0x1c590`
/// scaled down by 2^16, red is luma plus `Cr * 0x166f0` scaled down, and
/// green is luma minus `Cb * 0x5810` and `Cr * 0xb6c0` scaled down, each
/// clamped to a byte. Shown on the last pixel a pair writes, which no later
/// write of the pair touches.
pub proof fn lemma_quad_colour_conversion(out: Seq<u8>, stride: int, dc: int, ac: int,
    planes: (Seq<i16>, Seq<i16>, Seq<i16>), chroma: int, i: int, j: int)
    requires
        ({
            let d = dc + 2 * i * stride + 8 * j;
            let a = ac + 2 * i * stride + 8 * j;
            &&& 0 <= d && d + 2 < out.len()
            &&& 0 <= a + 4 - stride && a + 6 - stride < out.len()
            &&& 0 <= a && a + 6 < out.len()
        }),
    ensures
        ({
            let a = ac + 2 * i * stride + 8 * j;
            let ch = chroma + 8 * i + j;
            let y = planes.0[16 * i + 2 * j + 9] + 0x180;
            let cb = planes.1[ch] as int;
            let cr = planes.2[ch] as int;
            let w = quad_written(out, stride, dc, ac, planes, chroma, i, j);
            &&& w[a + 4] == spec_clamp(y + sh16(cb * 0x1c590))
            &&& w[a + 5] == spec_clamp(y - sh16(cb * 0x5810) - sh16(cr * 0xb6c0))
            &&& w[a + 6] == spec_clamp(y + sh16(cr * 0x166f0))
        }),
{
}

/// The first `m` pairs of a tile written, row of pairs by row of pairs.
pub open spec fn tile_written(out: Seq<u8>, stride: int, dc: int, ac: int, planes: (Seq<i16>, Seq<i16>, Seq<i16>),
    chroma: int, m: nat) -> Seq<u8>
    decreases m,
{
    if m == 0 {
        out
    } else {
        let prev = tile_written(out, stride, dc, ac, planes, chroma, (m - 1) as nat);
        quad_written(prev, stride, dc, ac, planes, chroma, (m - 1) / 4, (m - 1) % 4)
    }
}

/// Drawing a tile keeps the output length.
pub proof fn lemma_tile_written_len(out: Seq<u8>, stride: int, dc: int, ac: int, planes: (Seq<i16>, Seq<i16>, Seq<i16>),
    chroma: int, m: nat)
    requires
        tile_fits(out.len() as int, stride, dc, ac),
        0 <= dc,
        m <= 16,
    ensures
        tile_written(out, stride, dc, ac, planes, chroma, m).len() == out.len(),
    decreases m,
{
    if m > 0 {
        lemma_tile_written_len(out, stride, dc, ac, planes, chroma, (m - 1) as nat);
        let i = (m - 1) / 4;
        assert(0 <= 2 * i * stride <= 6 * stride) by (nonlinear_arith)
            requires
                0 <= i <= 3,
                16 <= stride;
    }
}

/// Every write of an 8x8 tile whose even rows start at `dc` and odd rows at
/// `ac` stays inside an output of `len` bytes.
pub open spec fn tile_fits(len: int, stride: int, dc: int, ac: int) -> bool {
    &&& 16 <= stride
    &&& stride <= ac + 4
    &&& dc + 6 * stride + 27 <= len
    &&& ac + 6 * stride + 31 <= len
    &&& dc + 8 * stride <= usize::MAX
    &&& ac + 8 * stride <= usize::MAX
}

/// Converts an 8x8 tile of luma with its 4x4 chroma samples (starting at
/// `chroma`) to blue-green-red pixels.
pub(crate) fn ycc_to_bgr(output: &mut [u8], stride: usize, dc: usize, ac: usize, planes: [&[i16; 64]; 3], chroma: usize)
    -> (r: Result<(), CmvsError>)
    requires
        tile_fits(old(output)@.len() as int, stride as int, dc as int, ac as int),
        chroma <= 36,
    ensures
        r is Ok,
        final(output)@ == tile_written(old(output)@, stride as int, dc as int, ac as int,
            (planes[0]@, planes[1]@, planes[2]@), chroma as int, 16),
{
    let ghost pl = (planes[0]@, planes[1]@, planes[2]@);
    let ghost out0 = output@;
    let ghost len = output@.len() as int;
    let mut dc = dc;
    let mut ac = ac;
    let mut chroma = chroma;
    let mut y_source: usize = 0;
    let mut i: usize = 0;
    let ghost dc0 = dc as int;
    let ghost ac0 = ac as int;
    let ghost ch0 = chroma as int;
    while i < 4
        invariant
            i <= 4,
            pl == (planes[0]@, planes[1]@, planes[2]@),
            output@.len() == len,
            tile_fits(len, stride as int, dc0, ac0),
            ch0 <= 36,
            dc == dc0 + 2 * i * stride,
            ac == ac0 + 2 * i * stride,
            chroma == ch0 + 8 * i,
            y_source == 16 * i,
            output@ == tile_written(out0, stride as int, dc0, ac0, pl, ch0, (4 * i) as nat),
        decreases 4 - i,
    {
        let mut j: usize = 0;
        while j < 4
            invariant
                i < 4,
                j <= 4,
                pl == (planes[0]@, planes[1]@, planes[2]@),
                output@.len() == len,
                tile_fits(len, stride as int, dc0, ac0),
                ch0 <= 36,
                dc == dc0 + 2 * i * stride + 8 * j,
                ac == ac0 + 2 * i * stride + 8 * j,
                chroma == ch0 + 8 * i + j,
                y_source == 16 * i + 2 * j,
                output@ == tile_written(out0, stride as int, dc0, ac0, pl, ch0, (4 * i + j) as nat),
            decreases 4 - j,
        {
            assert(2 * i * stride <= 6 * stride) by (nonlinear_arith)
                requires
                    i < 4;
            let cb_value = planes[1][chroma] as i64;
            let cr_value = planes[2][chroma] as i64;
            proof {
                lemma_sh16_bound(cr_value * 0x166f0);
                lemma_sh16_bound(cb_value * 0x5810);
                lemma_sh16_bound(cr_value * 0xb6c0);
                lemma_sh16_bound(cb_value * 0x1c590);
            }
            let red = (cr_value * 0x166f0) >> 16i64;
            let green = ((cb_value * 0x5810) >> 16i64) + ((cr_value * 0xb6c0) >> 16i64);
            let blue = (cb_value * 0x1c590) >> 16i64;
            let ghost m = (4 * i + j) as nat;
            assert((m + 1 - 1) / 4 == i && (m + 1 - 1) % 4 == j);
            let _ = write_bgr(output, dc, planes[0][y_source] as i64 + 0x180, blue, green, red);
            let _ = write_bgr(output, ac + 4 - stride, planes[0][y_source + 1] as i64 + 0x180, blue, green, red);
            let _ = write_bgr(output, ac, planes[0][y_source + 8] as i64 + 0x180, blue, green, red);
            let _ = write_bgr(output, ac + 4, planes[0][y_source + 9] as i64 + 0x180, blue, green, red);
            y_source = y_source + 2;
            dc = dc + 8;
            ac = ac + 8;
            chroma = chroma + 1;
            j = j + 1;
        }
        assert(2 * (i + 1) * stride <= 8 * stride) by (nonlinear_arith)
            requires
                i < 4;
        assert(2 * (i + 1) * stride == 2 * i * stride + 2 * stride) by (nonlinear_arith);
        dc = dc + (stride * 2 - 32);
        ac = ac + (stride * 2 - 32);
        y_source = y_source + 8;
        chroma = chroma + 4;
        i = i + 1;
    }
    Ok(())
}

} // verus!
