//! The CMVS variant of MD5 that derives archive keys from the header's
//! sixteen-byte state: one MD5 block over the state with variant-specific
//! initial values and output permutations.
use vstd::prelude::*;
use crate::error::CmvsError;
use crate::bits::{spec_rotl32, rotl32};
use crate::text::chars_of;

verus! {

/// The MD5 variants that CMVS titles ship.
#[derive(Debug, Clone, Copy, PartialEq, Eq, Structural)]
pub enum CmvsMd5Variant {
    A,
    B,
    Chrono,
    Memoria,
    Natsu,
    Aoi,
    Mirai,
}

/// The variant named by `name`, if any.
pub open spec fn spec_md5_variant(name: Seq<char>) -> Option<CmvsMd5Variant> {
    if name == seq!['A'] {
        Some(CmvsMd5Variant::A)
    } else if name == seq!['B'] {
        Some(CmvsMd5Variant::B)
    } else if name == seq!['C', 'h', 'r', 'o', 'n', 'o'] {
        Some(CmvsMd5Variant::Chrono)
    } else if name == seq!['M', 'e', 'm', 'o', 'r', 'i', 'a'] {
        Some(CmvsMd5Variant::Memoria)
    } else if name == seq!['N', 'a', 't', 's', 'u'] {
        Some(CmvsMd5Variant::Natsu)
    } else if name == seq!['A', 'o', 'i'] {
        Some(CmvsMd5Variant::Aoi)
    } else if name == seq!['M', 'i', 'r', 'a', 'i'] {
        Some(CmvsMd5Variant::Mirai)
    } else {
        None
    }
}

/// The per-round additive constants of MD5.
pub open spec fn md5_k_table() -> Seq<u32> {
    seq![
        0xd76aa478, 0xe8c7b756, 0x242070db, 0xc1bdceee, 0xf57c0faf, 0x4787c62a,
        0xa8304613, 0xfd469501, 0x698098d8, 0x8b44f7af, 0xffff5bb1, 0x895cd7be,
        0x6b901122, 0xfd987193, 0xa679438e, 0x49b40821, 0xf61e2562, 0xc040b340,
        0x265e5a51, 0xe9b6c7aa, 0xd62f105d, 0x02441453, 0xd8a1e681, 0xe7d3fbc8,
        0x21e1cde6, 0xc33707d6, 0xf4d50d87, 0x455a14ed, 0xa9e3e905, 0xfcefa3f8,
        0x676f02d9, 0x8d2a4c8a, 0xfffa3942, 0x8771f681, 0x6d9d6122, 0xfde5380c,
        0xa4beea44, 0x4bdecfa9, 0xf6bb4b60, 0xbebfbc70, 0x289b7ec6, 0xeaa127fa,
        0xd4ef3085, 0x04881d05, 0xd9d4d039, 0xe6db99e5, 0x1fa27cf8, 0xc4ac5665,
        0xf4292244, 0x432aff97, 0xab9423a7, 0xfc93a039, 0x655b59c3, 0x8f0ccc92,
        0xffeff47d, 0x85845dd1, 0x6fa87e4f, 0xfe2ce6e0, 0xa3014314, 0x4e0811a1,
        0xf7537e82, 0xbd3af235, 0x2ad7d2bb, 0xeb86d391,
    ]
}

/// The per-round rotation amounts of MD5.
pub open spec fn md5_s_table() -> Seq<u32> {
    seq![
        7, 12, 17, 22, 7, 12, 17, 22, 7, 12, 17, 22, 7, 12, 17, 22,
        5, 9, 14, 20, 5, 9, 14, 20, 5, 9, 14, 20, 5, 9, 14, 20,
        4, 11, 16, 23, 4, 11, 16, 23, 4, 11, 16, 23, 4, 11, 16, 23,
        6, 10, 15, 21, 6, 10, 15, 21, 6, 10, 15, 21, 6, 10, 15, 21,
    ]
}

/// The MD5 round function of round `i`.
pub open spec fn md5_f(i: int, b: u32, c: u32, d: u32) -> u32 {
    if i < 16 {
        (b & c) | (!b & d)
    } else if i < 32 {
        (d & b) | (!d & c)
    } else if i < 48 {
        b ^ c ^ d
    } else {
        c ^ (b | !d)
    }
}

/// The message word that round `i` reads.
pub open spec fn md5_g(i: int) -> int {
    if i < 16 {
        i
    } else if i < 32 {
        (5 * i + 1) % 16
    } else if i < 48 {
        (3 * i + 5) % 16
    } else {
        (7 * i) % 16
    }
}

/// One MD5 round on the state `(a, b, c, d)`.
pub open spec fn md5_step(s: (u32, u32, u32, u32), i: int, w: Seq<u32>) -> (u32, u32, u32, u32) {
    let sum = s.0.wrapping_add(md5_f(i, s.1, s.2, s.3)).wrapping_add(md5_k_table()[i]).wrapping_add(w[md5_g(i)]);
    (s.3, spec_rotl32(sum, md5_s_table()[i]).wrapping_add(s.1), s.1, s.2)
}

/// The state after the first `n` rounds.
pub open spec fn md5_rounds(s: (u32, u32, u32, u32), w: Seq<u32>, n: nat) -> (u32, u32, u32, u32)
    decreases n,
{
    if n == 0 {
        s
    } else {
        md5_step(md5_rounds(s, w, (n - 1) as nat), n - 1, w)
    }
}

/// The initial state of a variant.
pub open spec fn md5_initial(v: CmvsMd5Variant) -> (u32, u32, u32, u32) {
    match v {
        CmvsMd5Variant::A | CmvsMd5Variant::Chrono => (0xc74a2b01, 0xe7c8ab8f, 0xd8bedc4e, 0x7302a4c5),
        CmvsMd5Variant::B => (0x53fe9b2c, 0xf2c93ea8, 0xee81ba59, 0xa2c8973e),
        CmvsMd5Variant::Memoria => (0xa79463f9, 0xb6e755c5, 0xc696af21, 0x6983e978),
        CmvsMd5Variant::Natsu => (0x63fe9a7c, 0xc2b93e98, 0xef91ba5c, 0x72c9a82e),
        CmvsMd5Variant::Aoi => (0xc74a2b02, 0xe7c8ab8f, 0x38bebc4e, 0x7531a4c3),
        CmvsMd5Variant::Mirai => (0x67452301, 0xefcdab89, 0x98badcfe, 0x10325476),
    }
}

/// The single padded block: the four input words, the `0x80` end marker
/// and a bit length of 128.
pub open spec fn md5_block(input: Seq<u32>) -> Seq<u32> {
    seq![input[0], input[1], input[2], input[3], 0x80, 0, 0, 0, 0, 0, 0, 0, 0, 0, 0x80, 0]
}

/// The variant's output words from the final state `(a, b, c, d)`.
pub open spec fn md5_output(v: CmvsMd5Variant, a: u32, b: u32, c: u32, d: u32) -> Seq<u32> {
    match v {
        CmvsMd5Variant::A => seq![d, b, c, a],
        CmvsMd5Variant::Chrono => seq![c ^ 0x45a76c2f, b.wrapping_sub(0x5ba17fcb), a ^ 0x79abe8ad, d.wrapping_sub(0x1c08561b)],
        CmvsMd5Variant::B => seq![b ^ 0x49875325, c.wrapping_add(0x54f46d7d), d ^ 0xad7948b7, a.wrapping_add(0x1d0638ad)],
        CmvsMd5Variant::Memoria => seq![b, c, d, a],
        CmvsMd5Variant::Natsu => seq![b.wrapping_add(0x45876329), c ^ 0x54f36d6c, d.wrapping_add(0x4387a749), a ^ 0xe3f9a742],
        CmvsMd5Variant::Aoi => seq![c ^ 0x53a76d2e, b.wrapping_add(0x5bb17fda), a.wrapping_add(0x6853e14d), d ^ 0xf5c6a9a3],
        CmvsMd5Variant::Mirai => seq![a, b, c, d],
    }
}

/// The CMVS MD5 of the four input words under the variant named `name`.
pub open spec fn spec_cmvs_md5(input: Seq<u32>, name: Seq<char>) -> Result<Seq<u32>, CmvsError> {
    match spec_md5_variant(name) {
        None => Err(CmvsError::Md5Variant),
        Some(v) => {
            let i = md5_initial(v);
            let f = md5_rounds(i, md5_block(input), 64);
            Ok(md5_output(v, f.0.wrapping_add(i.0), f.1.wrapping_add(i.1), f.2.wrapping_add(i.2), f.3.wrapping_add(i.3)))
        },
    }
}

/// The final MD5 state of the four input words under variant `v`: the 64
/// rounds over the padded block, added to the variant's initial state.
pub open spec fn md5_final_state(v: CmvsMd5Variant, input: Seq<u32>) -> (u32, u32, u32, u32) {
    let i = md5_initial(v);
    let f = md5_rounds(i, md5_block(input), 64);
    (f.0.wrapping_add(i.0), f.1.wrapping_add(i.1), f.2.wrapping_add(i.2), f.3.wrapping_add(i.3))
}

/// Each variant emits its final state `(a, b, c, d)` in its own order and
/// with its own masks: variant A as `[d, b, c, a]`, Memoria as
/// `[b, c, d, a]`, Mirai as `[a, b, c, d]`, the others with their constants.
pub proof fn lemma_cmvs_md5_emits_final_state(input: Seq<u32>, name: Seq<char>)
    ensures
        ({
            let s = md5_final_state(CmvsMd5Variant::A, input);
            spec_md5_variant(name) == Some(CmvsMd5Variant::A)
                ==> spec_cmvs_md5(input, name) == Ok::<Seq<u32>, CmvsError>(seq![s.3, s.1, s.2, s.0])
        }),
        ({
            let s = md5_final_state(CmvsMd5Variant::Memoria, input);
            spec_md5_variant(name) == Some(CmvsMd5Variant::Memoria)
                ==> spec_cmvs_md5(input, name) == Ok::<Seq<u32>, CmvsError>(seq![s.1, s.2, s.3, s.0])
        }),
        ({
            let s = md5_final_state(CmvsMd5Variant::Mirai, input);
            spec_md5_variant(name) == Some(CmvsMd5Variant::Mirai)
                ==> spec_cmvs_md5(input, name) == Ok::<Seq<u32>, CmvsError>(seq![s.0, s.1, s.2, s.3])
        }),
        ({
            let s = md5_final_state(CmvsMd5Variant::Chrono, input);
            spec_md5_variant(name) == Some(CmvsMd5Variant::Chrono)
                ==> spec_cmvs_md5(input, name) == Ok::<Seq<u32>, CmvsError>(seq![s.2 ^ 0x45a76c2f,
                    s.1.wrapping_sub(0x5ba17fcb), s.0 ^ 0x79abe8ad, s.3.wrapping_sub(0x1c08561b)])
        }),
        ({
            let s = md5_final_state(CmvsMd5Variant::B, input);
            spec_md5_variant(name) == Some(CmvsMd5Variant::B)
                ==> spec_cmvs_md5(input, name) == Ok::<Seq<u32>, CmvsError>(seq![s.1 ^ 0x49875325,
                    s.2.wrapping_add(0x54f46d7d), s.3 ^ 0xad7948b7, s.0.wrapping_add(0x1d0638ad)])
        }),
        ({
            let s = md5_final_state(CmvsMd5Variant::Natsu, input);
            spec_md5_variant(name) == Some(CmvsMd5Variant::Natsu)
                ==> spec_cmvs_md5(input, name) == Ok::<Seq<u32>, CmvsError>(seq![s.1.wrapping_add(0x45876329),
                    s.2 ^ 0x54f36d6c, s.3.wrapping_add(0x4387a749), s.0 ^ 0xe3f9a742])
        }),
        ({
            let s = md5_final_state(CmvsMd5Variant::Aoi, input);
            spec_md5_variant(name) == Some(CmvsMd5Variant::Aoi)
                ==> spec_cmvs_md5(input, name) == Ok::<Seq<u32>, CmvsError>(seq![s.2 ^ 0x53a76d2e,
                    s.1.wrapping_add(0x5bb17fda), s.0.wrapping_add(0x6853e14d), s.3 ^ 0xf5c6a9a3])
        }),
{
}

/// Variants A and Chrono share their initial state, so they reach the same
/// final state: Chrono's output is A's output words, taken as `d, b, c, a`,
/// re-ordered and masked.
pub proof fn lemma_cmvs_md5_a_chrono(input: Seq<u32>, a_name: Seq<char>, chrono_name: Seq<char>)
    requires
        spec_md5_variant(a_name) == Some(CmvsMd5Variant::A),
        spec_md5_variant(chrono_name) == Some(CmvsMd5Variant::Chrono),
    ensures
        ({
            let x = spec_cmvs_md5(input, a_name)->Ok_0;
            spec_cmvs_md5(input, chrono_name) == Ok::<Seq<u32>, CmvsError>(seq![x[2] ^ 0x45a76c2f,
                x[1].wrapping_sub(0x5ba17fcb), x[3] ^ 0x79abe8ad, x[0].wrapping_sub(0x1c08561b)])
        }),
{
    lemma_cmvs_md5_emits_final_state(input, a_name);
    lemma_cmvs_md5_emits_final_state(input, chrono_name);
}

fn chars_are(s: &Vec<char>, t: &[char]) -> (r: bool)
    ensures
        r == (s@ == t@),
{
    if s.len() != t.len() {
        return false;
    }
    let mut i: usize = 0;
    while i < s.len()
        invariant
            i <= s@.len(),
            s@.len() == t@.len(),
            forall|k: int| 0 <= k < i ==> s@[k] == t@[k],
        decreases s@.len() - i,
    {
        if s[i] != t[i] {
            return false;
        }
        i = i + 1;
    }
    assert(s@ =~= t@);
    true
}

/// Reads a variant name.
pub fn md5_variant_of(name: &str) -> (r: Option<CmvsMd5Variant>)
    ensures
        r == spec_md5_variant(name@),
{
    let chars = chars_of(name);
    let a = ['A'];
    let b = ['B'];
    let chrono = ['C', 'h', 'r', 'o', 'n', 'o'];
    let memoria = ['M', 'e', 'm', 'o', 'r', 'i', 'a'];
    let natsu = ['N', 'a', 't', 's', 'u'];
    let aoi = ['A', 'o', 'i'];
    let mirai = ['M', 'i', 'r', 'a', 'i'];
    assert(a@ =~= seq!['A']);
    assert(b@ =~= seq!['B']);
    assert(chrono@ =~= seq!['C', 'h', 'r', 'o', 'n', 'o']);
    assert(memoria@ =~= seq!['M', 'e', 'm', 'o', 'r', 'i', 'a']);
    assert(natsu@ =~= seq!['N', 'a', 't', 's', 'u']);
    assert(aoi@ =~= seq!['A', 'o', 'i']);
    assert(mirai@ =~= seq!['M', 'i', 'r', 'a', 'i']);
    if chars_are(&chars, &a) {
        Some(CmvsMd5Variant::A)
    } else if chars_are(&chars, &b) {
        Some(CmvsMd5Variant::B)
    } else if chars_are(&chars, &chrono) {
        Some(CmvsMd5Variant::Chrono)
    } else if chars_are(&chars, &memoria) {
        Some(CmvsMd5Variant::Memoria)
    } else if chars_are(&chars, &natsu) {
        Some(CmvsMd5Variant::Natsu)
    } else if chars_are(&chars, &aoi) {
        Some(CmvsMd5Variant::Aoi)
    } else if chars_are(&chars, &mirai) {
        Some(CmvsMd5Variant::Mirai)
    } else {
        None
    }
}

fn md5_k(i: usize) -> (r: u32)
    requires
        i < 64,
    ensures
        r == md5_k_table()[i as int],
{
    let t: [u32; 64] = [
        0xd76aa478, 0xe8c7b756, 0x242070db, 0xc1bdceee, 0xf57c0faf, 0x4787c62a,
        0xa8304613, 0xfd469501, 0x698098d8, 0x8b44f7af, 0xffff5bb1, 0x895cd7be,
        0x6b901122, 0xfd987193, 0xa679438e, 0x49b40821, 0xf61e2562, 0xc040b340,
        0x265e5a51, 0xe9b6c7aa, 0xd62f105d, 0x02441453, 0xd8a1e681, 0xe7d3fbc8,
        0x21e1cde6, 0xc33707d6, 0xf4d50d87, 0x455a14ed, 0xa9e3e905, 0xfcefa3f8,
        0x676f02d9, 0x8d2a4c8a, 0xfffa3942, 0x8771f681, 0x6d9d6122, 0xfde5380c,
        0xa4beea44, 0x4bdecfa9, 0xf6bb4b60, 0xbebfbc70, 0x289b7ec6, 0xeaa127fa,
        0xd4ef3085, 0x04881d05, 0xd9d4d039, 0xe6db99e5, 0x1fa27cf8, 0xc4ac5665,
        0xf4292244, 0x432aff97, 0xab9423a7, 0xfc93a039, 0x655b59c3, 0x8f0ccc92,
        0xffeff47d, 0x85845dd1, 0x6fa87e4f, 0xfe2ce6e0, 0xa3014314, 0x4e0811a1,
        0xf7537e82, 0xbd3af235, 0x2ad7d2bb, 0xeb86d391,
    ];
    assert(t@ =~= md5_k_table());
    t[i]
}

fn md5_s(i: usize) -> (r: u32)
    requires
        i < 64,
    ensures
        r == md5_s_table()[i as int],
        0 < r < 32,
{
    let t: [u32; 64] = [
        7, 12, 17, 22, 7, 12, 17, 22, 7, 12, 17, 22, 7, 12, 17, 22,
        5, 9, 14, 20, 5, 9, 14, 20, 5, 9, 14, 20, 5, 9, 14, 20,
        4, 11, 16, 23, 4, 11, 16, 23, 4, 11, 16, 23, 4, 11, 16, 23,
        6, 10, 15, 21, 6, 10, 15, 21, 6, 10, 15, 21, 6, 10, 15, 21,
    ];
    assert(t@ =~= md5_s_table());
    t[i]
}

/// Runs the CMVS MD5 of the four header words under the variant named
/// `variant`; an unknown variant is rejected.
pub fn compute(input: [u32; 4], variant: &str) -> (r: Result<[u32; 4], CmvsError>)
    ensures
        match r {
            Ok(out) => spec_cmvs_md5(input@, variant@) == Ok::<Seq<u32>, CmvsError>(out@),
            Err(e) => spec_cmvs_md5(input@, variant@) == Err::<Seq<u32>, CmvsError>(e),
        },
{
    let v = match md5_variant_of(variant) {
        Some(v) => v,
        None => return Err(CmvsError::Md5Variant),
    };
    let (ia, ib, ic, id): (u32, u32, u32, u32) = match v {
        CmvsMd5Variant::A | CmvsMd5Variant::Chrono => (0xc74a2b01, 0xe7c8ab8f, 0xd8bedc4e, 0x7302a4c5),
        CmvsMd5Variant::B => (0x53fe9b2c, 0xf2c93ea8, 0xee81ba59, 0xa2c8973e),
        CmvsMd5Variant::Memoria => (0xa79463f9, 0xb6e755c5, 0xc696af21, 0x6983e978),
        CmvsMd5Variant::Natsu => (0x63fe9a7c, 0xc2b93e98, 0xef91ba5c, 0x72c9a82e),
        CmvsMd5Variant::Aoi => (0xc74a2b02, 0xe7c8ab8f, 0x38bebc4e, 0x7531a4c3),
        CmvsMd5Variant::Mirai => (0x67452301, 0xefcdab89, 0x98badcfe, 0x10325476),
    };
    let words: [u32; 16] = [input[0], input[1], input[2], input[3], 0x80, 0, 0, 0, 0, 0, 0, 0, 0, 0, 0x80, 0];
    assert(words@ =~= md5_block(input@));
    let mut a = ia;
    let mut b = ib;
    let mut c = ic;
    let mut d = id;
    let mut i: usize = 0;
    while i < 64
        invariant
            i <= 64,
            words@ == md5_block(input@),
            (a, b, c, d) == md5_rounds((ia, ib, ic, id), md5_block(input@), i as nat),
        decreases 64 - i,
    {
        let f = if i < 16 {
            (b & c) | (!b & d)
        } else if i < 32 {
            (d & b) | (!d & c)
        } else if i < 48 {
            b ^ c ^ d
        } else {
            c ^ (b | !d)
        };
        let g: usize = if i < 16 {
            i
        } else if i < 32 {
            (5 * i + 1) % 16
        } else if i < 48 {
            (3 * i + 5) % 16
        } else {
            (7 * i) % 16
        };
        let sum = a.wrapping_add(f).wrapping_add(md5_k(i)).wrapping_add(words[g]);
        let next = rotl32(sum, md5_s(i)).wrapping_add(b);
        a = d;
        d = c;
        c = b;
        b = next;
        i = i + 1;
    }
    let a = a.wrapping_add(ia);
    let b = b.wrapping_add(ib);
    let c = c.wrapping_add(ic);
    let d = d.wrapping_add(id);
    let out: [u32; 4] = match v {
        CmvsMd5Variant::A => [d, b, c, a],
        CmvsMd5Variant::Chrono => [c ^ 0x45a76c2f, b.wrapping_sub(0x5ba17fcb), a ^ 0x79abe8ad, d.wrapping_sub(0x1c08561b)],
        CmvsMd5Variant::B => [b ^ 0x49875325, c.wrapping_add(0x54f46d7d), d ^ 0xad7948b7, a.wrapping_add(0x1d0638ad)],
        CmvsMd5Variant::Memoria => [b, c, d, a],
        CmvsMd5Variant::Natsu => [b.wrapping_add(0x45876329), c ^ 0x54f36d6c, d.wrapping_add(0x4387a749), a ^ 0xe3f9a742],
        CmvsMd5Variant::Aoi => [c ^ 0x53a76d2e, b.wrapping_add(0x5bb17fda), a.wrapping_add(0x6853e14d), d ^ 0xf5c6a9a3],
        CmvsMd5Variant::Mirai => [a, b, c, d],
    };
    assert(out@ =~= md5_output(v, a, b, c, d));
    Ok(out)
}

} // verus!
