//! The CPZ5 ciphers: the three index transforms, the byte substitution
//! table and the entry decryptor.
use vstd::prelude::*;
use crate::error::CmvsError;
use crate::bytes::spec_le_u32;
use crate::bits::{spec_rotr32, spec_rotl32, rotr32, rotl32};
use crate::scheme::CmvsSchemeProfile;

verus! {

/// The little-endian word `w` of `s`.
pub open spec fn word_at(s: Seq<u8>, w: int) -> u32 {
    spec_le_u32(s, 4 * w)
}

/// The byte `r` after the whole words of `s`.
pub open spec fn tail_at(s: Seq<u8>, r: int) -> u8 {
    s[4 * (s.len() / 4) + r]
}

/// Reads the little-endian word at `o`.
pub fn get_le_u32(data: &[u8], o: usize) -> (r: u32)
    requires
        o + 4 <= data@.len(),
    ensures
        r == spec_le_u32(data@, o as int),
{
    data[o] as u32 + 256 * (data[o + 1] as u32) + 65536 * (data[o + 2] as u32) + 16777216 * (data[o + 3] as u32)
}

proof fn lemma_le_bytes(x: u32)
    ensures
        (x & 0xff) + 256 * ((x >> 8) & 0xff) + 65536 * ((x >> 16) & 0xff) + 16777216 * ((x >> 24) & 0xff) == x,
{
    assert((x & 0xff) + 256 * ((x >> 8) & 0xff) + 65536 * ((x >> 16) & 0xff) + 16777216 * ((x >> 24) & 0xff) == x)
        by (bit_vector);
}

/// Writes `x` as four little-endian bytes at `o`.
pub fn put_le_u32(data: &mut [u8], o: usize, x: u32)
    requires
        o + 4 <= old(data)@.len(),
    ensures
        final(data)@.len() == old(data)@.len(),
        spec_le_u32(final(data)@, o as int) == x,
        forall|j: int| 0 <= j < old(data)@.len() && (j < o || j >= o + 4) ==> final(data)@[j] == old(data)@[j],
{
    proof { lemma_le_bytes(x); }
    assert((x & 0xff) < 256 && ((x >> 8) & 0xff) < 256 && ((x >> 16) & 0xff) < 256 && ((x >> 24) & 0xff) < 256)
        by (bit_vector);
    data[o] = (x & 0xff) as u8;
    data[o + 1] = ((x >> 8) & 0xff) as u8;
    data[o + 2] = ((x >> 16) & 0xff) as u8;
    data[o + 3] = ((x >> 24) & 0xff) as u8;
}

/// The fixed-size CPZ5 index key material of a scheme profile.
#[derive(Debug, Clone, PartialEq, Eq)]
pub struct Cpz5Scheme {
    pub secret: [u32; 24],
    pub index_addend: u32,
    pub index_subtrahend: u8,
    pub index_seed: u32,
    pub directory_key_addend: [u32; 4],
}

/// The scheme a profile yields, when its tables have the fixed sizes and
/// its subtrahend fits a byte.
pub open spec fn spec_scheme_from_profile(p: CmvsSchemeProfile, s: Cpz5Scheme) -> bool {
    &&& s.secret@ == p.cpz5_secret@
    &&& s.index_addend == p.index_addend
    &&& s.index_subtrahend == p.index_subtrahend
    &&& s.index_seed == p.index_seed
    &&& s.directory_key_addend@ == p.dir_key_addend@
}

impl Cpz5Scheme {
    /// Takes the fixed-size key tables out of a profile; a profile whose
    /// secret is not 24 words, whose directory addends are not 4 words or
    /// whose index subtrahend exceeds a byte is rejected.
    pub fn from_profile(profile: &CmvsSchemeProfile) -> (r: Result<Self, CmvsError>)
        ensures
            match r {
                Ok(s) => spec_scheme_from_profile(*profile, s),
                Err(e) => e == CmvsError::CpzProfile && (profile.cpz5_secret@.len() != 24
                    || profile.dir_key_addend@.len() != 4 || profile.index_subtrahend > 255),
            },
            r is Err <== (profile.cpz5_secret@.len() != 24 || profile.dir_key_addend@.len() != 4
                || profile.index_subtrahend > 255),
    {
        if profile.cpz5_secret.len() != 24 || profile.dir_key_addend.len() != 4 || profile.index_subtrahend > 255 {
            return Err(CmvsError::CpzProfile);
        }
        let mut secret = [0u32; 24];
        let mut i: usize = 0;
        while i < 24
            invariant
                i <= 24,
                profile.cpz5_secret@.len() == 24,
                forall|j: int| 0 <= j < i ==> secret@[j] == profile.cpz5_secret@[j],
            decreases 24 - i,
        {
            secret[i] = profile.cpz5_secret[i];
            i = i + 1;
        }
        let mut addend = [0u32; 4];
        let mut k: usize = 0;
        while k < 4
            invariant
                k <= 4,
                profile.dir_key_addend@.len() == 4,
                forall|j: int| 0 <= j < k ==> addend@[j] == profile.dir_key_addend@[j],
            decreases 4 - k,
        {
            addend[k] = profile.dir_key_addend[k];
            k = k + 1;
        }
        assert(secret@ =~= profile.cpz5_secret@);
        assert(addend@ =~= profile.dir_key_addend@);
        Ok(Cpz5Scheme {
            secret,
            index_addend: profile.index_addend,
            index_subtrahend: profile.index_subtrahend as u8,
            index_seed: profile.index_seed,
            directory_key_addend: addend,
        })
    }
}

/// The rotation of the first index stage under `key`.
pub open spec fn stage1_shift(key: u32) -> u32 {
    ((((key >> 24) ^ (key >> 16) ^ (key >> 8) ^ key ^ 0x0b) & 0x0f) + 7) as u32
}

/// Secret word `i` of the first index stage under `key`.
pub open spec fn stage1_secret(secret: Seq<u32>, key: u32, i: int) -> u32 {
    secret[i].wrapping_sub(key)
}

/// Whole word `w` of the first index stage, from the encrypted bytes.
pub open spec fn stage1_word(secret: Seq<u32>, addend: u32, key: u32, old: Seq<u8>, w: int) -> u32 {
    spec_rotr32((stage1_secret(secret, key, (5 + w) % 24) ^ word_at(old, w)).wrapping_add(addend), stage1_shift(key))
        .wrapping_add(0x01010101)
}

/// Trailing byte `r` of the first index stage, from the encrypted bytes.
pub open spec fn stage1_tail(secret: Seq<u32>, subtrahend: u8, key: u32, old: Seq<u8>, r: int) -> u8 {
    let words = old.len() / 4;
    let rem = old.len() % 4;
    (tail_at(old, r) ^ ((stage1_secret(secret, key, (5 + words + r) % 24) >> ((rem - r) * 4) as u32) as u8))
        .wrapping_sub(subtrahend)
}

/// Seed of word `w` of the directory transform.
pub open spec fn directory_seed(archive_key: u32, w: nat) -> u32
    decreases w,
{
    if w == 0 { 0x76548aef } else { directory_seed(archive_key, (w - 1) as nat).wrapping_add(0x10fb562a ^ archive_key) }
}

/// Whole word `w` of the directory transform.
pub open spec fn directory_word(key: Seq<u32>, archive_key: u32, old: Seq<u8>, w: int) -> u32 {
    spec_rotl32((word_at(old, w) ^ key[w % 4]).wrapping_sub(0x4a91c262), 3).wrapping_sub(directory_seed(archive_key, w as nat))
}

/// Word `w` of the CPZ5 directory encryption of the plain word `plain`:
/// the seed is added, the word rotated right by three, `0x4a91c262` added
/// and the key word XORed in.
pub open spec fn directory_encrypt_word(key: Seq<u32>, archive_key: u32, plain: u32, w: nat) -> u32 {
    spec_rotr32(plain.wrapping_add(directory_seed(archive_key, w)), 3).wrapping_add(0x4a91c262) ^ key[(w % 4) as int]
}

/// The directory seed of word `w` starts at `0x76548aef` and grows by
/// `0x10fb562a ^ archive_key` per word, modulo 2^32.
pub proof fn lemma_directory_seed_steps(archive_key: u32, w: nat)
    ensures
        directory_seed(archive_key, w) as int == (0x76548aef + w * ((0x10fb562a ^ archive_key) as int)) % 0x1_0000_0000,
    decreases w,
{
    if w == 0 {
        assert(w * ((0x10fb562a ^ archive_key) as int) == 0);
    } else {
        lemma_directory_seed_steps(archive_key, (w - 1) as nat);
        let step = (0x10fb562a ^ archive_key) as int;
        let before = 0x76548aef + (w - 1) * step;
        assert(before >= 0) by (nonlinear_arith)
            requires
                before == 0x76548aef + (w - 1) * step,
                w >= 1,
                step >= 0;
        let prev = directory_seed(archive_key, (w - 1) as nat);
        assert(prev as int == before % 0x1_0000_0000);
        assert(directory_seed(archive_key, w) as int == (prev as int + step) % 0x1_0000_0000);
        vstd::arithmetic::div_mod::lemma_add_mod_noop(before, step, 0x1_0000_0000);
        assert(step % 0x1_0000_0000 == step);
        assert(before + step == 0x76548aef + w * step) by (nonlinear_arith)
            requires
                before == 0x76548aef + (w - 1) * step;
    }
}

/// Word `w` of the bytes of `words` followed by `tail` is `words[w]`.
proof fn lemma_word_of_from_words(words: Seq<u32>, tail: Seq<u8>, w: int)
    requires
        0 <= w < words.len(),
    ensures
        word_at(from_words(words, tail), w) == words[w],
{
    let f = from_words(words, tail);
    let x = words[w];
    assert(f[4 * w] == u32_byte(x, 0));
    assert(f[4 * w + 1] == u32_byte(x, 1));
    assert(f[4 * w + 2] == u32_byte(x, 2));
    assert(f[4 * w + 3] == u32_byte(x, 3));
    assert((x & 0xff) < 256 && ((x >> 8) & 0xff) < 256 && ((x >> 16) & 0xff) < 256 && ((x >> 24) & 0xff) < 256)
        by (bit_vector);
    assert(((x & 0xff) + 256 * ((x >> 8) & 0xff) + 65536 * ((x >> 16) & 0xff) + 16777216 * ((x >> 24) & 0xff)) == x)
        by (bit_vector);
    assert(f[4 * w] as int == (x & 0xff) as int);
    assert(f[4 * w + 1] as int == ((x >> 8) & 0xff) as int);
    assert(f[4 * w + 2] as int == ((x >> 16) & 0xff) as int);
    assert(f[4 * w + 3] as int == ((x >> 24) & 0xff) as int);
}

/// The directory transform undoes the CPZ5 directory encryption: encrypting
/// each decrypted word again gives back the stored word.
pub proof fn lemma_directory_inverts_encryption(key: Seq<u32>, archive_key: u32, old: Seq<u8>, w: int)
    requires
        key.len() == 4,
        0 <= w < old.len() / 4,
    ensures
        directory_encrypt_word(key, archive_key, word_at(directory_bytes(key, archive_key, old), w), w as nat)
            == word_at(old, w),
{
    let words = Seq::new(old.len() / 4, |v: int| directory_word(key, archive_key, old, v));
    let tail = Seq::new(old.len() % 4, |r: int| directory_tail(key, old, r));
    lemma_word_of_from_words(words, tail, w);
    let k = key[w % 4];
    let stored = word_at(old, w);
    let x = (stored ^ k).wrapping_sub(0x4a91c262);
    let seed = directory_seed(archive_key, w as nat);
    let d = spec_rotl32(x, 3).wrapping_sub(seed);
    assert(d.wrapping_add(seed) == spec_rotl32(x, 3));
    assert(spec_rotr32(spec_rotl32(x, 3), 3) == x) by (bit_vector);
    assert(x.wrapping_add(0x4a91c262) == stored ^ k);
    assert((stored ^ k) ^ k == stored) by (bit_vector);
}

/// Trailing byte `r` of the directory transform.
pub open spec fn directory_tail(key: Seq<u32>, old: Seq<u8>, r: int) -> u8 {
    (tail_at(old, r) ^ ((key[(old.len() / 4 + r) % 4] >> 6) as u8)).wrapping_add(0x37)
}

/// Seed of word `w` of the entry-table transform.
pub open spec fn entries_seed(index_seed: u32, archive_key: u32, w: nat) -> u32
    decreases w,
{
    if w == 0 { index_seed } else { entries_seed(index_seed, archive_key, (w - 1) as nat).wrapping_sub(0x0139fa9b ^ archive_key) }
}

/// Whole word `w` of the entry-table transform.
pub open spec fn entries_word(index_seed: u32, key: Seq<u32>, archive_key: u32, old: Seq<u8>, w: int) -> u32 {
    spec_rotl32((word_at(old, w) ^ key[w % 4]).wrapping_sub(entries_seed(index_seed, archive_key, w as nat)), 2).wrapping_add(0x37a19e8b)
}

/// Trailing byte `r` of the entry-table transform.
pub open spec fn entries_tail(key: Seq<u32>, old: Seq<u8>, r: int) -> u8 {
    (tail_at(old, r) ^ ((key[(old.len() / 4 + r) % 4] >> 4) as u8)).wrapping_add(5)
}

/// Byte `k` (0 to 3) of the little-endian encoding of `x`.
pub open spec fn u32_byte(x: u32, k: int) -> u8 {
    if k == 0 {
        (x & 0xff) as u8
    } else if k == 1 {
        ((x >> 8) & 0xff) as u8
    } else if k == 2 {
        ((x >> 16) & 0xff) as u8
    } else {
        ((x >> 24) & 0xff) as u8
    }
}

/// The bytes of the little-endian `words` followed by the `tail` bytes.
pub open spec fn from_words(words: Seq<u32>, tail: Seq<u8>) -> Seq<u8> {
    Seq::new(4 * words.len() + tail.len(), |i: int|
        if i < 4 * words.len() { u32_byte(words[i / 4], i % 4) } else { tail[i - 4 * words.len()] })
}

/// The first index stage of `old`.
pub open spec fn stage1_bytes(secret: Seq<u32>, addend: u32, subtrahend: u8, key: u32, old: Seq<u8>) -> Seq<u8> {
    from_words(Seq::new(old.len() / 4, |w: int| stage1_word(secret, addend, key, old, w)),
        Seq::new(old.len() % 4, |r: int| stage1_tail(secret, subtrahend, key, old, r)))
}

/// The directory transform of `old`.
pub open spec fn directory_bytes(key: Seq<u32>, archive_key: u32, old: Seq<u8>) -> Seq<u8> {
    from_words(Seq::new(old.len() / 4, |w: int| directory_word(key, archive_key, old, w)),
        Seq::new(old.len() % 4, |r: int| directory_tail(key, old, r)))
}

/// The entry-table transform of `old`.
pub open spec fn entries_bytes(index_seed: u32, key: Seq<u32>, archive_key: u32, old: Seq<u8>) -> Seq<u8> {
    from_words(Seq::new(old.len() / 4, |w: int| entries_word(index_seed, key, archive_key, old, w)),
        Seq::new(old.len() % 4, |r: int| entries_tail(key, old, r)))
}

/// `old` substituted through `table` after XOR with `xor`.
pub open spec fn decode_bytes(table: Seq<u8>, xor: u8, old: Seq<u8>) -> Seq<u8> {
    Seq::new(old.len(), |i: int| table[(xor ^ old[i]) as int])
}

proof fn lemma_bytes_of_word(a: u32, b: u32, c: u32, d: u32, x: u32)
    requires
        a < 256,
        b < 256,
        c < 256,
        d < 256,
        a + 256 * b + 65536 * c + 16777216 * d == x,
    ensures
        a == x & 0xff,
        b == (x >> 8) & 0xff,
        c == (x >> 16) & 0xff,
        d == (x >> 24) & 0xff,
{
    assert(a == x & 0xff && b == (x >> 8) & 0xff && c == (x >> 16) & 0xff && d == (x >> 24) & 0xff) by (bit_vector)
        requires
            a < 256,
            b < 256,
            c < 256,
            d < 256,
            a + 256 * b + 65536 * c + 16777216 * d == x;
}

proof fn lemma_word_bytes(s: Seq<u8>, w: int, x: u32)
    requires
        0 <= w,
        4 * w + 4 <= s.len(),
        word_at(s, w) == x,
    ensures
        s[4 * w] == u32_byte(x, 0),
        s[4 * w + 1] == u32_byte(x, 1),
        s[4 * w + 2] == u32_byte(x, 2),
        s[4 * w + 3] == u32_byte(x, 3),
{
    let a = s[4 * w] as u32;
    let b = s[4 * w + 1] as u32;
    let c = s[4 * w + 2] as u32;
    let d = s[4 * w + 3] as u32;
    lemma_bytes_of_word(a, b, c, d, x);
}

/// A buffer whose whole words and trailing bytes are known is the bytes of
/// those words and trailing bytes.
proof fn lemma_from_words(new: Seq<u8>, words: Seq<u32>, tail: Seq<u8>)
    requires
        new.len() == 4 * words.len() + tail.len(),
        tail.len() < 4,
        forall|w: int| 0 <= w < words.len() ==> #[trigger] word_at(new, w) == words[w],
        forall|r: int| 0 <= r < tail.len() ==> #[trigger] tail_at(new, r) == tail[r],
    ensures
        new == from_words(words, tail),
{
    let f = from_words(words, tail);
    assert(new.len() / 4 == words.len());
    assert forall|i: int| 0 <= i < new.len() implies new[i] == f[i] by {
        if i < 4 * words.len() {
            let w = i / 4;
            assert(0 <= w < words.len());
            assert(word_at(new, w) == words[w]);
            lemma_word_bytes(new, w, words[w]);
            assert(i == 4 * w + i % 4);
        } else {
            let r = i - 4 * words.len();
            assert(tail_at(new, r) == tail[r]);
        }
    }
    assert(new =~= f);
}

proof fn lemma_word_kept(a: Seq<u8>, b: Seq<u8>, w: int, lo: int, hi: int)
    requires
        a.len() == b.len(),
        0 <= w,
        4 * w + 4 <= lo || hi <= 4 * w,
        4 * w + 4 <= a.len(),
        forall|j: int| 0 <= j < a.len() && (j < lo || j >= hi) ==> a[j] == b[j],
    ensures
        word_at(a, w) == word_at(b, w),
{
    assert(a[4 * w] == b[4 * w]);
    assert(a[4 * w + 1] == b[4 * w + 1]);
    assert(a[4 * w + 2] == b[4 * w + 2]);
    assert(a[4 * w + 3] == b[4 * w + 3]);
}

/// The state of one word loop: words below `w` hold `f`, later bytes are
/// still those of `old`.
pub open spec fn words_done(old: Seq<u8>, cur: Seq<u8>, w: int) -> bool {
    &&& cur.len() == old.len()
    &&& forall|j: int| 4 * w <= j < old.len() ==> cur[j] == old[j]
}

impl Cpz5Scheme {
    /// The first CPZ5 index stage: each whole word is XORed with a rolling
    /// secret word, offset, rotated and offset again; trailing bytes are
    /// XORed with a shifted secret word and reduced by the subtrahend.
    pub fn decrypt_index_stage_1(&self, data: &mut [u8], key: u32)
        ensures
            final(data)@ == stage1_bytes(self.secret@, self.index_addend, self.index_subtrahend, key, old(data)@),
    {
        let ghost old_data = data@;
        let len = data.len();
        let words = len / 4;
        assert((((key >> 24) ^ (key >> 16) ^ (key >> 8) ^ key ^ 0x0b) & 0x0f) <= 0x0f) by (bit_vector);
        let shift = (((key >> 24) ^ (key >> 16) ^ (key >> 8) ^ key ^ 0x0b) & 0x0f) + 7;
        let mut w: usize = 0;
        while w < words
            invariant
                w <= words,
                words == len / 4,
                len == old_data.len(),
                shift == stage1_shift(key),
                0 < shift < 32,
                words_done(old_data, data@, w as int),
                forall|v: int| 0 <= v < w ==> #[trigger] word_at(data@, v) == stage1_word(self.secret@, self.index_addend, key, old_data, v),
            decreases words - w,
        {
            let o = 4 * w;
            let ghost before = data@;
            let encrypted = get_le_u32(data, o);
            assert(encrypted == word_at(old_data, w as int)) by {
                lemma_word_kept(before, old_data, w as int, 0, 4 * w as int);
            }
            let idx = (5 + w) % 24;
            let decoded = rotr32((self.secret[idx].wrapping_sub(key) ^ encrypted).wrapping_add(self.index_addend), shift)
                .wrapping_add(0x01010101);
            put_le_u32(data, o, decoded);
            assert forall|v: int| 0 <= v < w + 1 implies #[trigger] word_at(data@, v) == stage1_word(self.secret@, self.index_addend, key, old_data, v) by {
                if v < w {
                    lemma_word_kept(data@, before, v, o as int, o + 4);
                }
            }
            w = w + 1;
        }
        let rem = len - 4 * words;
        let mut r: usize = 0;
        while r < rem
            invariant
                r <= rem,
                rem == len % 4,
                words == len / 4,
                len == old_data.len(),
                data@.len() == len,
                forall|j: int| 4 * words + r <= j < len ==> data@[j] == old_data[j],
                forall|v: int| 0 <= v < words ==> #[trigger] word_at(data@, v) == stage1_word(self.secret@, self.index_addend, key, old_data, v),
                forall|q: int| 0 <= q < r ==> #[trigger] tail_at(data@, q) == stage1_tail(self.secret@, self.index_subtrahend, key, old_data, q),
            decreases rem - r,
        {
            let ghost before = data@;
            let p = 4 * words + r;
            let idx = (5 + words + r) % 24;
            let sh = ((rem - r) * 4) as u32;
            let b = (data[p] ^ ((self.secret[idx].wrapping_sub(key) >> sh) as u8)).wrapping_sub(self.index_subtrahend);
            data[p] = b;
            assert forall|v: int| 0 <= v < words implies #[trigger] word_at(data@, v) == stage1_word(self.secret@, self.index_addend, key, old_data, v) by {
                lemma_word_kept(data@, before, v, p as int, p + 1);
            }
            assert forall|q: int| 0 <= q < r + 1 implies #[trigger] tail_at(data@, q) == stage1_tail(self.secret@, self.index_subtrahend, key, old_data, q) by {
                assert(old_data.len() / 4 == words);
                assert(data@.len() / 4 == words);
                assert(before.len() / 4 == words);
                if q < r {
                    assert(data@[4 * words + q] == before[4 * words + q]);
                    assert(tail_at(before, q) == tail_at(data@, q));
                } else {
                    assert(old_data.len() / 4 == words);
                    assert(data@.len() / 4 == words);
                    assert(tail_at(old_data, q) == before[p as int]);
                    assert(tail_at(data@, q) == data@[p as int]);
                }
            }
            r = r + 1;
        }
        proof {
            lemma_from_words(data@, Seq::new(old_data.len() / 4, |w: int| stage1_word(self.secret@, self.index_addend, key, old_data, w)),
                Seq::new(old_data.len() % 4, |r: int| stage1_tail(self.secret@, self.index_subtrahend, key, old_data, r)));
        }
    }

    /// The CPZ5 directory transform under the four-word `key`.
    pub fn decrypt_directory(&self, data: &mut [u8], key: [u32; 4], archive_key: u32)
        ensures
            final(data)@ == directory_bytes(key@, archive_key, old(data)@),
    {
        let ghost old_data = data@;
        let len = data.len();
        let words = len / 4;
        let mut seed: u32 = 0x76548aef;
        let mut w: usize = 0;
        while w < words
            invariant
                w <= words,
                words == len / 4,
                len == old_data.len(),
                seed == directory_seed(archive_key, w as nat),
                words_done(old_data, data@, w as int),
                forall|v: int| 0 <= v < w ==> #[trigger] word_at(data@, v) == directory_word(key@, archive_key, old_data, v),
            decreases words - w,
        {
            let o = 4 * w;
            let ghost before = data@;
            let encrypted = get_le_u32(data, o);
            assert(encrypted == word_at(old_data, w as int)) by {
                lemma_word_kept(before, old_data, w as int, 0, 4 * w as int);
            }
            let decoded = rotl32((encrypted ^ key[w % 4]).wrapping_sub(0x4a91c262), 3).wrapping_sub(seed);
            assert(w & 3 == w % 4) by (bit_vector);
            put_le_u32(data, o, decoded);
            assert forall|v: int| 0 <= v < w + 1 implies #[trigger] word_at(data@, v) == directory_word(key@, archive_key, old_data, v) by {
                if v < w {
                    lemma_word_kept(data@, before, v, o as int, o + 4);
                }
            }
            seed = seed.wrapping_add(0x10fb562a ^ archive_key);
            w = w + 1;
        }
        let rem = len - 4 * words;
        let mut r: usize = 0;
        while r < rem
            invariant
                r <= rem,
                rem == len % 4,
                words == len / 4,
                len == old_data.len(),
                data@.len() == len,
                forall|j: int| 4 * words + r <= j < len ==> data@[j] == old_data[j],
                forall|v: int| 0 <= v < words ==> #[trigger] word_at(data@, v) == directory_word(key@, archive_key, old_data, v),
                forall|q: int| 0 <= q < r ==> #[trigger] tail_at(data@, q) == directory_tail(key@, old_data, q),
            decreases rem - r,
        {
            let ghost before = data@;
            let p = 4 * words + r;
            data[p] = (data[p] ^ ((key[(words + r) % 4] >> 6) as u8)).wrapping_add(0x37);
            assert forall|v: int| 0 <= v < words implies #[trigger] word_at(data@, v) == directory_word(key@, archive_key, old_data, v) by {
                lemma_word_kept(data@, before, v, p as int, p + 1);
            }
            assert forall|q: int| 0 <= q < r + 1 implies #[trigger] tail_at(data@, q) == directory_tail(key@, old_data, q) by {
                assert(old_data.len() / 4 == words);
                assert(data@.len() / 4 == words);
                assert(before.len() / 4 == words);
                if q < r {
                    assert(data@[4 * words + q] == before[4 * words + q]);
                    assert(tail_at(before, q) == tail_at(data@, q));
                } else {
                    assert(old_data.len() / 4 == words);
                    assert(data@.len() / 4 == words);
                    assert(tail_at(old_data, q) == before[p as int]);
                    assert(tail_at(data@, q) == data@[p as int]);
                }
            }
            r = r + 1;
        }
        proof {
            lemma_from_words(data@, Seq::new(old_data.len() / 4, |w: int| directory_word(key@, archive_key, old_data, w)),
                Seq::new(old_data.len() % 4, |r: int| directory_tail(key@, old_data, r)));
        }
    }

    /// The CPZ5 entry-table transform under the four-word `key`.
    pub fn decrypt_entries(&self, data: &mut [u8], key: [u32; 4], archive_key: u32)
        ensures
            final(data)@ == entries_bytes(self.index_seed, key@, archive_key, old(data)@),
    {
        let ghost old_data = data@;
        let len = data.len();
        let words = len / 4;
        let mut seed: u32 = self.index_seed;
        let mut w: usize = 0;
        while w < words
            invariant
                w <= words,
                words == len / 4,
                len == old_data.len(),
                seed == entries_seed(self.index_seed, archive_key, w as nat),
                words_done(old_data, data@, w as int),
                forall|v: int| 0 <= v < w ==> #[trigger] word_at(data@, v) == entries_word(self.index_seed, key@, archive_key, old_data, v),
            decreases words - w,
        {
            let o = 4 * w;
            let ghost before = data@;
            let encrypted = get_le_u32(data, o);
            assert(encrypted == word_at(old_data, w as int)) by {
                lemma_word_kept(before, old_data, w as int, 0, 4 * w as int);
            }
            let decoded = rotl32((encrypted ^ key[w % 4]).wrapping_sub(seed), 2).wrapping_add(0x37a19e8b);
            put_le_u32(data, o, decoded);
            assert forall|v: int| 0 <= v < w + 1 implies #[trigger] word_at(data@, v) == entries_word(self.index_seed, key@, archive_key, old_data, v) by {
                if v < w {
                    lemma_word_kept(data@, before, v, o as int, o + 4);
                }
            }
            seed = seed.wrapping_sub(0x0139fa9b ^ archive_key);
            w = w + 1;
        }
        let rem = len - 4 * words;
        let mut r: usize = 0;
        while r < rem
            invariant
                r <= rem,
                rem == len % 4,
                words == len / 4,
                len == old_data.len(),
                data@.len() == len,
                forall|j: int| 4 * words + r <= j < len ==> data@[j] == old_data[j],
                forall|v: int| 0 <= v < words ==> #[trigger] word_at(data@, v) == entries_word(self.index_seed, key@, archive_key, old_data, v),
                forall|q: int| 0 <= q < r ==> #[trigger] tail_at(data@, q) == entries_tail(key@, old_data, q),
            decreases rem - r,
        {
            let ghost before = data@;
            let p = 4 * words + r;
            data[p] = (data[p] ^ ((key[(words + r) % 4] >> 4) as u8)).wrapping_add(5);
            assert forall|v: int| 0 <= v < words implies #[trigger] word_at(data@, v) == entries_word(self.index_seed, key@, archive_key, old_data, v) by {
                lemma_word_kept(data@, before, v, p as int, p + 1);
            }
            assert forall|q: int| 0 <= q < r + 1 implies #[trigger] tail_at(data@, q) == entries_tail(key@, old_data, q) by {
                assert(old_data.len() / 4 == words);
                assert(data@.len() / 4 == words);
                assert(before.len() / 4 == words);
                if q < r {
                    assert(data@[4 * words + q] == before[4 * words + q]);
                    assert(tail_at(before, q) == tail_at(data@, q));
                } else {
                    assert(old_data.len() / 4 == words);
                    assert(data@.len() / 4 == words);
                    assert(tail_at(old_data, q) == before[p as int]);
                    assert(tail_at(data@, q) == data@[p as int]);
                }
            }
            r = r + 1;
        }
        proof {
            lemma_from_words(data@, Seq::new(old_data.len() / 4, |w: int| entries_word(self.index_seed, key@, archive_key, old_data, w)),
                Seq::new(old_data.len() % 4, |r: int| entries_tail(key@, old_data, r)));
        }
    }
}

/// The directory key of the CPZ5 index: the CMVS MD5 words mixed with the
/// master key.
pub open spec fn spec_index_key(m: Seq<u32>, master_key: u32) -> Seq<u32> {
    seq![m[0] ^ master_key.wrapping_add(0x76a3bf29), m[1] ^ master_key,
        m[2] ^ master_key.wrapping_add(0x10000000), m[3] ^ master_key]
}

/// Mixes the CMVS MD5 words with the master key.
pub fn index_key(cmvs_md5: [u32; 4], master_key: u32) -> (r: [u32; 4])
    ensures
        r@ == spec_index_key(cmvs_md5@, master_key),
{
    let r = [
        cmvs_md5[0] ^ master_key.wrapping_add(0x76a3bf29),
        cmvs_md5[1] ^ master_key,
        cmvs_md5[2] ^ master_key.wrapping_add(0x10000000),
        cmvs_md5[3] ^ master_key,
    ];
    assert(r@ =~= spec_index_key(cmvs_md5@, master_key));
    r
}

/// The identity substitution table.
pub open spec fn identity_table() -> Seq<u8> {
    Seq::new(256, |i: int| i as u8)
}

/// `t` with its entries `i` and `j` exchanged.
pub open spec fn swap_at(t: Seq<u8>, i: int, j: int) -> Seq<u8> {
    t.update(i, t[j]).update(j, t[i])
}

/// One shuffle round of the substitution table under `key`.
pub open spec fn shuffle_round(t: Seq<u8>, key: u32) -> Seq<u8> {
    swap_at(swap_at(t, ((key >> 16) & 0xff) as int, (key & 0xff) as int), ((key >> 8) & 0xff) as int, (key >> 24) as int)
}

/// The key of the next shuffle round.
pub open spec fn next_shuffle_key(factor: u32, summand: u32, key: u32) -> u32 {
    summand.wrapping_add(factor.wrapping_mul(spec_rotr32(key, 2)))
}

/// The table and key after `n` shuffle rounds from the identity.
pub open spec fn shuffled(factor: u32, summand: u32, key: u32, n: nat) -> (Seq<u8>, u32)
    decreases n,
{
    if n == 0 {
        (identity_table(), key)
    } else {
        let prev = shuffled(factor, summand, key, (n - 1) as nat);
        (shuffle_round(prev.0, prev.1), next_shuffle_key(factor, summand, prev.1))
    }
}

/// The substitution table of a decoder built from `key` and `summand`:
/// the identity shuffled for 256 rounds.
pub open spec fn decoder_table(factor: u32, key: u32, summand: u32) -> Seq<u8> {
    shuffled(factor, summand, key, 256).0
}

/// The CPZ5 byte substitution decoder and entry decryptor.
pub struct Cpz5Decoder {
    pub table: [u8; 256],
    pub decoder_factor: u32,
    pub entry_init_key: u32,
    pub entry_key_pos: u8,
    pub entry_tail_key: u8,
    pub secret: Vec<u32>,
}

/// The decoder carries the profile's entry parameters.
pub open spec fn spec_decoder_of(d: Cpz5Decoder, p: CmvsSchemeProfile) -> bool {
    &&& d.decoder_factor == p.decoder_factor
    &&& d.entry_init_key == p.entry_init_key
    &&& d.entry_key_pos == p.entry_key_pos
    &&& d.entry_tail_key == p.entry_tail_key
    &&& d.secret@ == p.cpz5_secret@
}

proof fn lemma_u32_fields(key: u32)
    ensures
        ((key >> 16) & 0xff) < 256,
        (key & 0xff) < 256,
        ((key >> 8) & 0xff) < 256,
        (key >> 24) < 256,
{
    assert(((key >> 16) & 0xff) < 256 && (key & 0xff) < 256 && ((key >> 8) & 0xff) < 256 && (key >> 24) < 256)
        by (bit_vector);
}

/// Secret word `i` of the entry decryptor: each byte of the profile word is
/// substituted through the table and XORed with the key byte, and the
/// reassembled word is XORed with the seed.
pub open spec fn entry_secret(t: Seq<u8>, secret: Seq<u32>, md5_1: u32, seed: u32, i: int) -> u32 {
    let k = (md5_1 >> 2) as u8;
    let x = secret[i];
    let b0 = k ^ t[(x & 0xff) as int];
    let b1 = k ^ t[((x >> 8) & 0xff) as int];
    let b2 = k ^ t[((x >> 16) & 0xff) as int];
    let b3 = k ^ t[((x >> 24) & 0xff) as int];
    ((b0 as int + 256 * b1 as int + 65536 * b2 as int + 16777216 * b3 as int) as u32) ^ seed
}

/// Decrypted whole word `w` of an entry.
pub open spec fn entry_word(t: Seq<u8>, secret: Seq<u32>, md5: Seq<u32>, seed: u32, init: u32, pos: u8, old: Seq<u8>, w: nat) -> u32
    decreases w, 1int,
{
    let r = entry_rolling(t, secret, md5, seed, init, pos, old, w);
    md5[(r & 3) as int] ^ ((word_at(old, w as int) ^ entry_secret(t, secret, md5[1], seed, ((r >> 6) & 15) as int)
        ^ (entry_secret(t, secret, md5[1], seed, ((pos & 15) + w) % 16) >> 1)).wrapping_sub(seed))
}

/// The rolling key before whole word `n` of an entry.
pub open spec fn entry_rolling(t: Seq<u8>, secret: Seq<u32>, md5: Seq<u32>, seed: u32, init: u32, pos: u8, old: Seq<u8>, n: nat) -> u32
    decreases n, 0int,
{
    if n == 0 {
        init
    } else {
        entry_rolling(t, secret, md5, seed, init, pos, old, (n - 1) as nat).wrapping_add(seed)
            .wrapping_add(entry_word(t, secret, md5, seed, init, pos, old, (n - 1) as nat))
    }
}

/// The decryption of the entry bytes `old` with the substitution `table`,
/// the profile `secret`, initial rolling key, key position and tail key.
pub open spec fn entry_bytes(table: Seq<u8>, secret: Seq<u32>, init: u32, pos: u8, tail_key: u8, md5: Seq<u32>,
    seed: u32, old: Seq<u8>) -> Seq<u8>
{
    from_words(Seq::new(old.len() / 4, |w: int| entry_word(table, secret, md5, seed, init, pos, old, w as nat)),
        Seq::new(old.len() % 4, |r: int| table[(tail_at(old, r) ^ tail_key) as int]))
}

fn copy_words(v: &Vec<u32>) -> (r: Vec<u32>)
    ensures
        r@ == v@,
{
    let mut out: Vec<u32> = Vec::new();
    let mut i: usize = 0;
    while i < v.len()
        invariant
            i <= v@.len(),
            out@ == v@.subrange(0, i as int),
        decreases v@.len() - i,
    {
        out.push(v[i]);
        i = i + 1;
        assert(out@ =~= v@.subrange(0, i as int));
    }
    assert(out@ =~= v@);
    out
}

impl Cpz5Decoder {
    /// Builds a decoder for `scheme` and shuffles its table from `key`
    /// and `summand`.
    pub fn new(scheme: &CmvsSchemeProfile, key: u32, summand: u32) -> (r: Self)
        ensures
            spec_decoder_of(r, *scheme),
            r.table@ == decoder_table(scheme.decoder_factor, key, summand),
    {
        let mut decoder = Cpz5Decoder {
            table: [0u8; 256],
            decoder_factor: scheme.decoder_factor,
            entry_init_key: scheme.entry_init_key,
            entry_key_pos: scheme.entry_key_pos,
            entry_tail_key: scheme.entry_tail_key,
            secret: copy_words(&scheme.cpz5_secret),
        };
        decoder.initialize(key, summand);
        decoder
    }

    /// Resets the table to the identity and shuffles it for 256 rounds:
    /// each round exchanges two pairs of entries selected by the key bytes,
    /// then advances the key.
    pub fn initialize(&mut self, key: u32, summand: u32)
        ensures
            final(self).table@ == decoder_table(old(self).decoder_factor, key, summand),
            final(self).decoder_factor == old(self).decoder_factor,
            final(self).entry_init_key == old(self).entry_init_key,
            final(self).entry_key_pos == old(self).entry_key_pos,
            final(self).entry_tail_key == old(self).entry_tail_key,
            final(self).secret@ == old(self).secret@,
    {
        let mut i: usize = 0;
        while i < 256
            invariant
                i <= 256,
                self.decoder_factor == old(self).decoder_factor,
                self.entry_init_key == old(self).entry_init_key,
                self.entry_key_pos == old(self).entry_key_pos,
                self.entry_tail_key == old(self).entry_tail_key,
                self.secret@ == old(self).secret@,
                forall|j: int| 0 <= j < i ==> self.table@[j] == j as u8,
            decreases 256 - i,
        {
            self.table[i] = i as u8;
            i = i + 1;
        }
        assert(self.table@ =~= identity_table());
        let factor = self.decoder_factor;
        let mut k = key;
        let mut n: usize = 0;
        while n < 256
            invariant
                n <= 256,
                factor == old(self).decoder_factor,
                self.decoder_factor == old(self).decoder_factor,
                self.entry_init_key == old(self).entry_init_key,
                self.entry_key_pos == old(self).entry_key_pos,
                self.entry_tail_key == old(self).entry_tail_key,
                self.secret@ == old(self).secret@,
                (self.table@, k) == shuffled(factor, summand, key, n as nat),
            decreases 256 - n,
        {
            proof { lemma_u32_fields(k); }
            let a = ((k >> 16) & 0xff) as usize;
            let b = (k & 0xff) as usize;
            let x = self.table[a];
            self.table[a] = self.table[b];
            self.table[b] = x;
            let c = ((k >> 8) & 0xff) as usize;
            let d = (k >> 24) as usize;
            let y = self.table[c];
            self.table[c] = self.table[d];
            self.table[d] = y;
            k = summand.wrapping_add(factor.wrapping_mul(rotr32(k, 2)));
            n = n + 1;
        }
    }

    /// Substitutes every byte through the table after XORing it with `xor`.
    pub fn decode(&self, data: &mut [u8], xor: u8)
        ensures
            final(data)@ == decode_bytes(self.table@, xor, old(data)@),
    {
        let ghost old_data = data@;
        let mut i: usize = 0;
        while i < data.len()
            invariant
                i <= data@.len(),
                data@.len() == old_data.len(),
                forall|j: int| i <= j < data@.len() ==> data@[j] == old_data[j],
                forall|j: int| 0 <= j < i ==> #[trigger] data@[j] == self.table@[(xor ^ old_data[j]) as int],
            decreases data@.len() - i,
        {
            let v = self.table[(xor ^ data[i]) as usize];
            data[i] = v;
            i = i + 1;
        }
        assert(data@ =~= decode_bytes(self.table@, xor, old_data));
    }

    /// Decrypts an entry in place: whole words go through the rolling
    /// MD5-and-secret cipher keyed by `seed`, trailing bytes through the
    /// table; a profile secret shorter than 16 words is rejected.
    pub fn decrypt_entry(&self, data: &mut [u8], cmvs_md5: [u32; 4], seed: u32) -> (r: Result<(), CmvsError>)
        ensures
            self.secret@.len() < 16 ==> r == Err::<(), CmvsError>(CmvsError::CpzSecret) && final(data)@ == old(data)@,
            self.secret@.len() >= 16 ==> r is Ok && final(data)@ == entry_bytes(self.table@, self.secret@, self.entry_init_key,
                self.entry_key_pos, self.entry_tail_key, cmvs_md5@, seed, old(data)@),
    {
        if self.secret.len() < 16 {
            return Err(CmvsError::CpzSecret);
        }
        let ghost old_data = data@;
        let k8 = (cmvs_md5[1] >> 2) as u8;
        let mut secret = [0u32; 16];
        let mut i: usize = 0;
        while i < 16
            invariant
                i <= 16,
                self.secret@.len() >= 16,
                k8 == (cmvs_md5@[1] >> 2) as u8,
                forall|j: int| 0 <= j < i ==> #[trigger] secret@[j] == entry_secret(self.table@, self.secret@, cmvs_md5@[1], seed, j),
            decreases 16 - i,
        {
            let x = self.secret[i];
            proof { lemma_u32_fields(x); }
            assert(((x >> 24) & 0xff) == (x >> 24)) by (bit_vector);
            let b0 = k8 ^ self.table[(x & 0xff) as usize];
            let b1 = k8 ^ self.table[((x >> 8) & 0xff) as usize];
            let b2 = k8 ^ self.table[((x >> 16) & 0xff) as usize];
            let b3 = k8 ^ self.table[((x >> 24) & 0xff) as usize];
            secret[i] = (b0 as u32 + 256 * (b1 as u32) + 65536 * (b2 as u32) + 16777216 * (b3 as u32)) ^ seed;
            i = i + 1;
        }
        let len = data.len();
        let words = len / 4;
        let kp = self.entry_key_pos;
        assert((kp & 15) < 16) by (bit_vector);
        let pos = (kp & 15) as usize;
        let mut rolling = self.entry_init_key;
        let mut w: usize = 0;
        while w < words
            invariant
                w <= words,
                words == len / 4,
                len == old_data.len(),
                pos == (self.entry_key_pos & 15),
                pos < 16,
                rolling == entry_rolling(self.table@, self.secret@, cmvs_md5@, seed, self.entry_init_key, self.entry_key_pos, old_data, w as nat),
                forall|j: int| 0 <= j < 16 ==> #[trigger] secret@[j] == entry_secret(self.table@, self.secret@, cmvs_md5@[1], seed, j),
                words_done(old_data, data@, w as int),
                forall|v: int| 0 <= v < w ==> #[trigger] word_at(data@, v)
                    == entry_word(self.table@, self.secret@, cmvs_md5@, seed, self.entry_init_key, self.entry_key_pos, old_data, v as nat),
            decreases words - w,
        {
            let o = 4 * w;
            let ghost before = data@;
            let encrypted = get_le_u32(data, o);
            assert(encrypted == word_at(old_data, w as int)) by {
                lemma_word_kept(before, old_data, w as int, 0, 4 * w as int);
            }
            assert((rolling & 3) < 4 && ((rolling >> 6) & 15) < 16) by (bit_vector);
            let decoded = cmvs_md5[(rolling & 3) as usize]
                ^ ((encrypted ^ secret[((rolling >> 6) & 15) as usize] ^ (secret[(pos + w) % 16] >> 1)).wrapping_sub(seed));
            put_le_u32(data, o, decoded);
            assert forall|v: int| 0 <= v < w + 1 implies #[trigger] word_at(data@, v)
                == entry_word(self.table@, self.secret@, cmvs_md5@, seed, self.entry_init_key, self.entry_key_pos, old_data, v as nat) by {
                if v < w {
                    lemma_word_kept(data@, before, v, o as int, o + 4);
                }
            }
            assert(decoded == entry_word(self.table@, self.secret@, cmvs_md5@, seed, self.entry_init_key,
                self.entry_key_pos, old_data, w as nat));
            rolling = rolling.wrapping_add(seed).wrapping_add(decoded);
            w = w + 1;
        }
        let rem = len - 4 * words;
        let mut r: usize = 0;
        while r < rem
            invariant
                r <= rem,
                rem == len % 4,
                words == len / 4,
                len == old_data.len(),
                data@.len() == len,
                forall|j: int| 4 * words + r <= j < len ==> data@[j] == old_data[j],
                forall|v: int| 0 <= v < words ==> #[trigger] word_at(data@, v)
                    == entry_word(self.table@, self.secret@, cmvs_md5@, seed, self.entry_init_key, self.entry_key_pos, old_data, v as nat),
                forall|q: int| 0 <= q < r ==> #[trigger] tail_at(data@, q) == self.table@[(tail_at(old_data, q) ^ self.entry_tail_key) as int],
            decreases rem - r,
        {
            let ghost before = data@;
            let p = 4 * words + r;
            data[p] = self.table[(data[p] ^ self.entry_tail_key) as usize];
            assert forall|v: int| 0 <= v < words implies #[trigger] word_at(data@, v)
                == entry_word(self.table@, self.secret@, cmvs_md5@, seed, self.entry_init_key, self.entry_key_pos, old_data, v as nat) by {
                lemma_word_kept(data@, before, v, p as int, p + 1);
            }
            assert forall|q: int| 0 <= q < r + 1 implies #[trigger] tail_at(data@, q) == self.table@[(tail_at(old_data, q) ^ self.entry_tail_key) as int] by {
                assert(old_data.len() / 4 == words);
                assert(data@.len() / 4 == words);
                assert(before.len() / 4 == words);
                if q < r {
                    assert(data@[4 * words + q] == before[4 * words + q]);
                    assert(tail_at(before, q) == tail_at(data@, q));
                } else {
                    assert(tail_at(old_data, q) == before[p as int]);
                    assert(tail_at(data@, q) == data@[p as int]);
                }
            }
            r = r + 1;
        }
        proof {
            lemma_from_words(data@, Seq::new(old_data.len() / 4, |w: int| entry_word(self.table@, self.secret@, cmvs_md5@,
                seed, self.entry_init_key, self.entry_key_pos, old_data, w as nat)),
                Seq::new(old_data.len() % 4, |r: int| self.table@[(tail_at(old_data, r) ^ self.entry_tail_key) as int]));
        }
        Ok(())
    }
}

/// The byte value `v` occurs among the first 256 entries of `t`.
pub open spec fn occurs(t: Seq<u8>, v: u8) -> bool {
    exists|i: int| 0 <= i < 256 && #[trigger] t[i] == v
}

/// `t` holds all 256 byte values.
pub open spec fn holds_every_byte(t: Seq<u8>) -> bool {
    &&& t.len() == 256
    &&& forall|v: u8| #[trigger] occurs(t, v)
}

proof fn lemma_swap_keeps_bytes(t: Seq<u8>, i: int, j: int)
    requires
        holds_every_byte(t),
        0 <= i < 256,
        0 <= j < 256,
    ensures
        holds_every_byte(swap_at(t, i, j)),
{
    let s = swap_at(t, i, j);
    assert forall|v: u8| #[trigger] occurs(s, v) by {
        assert(occurs(t, v));
        let p = choose|p: int| 0 <= p < 256 && #[trigger] t[p] == v;
        if p == i {
            assert(s[j] == v);
        } else if p == j {
            assert(s[i] == v);
        } else {
            assert(s[p] == v);
        }
    }
}

proof fn lemma_shuffled_keeps_bytes(factor: u32, summand: u32, key: u32, n: nat)
    ensures
        holds_every_byte(shuffled(factor, summand, key, n).0),
    decreases n,
{
    if n == 0 {
        let t = identity_table();
        assert forall|v: u8| #[trigger] occurs(t, v) by {
            assert(t[v as int] == v);
        }
    } else {
        lemma_shuffled_keeps_bytes(factor, summand, key, (n - 1) as nat);
        let prev = shuffled(factor, summand, key, (n - 1) as nat);
        let k = prev.1;
        lemma_u32_fields(k);
        lemma_swap_keeps_bytes(prev.0, ((k >> 16) & 0xff) as int, (k & 0xff) as int);
        lemma_swap_keeps_bytes(swap_at(prev.0, ((k >> 16) & 0xff) as int, (k & 0xff) as int),
            ((k >> 8) & 0xff) as int, (k >> 24) as int);
    }
}

/// A decoder's substitution table is a permutation of the byte values:
/// it has 256 entries and every byte value occurs in it, whatever the key,
/// summand and factor.
pub proof fn lemma_decoder_table_is_permutation(factor: u32, key: u32, summand: u32)
    ensures
        holds_every_byte(decoder_table(factor, key, summand)),
{
    lemma_shuffled_keeps_bytes(factor, summand, key, 256);
}

} // verus!
