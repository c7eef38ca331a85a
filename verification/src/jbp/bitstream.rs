use vstd::prelude::*;
use vstd::arithmetic::power2::{pow2, lemma_pow2_unfold, lemma_pow2_pos, lemma2_to64};
use vstd::arithmetic::div_mod::lemma_fundamental_div_mod_converse;
use crate::error::CmvsError;

verus! {

/// Bit `i` of `s`, counting from the most significant bit of the first byte.
pub open spec fn bit_at(s: Seq<u8>, i: int) -> nat {
    ((s[i / 8] as nat) / pow2((7 - i % 8) as nat)) % 2
}

/// The `n` bits of `s` from bit `start` on, read most significant first.
pub open spec fn bits_value(s: Seq<u8>, start: int, n: nat) -> nat
    decreases n,
{
    if n == 0 {
        0
    } else {
        2 * bits_value(s, start, (n - 1) as nat) + bit_at(s, start + n - 1)
    }
}

/// `n` bits hold a value below `2^n`.
pub proof fn lemma_bits_value_bound(s: Seq<u8>, start: int, n: nat)
    ensures
        bits_value(s, start, n) < pow2(n),
    decreases n,
{
    if n > 0 {
        lemma_bits_value_bound(s, start, (n - 1) as nat);
        lemma_pow2_unfold(n);
    } else {
        lemma2_to64();
    }
}

/// Reading `a` then `b` bits is reading `a + b` bits.
pub proof fn lemma_bits_value_split(s: Seq<u8>, start: int, a: nat, b: nat)
    ensures
        bits_value(s, start, a + b) == bits_value(s, start, a) * pow2(b) + bits_value(s, start + a, b),
    decreases b,
{
    if b == 0 {
        lemma2_to64();
    } else {
        lemma_bits_value_split(s, start, a, (b - 1) as nat);
        lemma_pow2_unfold(b);
        let x = bits_value(s, start, a);
        let p = pow2((b - 1) as nat);
        assert(2 * (x * p) == x * (2 * p)) by (nonlinear_arith);
        assert(bits_value(s, start, (a + b) as nat) == 2 * bits_value(s, start, (a + b - 1) as nat)
            + bit_at(s, start + a + b - 1));
        assert(bits_value(s, start + a, b) == 2 * bits_value(s, start + a, (b - 1) as nat)
            + bit_at(s, start + a + b - 1));
    }
}

/// The first `n` bits of byte `k` are the byte shifted right by `8 - n`.
proof fn lemma_byte_prefix(s: Seq<u8>, k: int, n: nat)
    requires
        0 <= k < s.len(),
        n <= 8,
    ensures
        bits_value(s, 8 * k, n) == (s[k] as nat) / pow2((8 - n) as nat),
    decreases n,
{
    let y = s[k] as nat;
    lemma2_to64();
    if n > 0 {
        lemma_byte_prefix(s, k, (n - 1) as nat);
        lemma_fundamental_div_mod_converse(8 * k + n - 1, 8, k, n - 1);
        let p = pow2((8 - n) as nat);
        lemma_pow2_pos((8 - n) as nat);
        lemma_pow2_unfold((9 - n) as nat);
        vstd::arithmetic::div_mod::lemma_div_denominator(y as int, p as int, 2);
        let q = y / p;
        assert(bit_at(s, 8 * k + n - 1) == q % 2);
        assert(y / pow2((9 - n) as nat) == q / 2);
        assert(bits_value(s, 8 * k, n) == 2 * bits_value(s, 8 * k, (n - 1) as nat) + bit_at(s, 8 * k + n - 1));
        assert(2 * (q / 2) + q % 2 == q);
    } else {
        assert(pow2(8) == 256);
        assert(y < 256);
        assert(y / 256 == 0);
    }
}

/// The eight bits of byte `k` are the byte itself.
pub proof fn lemma_bits_value_byte(s: Seq<u8>, k: int)
    requires
        0 <= k < s.len(),
    ensures
        bits_value(s, 8 * k, 8) == s[k] as nat,
{
    lemma_byte_prefix(s, k, 8);
    lemma2_to64();
}

/// A most-significant-bit-first reader over a byte slice. The stream may
/// read up to the end of its source; `end` records the nominal segment end.
pub struct JBitStream<'a> {
    source: &'a [u8],
    position: usize,
    end: usize,
    bits: u32,
    available: usize,
    code: CmvsError,
}

impl<'a> JBitStream<'a> {
    /// The bytes being read.
    pub closed spec fn data(&self) -> Seq<u8> {
        self.source@
    }

    /// The number of bits consumed so far, counted from the source start.
    pub closed spec fn cursor(&self) -> int {
        self.position * 8 - self.available
    }

    /// The error this stream reports when it runs dry.
    pub closed spec fn error_code(&self) -> CmvsError {
        self.code
    }

    /// Buffered bits are exactly the next unread bits of the source.
    pub closed spec fn wf(&self) -> bool {
        &&& self.position <= self.source@.len()
        &&& self.end <= self.source@.len()
        &&& self.available < 8
        &&& self.available <= self.position * 8
        &&& self.bits as nat == bits_value(self.source@, self.cursor(), self.available as nat)
    }

    /// A stream positioned at `offset`, whose nominal segment of `length`
    /// bytes must lie inside `source`.
    pub fn new(source: &'a [u8], offset: usize, length: usize, code: CmvsError) -> (r: Result<Self, CmvsError>)
        ensures
            match r {
                Ok(stream) => offset + length <= source@.len() && stream.wf() && stream.data() == source@
                    && stream.cursor() == offset * 8 && stream.error_code() == code,
                Err(e) => e == code && offset + length > source@.len(),
            },
    {
        if offset > source.len() || source.len() - offset < length {
            return Err(code);
        }
        Ok(JBitStream { source, position: offset, end: offset + length, bits: 0, available: 0, code })
    }

    /// Reads the next `count` bits, most significant first. Fails with the
    /// stream's code when `count` exceeds 24 or the source runs out.
    pub fn get_bits(&mut self, count: usize) -> (r: Result<u32, CmvsError>)
        requires
            old(self).wf(),
        ensures
            final(self).data() == old(self).data(),
            final(self).error_code() == old(self).error_code(),
            match r {
                Ok(v) => count <= 24 && old(self).cursor() + count <= old(self).data().len() * 8
                    && v as nat == bits_value(old(self).data(), old(self).cursor(), count as nat)
                    && final(self).wf() && final(self).cursor() == old(self).cursor() + count,
                Err(e) => e == old(self).error_code()
                    && (count > 24 || old(self).cursor() + count > old(self).data().len() * 8),
            },
    {
        if count > 24 {
            return Err(self.code);
        }
        let ghost s = self.source@;
        let ghost c0 = self.cursor();
        while self.available < count
            invariant
                s == old(self).source@,
                self.source@ == s,
                self.code == old(self).code,
                c0 == old(self).cursor(),
                count <= 24,
                self.available < count + 8,
                self.position <= s.len(),
                self.end <= s.len(),
                self.available <= self.position * 8,
                self.position * 8 - self.available == c0,
                self.bits as nat == bits_value(s, c0, self.available as nat),
            decreases count + 8 - self.available,
        {
            if self.position >= self.source.len() {
                return Err(self.code);
            }
            let byte = self.source[self.position];
            proof {
                let a = self.available as nat;
                lemma_bits_value_split(s, c0, a, 8);
                assert(c0 + a == 8 * self.position);
                lemma_bits_value_byte(s, self.position as int);
                lemma_bits_value_bound(s, c0, a);
                lemma2_to64();
                if a < 23 {
                    vstd::arithmetic::power2::lemma_pow2_strictly_increases(a, 23);
                }
                assert(self.bits < 8388608);
            }
            self.position = self.position + 1;
            self.bits = self.bits * 256 + byte as u32;
            self.available = self.available + 8;
        }
        let rest = self.available - count;
        let ghost a = self.available as nat;
        proof {
            lemma_bits_value_split(s, c0, count as nat, rest as nat);
            lemma2_to64();
            lemma_bits_value_bound(s, c0 + count, rest as nat);
            lemma_pow2_pos(rest as nat);
        }
        let divisor: u32 = if rest == 0 { 1 } else if rest == 1 { 2 } else if rest == 2 { 4 } else if rest == 3 { 8 }
            else if rest == 4 { 16 } else if rest == 5 { 32 } else if rest == 6 { 64 } else { 128 };
        assert(divisor as nat == pow2(rest as nat));
        let value = self.bits / divisor;
        let remainder = self.bits % divisor;
        proof {
            lemma_fundamental_div_mod_converse(
                self.bits as int,
                divisor as int,
                bits_value(s, c0, count as nat) as int,
                bits_value(s, c0 + count, rest as nat) as int,
            );
        }
        self.available = rest;
        self.bits = remainder;
        Ok(value)
    }

    /// Reads one bit.
    pub fn next_bit(&mut self) -> (r: Result<u8, CmvsError>)
        requires
            old(self).wf(),
        ensures
            final(self).data() == old(self).data(),
            final(self).error_code() == old(self).error_code(),
            match r {
                Ok(v) => old(self).cursor() + 1 <= old(self).data().len() * 8
                    && v as nat == bit_at(old(self).data(), old(self).cursor())
                    && final(self).wf() && final(self).cursor() == old(self).cursor() + 1,
                Err(e) => e == old(self).error_code() && old(self).cursor() + 1 > old(self).data().len() * 8,
            },
    {
        let v = self.get_bits(1)?;
        proof {
            reveal_with_fuel(bits_value, 2);
            assert(bit_at(old(self).data(), old(self).cursor()) < 2);
        }
        Ok(v as u8)
    }
}

} // verus!
