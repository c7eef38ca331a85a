//! Calls into the text and digest crates. Each wrapper names the outside
//! result it hands back; nothing here interprets the result.
use vstd::prelude::*;
use sha2::Digest;

verus! {

/// What `encoding_rs::SHIFT_JIS.decode(bytes)` returns: the decoded text and
/// whether a malformed sequence was replaced. The call first sniffs a byte
/// order mark, as the crate documents.
pub uninterp spec fn shift_jis_decode(bytes: Seq<u8>) -> (Seq<char>, bool);

/// What `encoding_rs::SHIFT_JIS.decode_without_bom_handling(bytes)` returns:
/// the decoded text and whether a malformed sequence was replaced.
pub uninterp spec fn shift_jis_decode_without_bom(bytes: Seq<u8>) -> (Seq<char>, bool);

/// The SHA-256 digest of `data` as computed by `sha2::Sha256`.
pub uninterp spec fn sha256_digest(data: Seq<u8>) -> Seq<u8>;

/// The MD5 digest of `data` as computed by `md5::Md5` (the `md-5` crate).
pub uninterp spec fn md5_digest(data: Seq<u8>) -> Seq<u8>;

/// True when every byte is below 0x80.
pub open spec fn all_ascii(bytes: Seq<u8>) -> bool {
    forall|i: int| 0 <= i < bytes.len() ==> #[trigger] bytes[i] < 0x80
}

/// The characters of an ASCII byte sequence.
pub open spec fn ascii_chars(bytes: Seq<u8>) -> Seq<char> {
    Seq::new(bytes.len(), |i: int| bytes[i] as char)
}

/// Calls `encoding_rs::SHIFT_JIS.decode` and returns the text and its
/// malformed flag (the chosen encoding is dropped). The contract claims the
/// named result, and that pure ASCII input comes back unchanged and well
/// formed: the crate returns ASCII input as borrowed text without error and
/// no byte order mark is ASCII. Nothing else is claimed of other input.
#[verifier::external_body]
pub fn shift_jis_decode_text(bytes: &[u8]) -> (r: (String, bool))
    ensures
        (r.0@, r.1) == shift_jis_decode(bytes@),
        all_ascii(bytes@) ==> r.0@ == ascii_chars(bytes@) && !r.1,
{
    let (text, _, malformed) = encoding_rs::SHIFT_JIS.decode(bytes);
    (text.into_owned(), malformed)
}

/// Calls `encoding_rs::SHIFT_JIS.decode_without_bom_handling` and returns
/// the text and its malformed flag. The contract claims the named result,
/// and that pure ASCII input comes back unchanged and well formed, which the
/// crate's ASCII fast path shows. Nothing else is claimed of other input.
#[verifier::external_body]
pub fn shift_jis_decode_text_without_bom(bytes: &[u8]) -> (r: (String, bool))
    ensures
        (r.0@, r.1) == shift_jis_decode_without_bom(bytes@),
        all_ascii(bytes@) ==> r.0@ == ascii_chars(bytes@) && !r.1,
{
    let (text, malformed) = encoding_rs::SHIFT_JIS.decode_without_bom_handling(bytes);
    (text.into_owned(), malformed)
}

/// Calls `sha2::Sha256::digest`; the contract claims only that the result is
/// the named digest of the input.
#[verifier::external_body]
pub fn sha256(data: &[u8]) -> (r: [u8; 32])
    ensures
        r@ == sha256_digest(data@),
{
    sha2::Sha256::digest(data).into()
}

/// Calls `md5::Md5::digest`; the contract claims only that the result is the
/// named digest of the input.
#[verifier::external_body]
pub fn md5(data: &[u8]) -> (r: [u8; 16])
    ensures
        r@ == md5_digest(data@),
{
    md5::Md5::digest(data).into()
}

/// The characters of `s`, in order.
pub fn chars_of(s: &str) -> (r: Vec<char>)
    ensures
        r@ == s@,
{
    let mut out: Vec<char> = Vec::new();
    for c in it: s.chars()
        invariant
            out@ == it.seq().take(it.index() as int),
    {
        out.push(c);
    }
    out
}

/// Calls `String::push`: the contract claims that the string gains `c` at
/// its end, as std documents.
#[verifier::external_body]
pub fn push_char(s: &mut String, c: char)
    ensures
        final(s)@ == old(s)@.push(c),
{
    s.push(c);
}

/// A string of the characters `chars`.
pub fn string_of(chars: &Vec<char>) -> (r: String)
    ensures
        r@ == chars@,
{
    let mut out = String::new();
    let mut i: usize = 0;
    while i < chars.len()
        invariant
            i <= chars@.len(),
            out@ == chars@.subrange(0, i as int),
        decreases chars@.len() - i,
    {
        push_char(&mut out, chars[i]);
        i = i + 1;
        assert(out@ =~= chars@.subrange(0, i as int));
    }
    assert(out@ =~= chars@);
    out
}

/// Whether `a` and `b` hold the same characters.
pub fn str_eq(a: &str, b: &str) -> (r: bool)
    ensures
        r == (a@ == b@),
{
    let x = chars_of(a);
    let y = chars_of(b);
    if x.len() != y.len() {
        return false;
    }
    let mut i: usize = 0;
    while i < x.len()
        invariant
            i <= x@.len(),
            x@.len() == y@.len(),
            x@ == a@,
            y@ == b@,
            forall|k: int| 0 <= k < i ==> x@[k] == y@[k],
        decreases x@.len() - i,
    {
        if x[i] != y[i] {
            return false;
        }
        i = i + 1;
    }
    assert(x@ =~= y@);
    true
}

/// The decimal digit character of `d`.
pub open spec fn digit_char(d: int) -> char {
    (48 + d) as char
}

/// The decimal representation of `n`, without leading zeros.
pub open spec fn decimal_chars(n: nat) -> Seq<char>
    decreases n,
{
    if n < 10 {
        seq![digit_char(n as int)]
    } else {
        decimal_chars(n / 10).push(digit_char((n % 10) as int))
    }
}

/// Appends the decimal representation of `n` to `s`.
pub fn push_decimal(s: &mut String, n: u64)
    ensures
        final(s)@ == old(s)@ + decimal_chars(n as nat),
    decreases n,
{
    if n >= 10 {
        push_decimal(s, n / 10);
    }
    let d = (n % 10) as u8;
    push_char(s, (48u8 + d) as char);
    assert(final(s)@ =~= old(s)@ + decimal_chars(n as nat));
}

} // verus!
