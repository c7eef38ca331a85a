use vstd::prelude::*;
use crate::error::CmvsError;
use crate::bytes::spec_le_u32;
use crate::bits::{spec_rotr8, rotr8};
use crate::scan::{spec_find_zero, lemma_find_zero, find_zero};
use crate::text::{shift_jis_decode_without_bom, shift_jis_decode_text_without_bom, sha256_digest, sha256};
use super::{Ps2aHeader, CmvsScriptString, spec_strings_view, spec_is_ps2a_magic, le_u32_or, PS2A_HEADER_BYTES, PS2A_MAX_SCRIPT_BYTES};

verus! {

/// The PS2A header check: magic, fixed length and bounded sizes.
pub open spec fn spec_parse_ps2a_header(s: Seq<u8>) -> Result<Ps2aHeader, CmvsError> {
    if s.len() < 0x30 || !spec_is_ps2a_magic(s) {
        Err(CmvsError::Ps2aMagic)
    } else {
        let header = Ps2aHeader {
            header_length: spec_le_u32(s, 4),
            program_key: spec_le_u32(s, 0x0c),
            name_index_count: spec_le_u32(s, 0x10),
            bytecode_size: spec_le_u32(s, 0x14),
            metadata_size: spec_le_u32(s, 0x18),
            name_index_size: spec_le_u32(s, 0x1c),
            initial_pc: spec_le_u32(s, 0x20),
            compressed_size: spec_le_u32(s, 0x24),
            uncompressed_size: spec_le_u32(s, 0x28),
        };
        if header.header_length != 0x30 || header.compressed_size == 0
            || header.uncompressed_size == 0 || header.compressed_size > s.len() - 0x30
            || header.uncompressed_size > PS2A_MAX_SCRIPT_BYTES {
            Err(CmvsError::Ps2aHeader)
        } else {
            Ok(header)
        }
    }
}

/// Parses and bounds the fixed PS2A header.
pub fn parse_header(source: &[u8]) -> (r: Result<Ps2aHeader, CmvsError>)
    ensures
        r == spec_parse_ps2a_header(source@),
{
    if source.len() < PS2A_HEADER_BYTES || source[0] != 0x50 || source[1] != 0x53
        || source[2] != 0x32 || source[3] != 0x41 {
        return Err(CmvsError::Ps2aMagic);
    }
    let code = CmvsError::Ps2aHeader;
    let header = Ps2aHeader {
        header_length: le_u32_or(source, 4, code)?,
        program_key: le_u32_or(source, 0x0c, code)?,
        name_index_count: le_u32_or(source, 0x10, code)?,
        bytecode_size: le_u32_or(source, 0x14, code)?,
        metadata_size: le_u32_or(source, 0x18, code)?,
        name_index_size: le_u32_or(source, 0x1c, code)?,
        initial_pc: le_u32_or(source, 0x20, code)?,
        compressed_size: le_u32_or(source, 0x24, code)?,
        uncompressed_size: le_u32_or(source, 0x28, code)?,
    };
    if header.header_length as usize != PS2A_HEADER_BYTES || header.compressed_size == 0
        || header.uncompressed_size == 0
        || header.compressed_size as usize > source.len() - PS2A_HEADER_BYTES
        || header.uncompressed_size as usize > PS2A_MAX_SCRIPT_BYTES {
        return Err(CmvsError::Ps2aHeader);
    }
    Ok(header)
}

/// The same header check, for the archive-key reader.
pub fn parse_header_for_archive_key(source: &[u8]) -> (r: Result<Ps2aHeader, CmvsError>)
    ensures
        r == spec_parse_ps2a_header(source@),
{
    parse_header(source)
}

/// The XOR byte of the payload cipher.
pub open spec fn spec_ps2a_xor(key: u32) -> u8 {
    ((key / 16777216 + key / 8) % 256) as u8
}

/// The rotation of the payload cipher, in `1..=5`.
pub open spec fn spec_ps2a_shift(key: u32) -> u32 {
    ((key / 1048576) % 5 + 1) as u32
}

/// One deciphered payload byte.
pub open spec fn spec_ps2a_decipher(b: u8, key: u32) -> u8 {
    spec_rotr8(b.wrapping_sub(0x7c) ^ spec_ps2a_xor(key), spec_ps2a_shift(key))
}

/// Size of the LZSS window.
pub const LZSS_WINDOW_BYTES: usize = 0x800;

/// Copies `remaining` window bytes starting at `from` to the output and back
/// into the window.
pub open spec fn spec_lzss_copy(window: Seq<u8>, wpos: int, out: Seq<u8>, from: int, remaining: nat)
    -> (Seq<u8>, int, Seq<u8>)
    decreases remaining,
{
    if remaining == 0 {
        (window, wpos, out)
    } else {
        let b = window[from % 0x800];
        spec_lzss_copy(window.update(wpos, b), (wpos + 1) % 0x800, out.push(b), from + 1, (remaining - 1) as nat)
    }
}

pub proof fn lemma_lzss_copy(window: Seq<u8>, wpos: int, out: Seq<u8>, from: int, remaining: nat)
    requires
        window.len() == 0x800,
        0 <= wpos < 0x800,
        from >= 0,
    ensures
        spec_lzss_copy(window, wpos, out, from, remaining).2.len() == out.len() + remaining,
        spec_lzss_copy(window, wpos, out, from, remaining).0.len() == 0x800,
        0 <= spec_lzss_copy(window, wpos, out, from, remaining).1 < 0x800,
        spec_lzss_copy(window, wpos, out, from, remaining).2.subrange(0, out.len() as int) == out,
    decreases remaining,
{
    if remaining > 0 {
        let b = window[from % 0x800];
        lemma_lzss_copy(window.update(wpos, b), (wpos + 1) % 0x800, out.push(b), from + 1, (remaining - 1) as nat);
        let r = spec_lzss_copy(window.update(wpos, b), (wpos + 1) % 0x800, out.push(b), from + 1, (remaining - 1) as nat).2;
        assert(r.subrange(0, out.len() as int) == r.subrange(0, out.len() + 1int).subrange(0, out.len() as int));
        assert(out.push(b).subrange(0, out.len() as int) == out);
    }
}

/// A copy that starts at the byte just before the write position repeats
/// that byte: each copied byte is the one written the step before.
pub proof fn lemma_lzss_copy_repeats(window: Seq<u8>, wpos: int, out: Seq<u8>, from: int, remaining: nat, b: u8)
    requires
        window.len() == 0x800,
        0 <= from,
        0 <= wpos < 0x800,
        wpos == (from + 1) % 0x800,
        window[from % 0x800] == b,
    ensures
        spec_lzss_copy(window, wpos, out, from, remaining).2 == out + Seq::new(remaining, |i: int| b),
    decreases remaining,
{
    if remaining > 0 {
        let w2 = window.update(wpos, b);
        assert((from + 1) % 0x800 == wpos);
        assert(w2[(from + 1) % 0x800] == b);
        lemma_lzss_copy_repeats(w2, (wpos + 1) % 0x800, out.push(b), from + 1, (remaining - 1) as nat, b);
        assert(out.push(b) + Seq::new((remaining - 1) as nat, |i: int| b) =~= out + Seq::new(remaining, |i: int| b));
    }
}

/// The PS2A LZSS decoder as a state machine: control bytes give eight
/// flags each, least significant first; a set flag is a literal byte, a clear
/// flag a two-byte window reference of 2 to 33 bytes. Decoding stops when
/// `expected` bytes were produced; any truncation or overrun is an error.
pub open spec fn spec_lzss_run(
    src: Seq<u8>, expected: nat, window: Seq<u8>, wpos: int, ipos: int, out: Seq<u8>, ctrl: int, bits: int,
) -> Result<Seq<u8>, CmvsError>
    decreases expected - out.len(),
{
    if out.len() >= expected || window.len() != 0x800 || !(0 <= wpos < 0x800) || ipos < 0 {
        Ok(out)
    } else if bits <= 0 && ipos >= src.len() {
        Err(CmvsError::Ps2aLzss)
    } else {
        let c = if bits <= 0 { src[ipos] as int } else { ctrl };
        let b = if bits <= 0 { 8 } else { bits };
        let ip = if bits <= 0 { ipos + 1 } else { ipos };
        if c % 2 == 1 {
            if ip >= src.len() {
                Err(CmvsError::Ps2aLzss)
            } else {
                let byte = src[ip];
                spec_lzss_run(src, expected, window.update(wpos, byte), (wpos + 1) % 0x800, ip + 1,
                    out.push(byte), c / 2, b - 1)
            }
        } else if ip + 1 >= src.len() {
            Err(CmvsError::Ps2aLzss)
        } else {
            let lo = src[ip] as int;
            let hi = src[ip + 1] as int;
            let from = lo + (hi / 32) * 256;
            let count = hi % 32 + 2;
            if out.len() + count > expected {
                Err(CmvsError::Ps2aLzss)
            } else {
                let copied = spec_lzss_copy(window, wpos, out, from, count as nat);
                proof {
                    lemma_lzss_copy(window, wpos, out, from, count as nat);
                }
                spec_lzss_run(src, expected, copied.0, copied.1, ip + 2, copied.2, c / 2, b - 1)
            }
        }
    }
}

/// Decodes the whole PS2A LZSS stream into exactly `expected` bytes.
pub open spec fn spec_lzss_decode(src: Seq<u8>, expected: nat) -> Result<Seq<u8>, CmvsError> {
    spec_lzss_run(src, expected, Seq::new(0x800, |i: int| 0u8), 0x7df, 0, Seq::empty(), 0, 0)
}

/// A window reference `(lo, hi)` copies `(hi & 0x1f) + 2` bytes from window
/// place `lo | (hi & 0xe0) << 3`: a literal `b` at the first write place
/// followed by a reference to that place decodes to `b` repeated
/// `(hi & 0x1f) + 3` times, for every byte and every length.
pub proof fn lemma_ps2a_lzss_reference_repeats(b: u8, k: u8)
    requires
        k < 32,
    ensures
        spec_lzss_decode(seq![1u8, b, 0xdfu8, (0xe0 + k) as u8], (k + 3) as nat)
            == Ok::<Seq<u8>, CmvsError>(Seq::new((k + 3) as nat, |i: int| b)),
{
    let src = seq![1u8, b, 0xdfu8, (0xe0 + k) as u8];
    let w0 = Seq::new(0x800, |i: int| 0u8);
    let w1 = w0.update(0x7df, b);
    let hi = (0xe0 + k) as u8;
    assert(src[3] == hi);
    assert(hi as int / 32 == 7 && hi as int % 32 == k);
    let count = (k + 2) as nat;
    lemma_lzss_copy(w1, 0x7e0, seq![b], 0x7df, count);
    lemma_lzss_copy_repeats(w1, 0x7e0, seq![b], 0x7df, count, b);
    let copied = spec_lzss_copy(w1, 0x7e0, seq![b], 0x7df, count);
    assert(copied.2 =~= Seq::new((k + 3) as nat, |i: int| b));
    assert(spec_lzss_run(src, (k + 3) as nat, copied.0, copied.1, 4, copied.2, 0, 6) == Ok::<Seq<u8>, CmvsError>(copied.2));
    assert(spec_lzss_run(src, (k + 3) as nat, w1, 0x7e0, 2, seq![b], 0, 7) == Ok::<Seq<u8>, CmvsError>(copied.2));
    assert(Seq::<u8>::empty().push(b) =~= seq![b]);
}

/// Decodes a PS2A LZSS stream into exactly `expected` bytes.
pub fn lzss_decode(source: &[u8], expected: usize) -> (r: Result<Vec<u8>, CmvsError>)
    ensures
        match r {
            Ok(v) => spec_lzss_decode(source@, expected as nat) == Ok::<Seq<u8>, CmvsError>(v@),
            Err(e) => spec_lzss_decode(source@, expected as nat) == Err::<Seq<u8>, CmvsError>(e),
        },
{
    let mut window: Vec<u8> = vec![0u8; LZSS_WINDOW_BYTES];
    let mut window_pos: usize = 0x7df;
    let mut input_pos: usize = 0;
    let mut output: Vec<u8> = Vec::new();
    let mut ctrl: u8 = 0;
    let mut bits: u8 = 0;
    assert(window@ =~= Seq::new(0x800, |i: int| 0u8));
    while output.len() < expected
        invariant
            window@.len() == 0x800,
            window_pos < 0x800,
            input_pos <= source@.len(),
            output@.len() <= expected,
            bits <= 8,
            spec_lzss_run(source@, expected as nat, window@, window_pos as int, input_pos as int,
                output@, ctrl as int, bits as int) == spec_lzss_decode(source@, expected as nat),
        decreases expected - output@.len(),
    {
        if bits == 0 {
            if input_pos >= source.len() {
                return Err(CmvsError::Ps2aLzss);
            }
            ctrl = source[input_pos];
            input_pos += 1;
            bits = 8;
        }
        let flag = ctrl % 2;
        ctrl = ctrl / 2;
        bits = bits - 1;
        if flag == 1 {
            if input_pos >= source.len() {
                return Err(CmvsError::Ps2aLzss);
            }
            let byte = source[input_pos];
            input_pos += 1;
            output.push(byte);
            window.set(window_pos, byte);
            window_pos = (window_pos + 1) % LZSS_WINDOW_BYTES;
        } else {
            if source.len() - input_pos < 2 {
                return Err(CmvsError::Ps2aLzss);
            }
            let lo = source[input_pos] as usize;
            let hi = source[input_pos + 1] as usize;
            input_pos += 2;
            let from = lo + (hi / 32) * 256;
            let count = hi % 32 + 2;
            if count > expected - output.len() {
                return Err(CmvsError::Ps2aLzss);
            }
            let ghost w0 = window@;
            let ghost p0 = window_pos as int;
            let ghost o0 = output@;
            let mut i: usize = 0;
            while i < count
                invariant
                    i <= count,
                    count <= 33,
                    from < 0x800,
                    window@.len() == 0x800,
                    window_pos < 0x800,
                    output@.len() == o0.len() + i,
                    spec_lzss_copy(window@, window_pos as int, output@, from + i, (count - i) as nat)
                        == spec_lzss_copy(w0, p0, o0, from as int, count as nat),
                decreases count - i,
            {
                let b = window[(from + i) % LZSS_WINDOW_BYTES];
                output.push(b);
                window.set(window_pos, b);
                window_pos = (window_pos + 1) % LZSS_WINDOW_BYTES;
                i += 1;
            }
            proof {
                lemma_lzss_copy(w0, p0, o0, from as int, count as nat);
            }
        }
    }
    Ok(output)
}

} // verus!

verus! {

/// The deciphered compressed payload bytes.
pub open spec fn spec_ps2a_deciphered(enc: Seq<u8>, key: u32) -> Seq<u8> {
    Seq::new(enc.len(), |i: int| spec_ps2a_decipher(enc[i], key))
}

/// The decoded script buffer: the unchanged header followed by the
/// decompressed payload.
pub open spec fn spec_decode_ps2a(s: Seq<u8>, header: Ps2aHeader) -> Result<Seq<u8>, CmvsError> {
    let enc = s.subrange(0x30, 0x30 + header.compressed_size as int);
    match spec_lzss_decode(spec_ps2a_deciphered(enc, header.program_key), header.uncompressed_size as nat) {
        Ok(out) => Ok(s.subrange(0, 0x30) + out),
        Err(e) => Err(e),
    }
}

/// Deciphers and decompresses the payload of a script whose header was
/// accepted, returning the header bytes followed by the decoded payload.
pub fn decode_payload(source: &[u8], header: Ps2aHeader) -> (r: Result<Vec<u8>, CmvsError>)
    requires
        spec_parse_ps2a_header(source@) == Ok::<Ps2aHeader, CmvsError>(header),
    ensures
        match r {
            Ok(v) => spec_decode_ps2a(source@, header) == Ok::<Seq<u8>, CmvsError>(v@),
            Err(e) => spec_decode_ps2a(source@, header) == Err::<Seq<u8>, CmvsError>(e),
        },
{
    proof {
        assert(source@.len() >= 0x30 && header.compressed_size <= source@.len() - 0x30);
    }
    let len = source.len();
    let end = PS2A_HEADER_BYTES + header.compressed_size as usize;
    let key = header.program_key;
    let xor = ((key / 16777216 + key / 8) % 256) as u8;
    let shifts = (key / 1048576) % 5 + 1;
    let mut encrypted: Vec<u8> = Vec::new();
    let mut i = PS2A_HEADER_BYTES;
    while i < end
        invariant
            PS2A_HEADER_BYTES <= i <= end,
            end <= source@.len(),
            xor == spec_ps2a_xor(key),
            shifts == spec_ps2a_shift(key),
            encrypted@ =~= spec_ps2a_deciphered(source@.subrange(0x30, i as int), key),
        decreases end - i,
    {
        let value = rotr8(source[i].wrapping_sub(0x7c) ^ xor, shifts);
        encrypted.push(value);
        i += 1;
        assert(encrypted@ =~= spec_ps2a_deciphered(source@.subrange(0x30, i as int), key));
    }
    let output = lzss_decode(encrypted.as_slice(), header.uncompressed_size as usize)?;
    let mut decoded: Vec<u8> = Vec::new();
    let mut j: usize = 0;
    while j < PS2A_HEADER_BYTES
        invariant
            j <= PS2A_HEADER_BYTES,
            source@.len() >= 0x30,
            decoded@ =~= source@.subrange(0, j as int),
        decreases PS2A_HEADER_BYTES - j,
    {
        decoded.push(source[j]);
        j += 1;
    }
    let mut k: usize = 0;
    while k < output.len()
        invariant
            k <= output@.len(),
            source@.len() >= 0x30,
            decoded@ =~= source@.subrange(0, 0x30) + output@.subrange(0, k as int),
        decreases output@.len() - k,
    {
        decoded.push(output[k]);
        k += 1;
    }
    assert(output@.subrange(0, output@.len() as int) =~= output@);
    Ok(decoded)
}

/// Decodes a script's payload for the archive-key reader.
pub fn decode_ps2a(source: &[u8], header: Ps2aHeader) -> (r: Result<Vec<u8>, CmvsError>)
    requires
        spec_parse_ps2a_header(source@) == Ok::<Ps2aHeader, CmvsError>(header),
    ensures
        match r {
            Ok(v) => spec_decode_ps2a(source@, header) == Ok::<Seq<u8>, CmvsError>(v@),
            Err(e) => spec_decode_ps2a(source@, header) == Err::<Seq<u8>, CmvsError>(e),
        },
{
    decode_payload(source, header)
}

/// The string pool as a sequence of zero-terminated, well-formed Shift-JIS
/// entries, each recorded with its absolute offset, length and digest.
pub open spec fn spec_parse_strings(bytes: Seq<u8>, base: int, cursor: int)
    -> Result<Seq<(u32, u32, Seq<u8>)>, CmvsError>
    decreases bytes.len() - cursor,
{
    if cursor < 0 || cursor >= bytes.len() {
        Ok(Seq::empty())
    } else {
        let end = spec_find_zero(bytes, cursor);
        if end >= bytes.len() {
            Err(CmvsError::Ps2aStrings)
        } else {
            let raw = bytes.subrange(cursor, end);
            if shift_jis_decode_without_bom(raw).1 {
                Err(CmvsError::Ps2aEncoding)
            } else if base + cursor > u32::MAX {
                Err(CmvsError::Ps2aOffset)
            } else {
                proof {
                    lemma_find_zero(bytes, cursor);
                }
                match spec_parse_strings(bytes, base, end + 1) {
                    Ok(rest) => Ok(seq![((base + cursor) as u32, raw.len() as u32, sha256_digest(raw))] + rest),
                    Err(e) => Err(e),
                }
            }
        }
    }
}

/// Prefixes `acc` to a successful result.
pub open spec fn spec_prepend<T>(acc: Seq<T>, r: Result<Seq<T>, CmvsError>) -> Result<Seq<T>, CmvsError> {
    match r {
        Ok(rest) => Ok(acc + rest),
        Err(e) => Err(e),
    }
}

/// Splits the string pool into its validated entries.
pub fn parse_strings(bytes: &[u8], base: usize) -> (r: Result<Vec<CmvsScriptString>, CmvsError>)
    ensures
        match r {
            Ok(v) => spec_parse_strings(bytes@, base as int, 0) == Ok::<Seq<(u32, u32, Seq<u8>)>, CmvsError>(spec_strings_view(v@)),
            Err(e) => spec_parse_strings(bytes@, base as int, 0) == Err::<Seq<(u32, u32, Seq<u8>)>, CmvsError>(e),
        },
{
    let mut result: Vec<CmvsScriptString> = Vec::new();
    let mut cursor: usize = 0;
    while cursor < bytes.len()
        invariant
            cursor <= bytes@.len(),
            spec_parse_strings(bytes@, base as int, 0)
                == spec_prepend(spec_strings_view(result@), spec_parse_strings(bytes@, base as int, cursor as int)),
        decreases bytes@.len() - cursor,
    {
        proof {
            lemma_find_zero(bytes@, cursor as int);
        }
        let end = find_zero(bytes, cursor);
        if end >= bytes.len() {
            return Err(CmvsError::Ps2aStrings);
        }
        let raw = &bytes[cursor..end];
        let (_, malformed) = shift_jis_decode_text_without_bom(raw);
        if malformed {
            return Err(CmvsError::Ps2aEncoding);
        }
        let text_hash = sha256(raw);
        if base > u32::MAX as usize || cursor > u32::MAX as usize - base {
            return Err(CmvsError::Ps2aOffset);
        }
        let entry = CmvsScriptString {
            offset: (base + cursor) as u32,
            byte_length: (end - cursor) as u32,
            text_hash,
        };
        let ghost old_view = spec_strings_view(result@);
        let ghost rest = spec_parse_strings(bytes@, base as int, end + 1);
        result.push(entry);
        proof {
            assert(spec_strings_view(result@) =~= old_view.push(entry@));
            assert(raw@ =~= bytes@.subrange(cursor as int, end as int));
            match rest {
                Ok(rs) => {
                    assert(old_view + (seq![entry@] + rs) =~= old_view.push(entry@) + rs);
                }
                Err(_) => {}
            }
        }
        cursor = end + 1;
    }
    proof {
        assert(spec_strings_view(result@) + Seq::<(u32, u32, Seq<u8>)>::empty() =~= spec_strings_view(result@));
    }
    Ok(result)
}

/// The name-index table: `count` little-endian words after the header.
pub open spec fn spec_parse_name_index(decoded: Seq<u8>, count: u32, bytecode_start: int) -> Result<Seq<u32>, CmvsError> {
    if bytecode_start > decoded.len() {
        Err(CmvsError::Ps2aIndex)
    } else {
        Ok(Seq::new(count as nat, |i: int| spec_le_u32(decoded, 0x30 + 4 * i)))
    }
}

/// Reads the name-index table that precedes the program section.
pub fn parse_name_index(decoded: &[u8], count: u32, bytecode_start: usize) -> (r: Result<Vec<u32>, CmvsError>)
    requires
        bytecode_start == 0x30 + 4 * count,
    ensures
        match r {
            Ok(v) => spec_parse_name_index(decoded@, count, bytecode_start as int) == Ok::<Seq<u32>, CmvsError>(v@),
            Err(e) => spec_parse_name_index(decoded@, count, bytecode_start as int) == Err::<Seq<u32>, CmvsError>(e),
        },
{
    if bytecode_start > decoded.len() {
        return Err(CmvsError::Ps2aIndex);
    }
    let mut entries: Vec<u32> = Vec::new();
    let mut index: usize = 0;
    while index < count as usize
        invariant
            index <= count,
            bytecode_start == 0x30 + 4 * count,
            bytecode_start <= decoded@.len(),
            entries@ =~= Seq::new(index as nat, |i: int| spec_le_u32(decoded@, 0x30 + 4 * i)),
        decreases count - index,
    {
        let value = le_u32_or(decoded, PS2A_HEADER_BYTES + index * 4, CmvsError::Ps2aControl)?;
        entries.push(value);
        index += 1;
    }
    Ok(entries)
}

} // verus!
