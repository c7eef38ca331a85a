//! The string pool of a decoded script: pool-relative lookups, the length
//! table of the validated entries and the census of string-push patterns.
use vstd::prelude::*;
use crate::error::CmvsError;
use crate::bytes::{read_le_u32, spec_le_u32};
use crate::text::{shift_jis_decode_without_bom, shift_jis_decode_text_without_bom};
use super::{CmvsScript, CmvsScriptString, Ps2aScriptView, CmvsPs2aStringReferenceCensus, spec_strings_view};
use std::collections::BTreeMap;

verus! {

/// Offset of the string pool in the decoded buffer: the header, the name
/// index, the program section and the data segment all precede it.
pub open spec fn spec_pool_start(v: Ps2aScriptView) -> int {
    v.bytecode_offset + v.bytecode.len() + v.data_segment.len()
}

/// The pool-relative length table of the first `n` entries: an entry whose
/// offset lies at or after the pool start maps its relative offset to its
/// byte length; a later entry with the same relative offset replaces an
/// earlier one.
pub open spec fn spec_length_table(strings: Seq<(u32, u32, Seq<u8>)>, pool: int, n: nat) -> Map<u32, u32>
    decreases n,
{
    if n == 0 {
        Map::empty()
    } else {
        let m = spec_length_table(strings, pool, (n - 1) as nat);
        let rel = strings[n - 1].0 - pool;
        if 0 <= rel <= u32::MAX {
            m.insert(rel as u32, strings[n - 1].1)
        } else {
            m
        }
    }
}

/// Index of the first entry at or after `from` whose offset is `target`.
pub open spec fn spec_first_string(strings: Seq<(u32, u32, Seq<u8>)>, target: int, from: int) -> Option<int>
    decreases strings.len() - from,
{
    if from < 0 || from >= strings.len() {
        None
    } else if strings[from].0 == target {
        Some(from)
    } else {
        spec_first_string(strings, target, from + 1)
    }
}

proof fn lemma_first_string(strings: Seq<(u32, u32, Seq<u8>)>, target: int, from: int)
    ensures
        match spec_first_string(strings, target, from) {
            Some(j) => from <= j < strings.len() && strings[j].0 == target,
            None => true,
        },
    decreases strings.len() - from,
{
    if 0 <= from < strings.len() && strings[from].0 != target {
        lemma_first_string(strings, target, from + 1);
    }
}

/// The text of the validated entry that starts `relative` bytes into the
/// pool, decoded as Shift-JIS.
pub open spec fn spec_resolve_relative(v: Ps2aScriptView, relative: u32) -> Result<Seq<char>, CmvsError> {
    let pool = spec_pool_start(v);
    if pool > usize::MAX {
        Err(CmvsError::Ps2aOffset)
    } else if pool + relative > usize::MAX {
        Err(CmvsError::Ps2aStringOffset)
    } else {
        match spec_first_string(v.strings, pool + relative, 0) {
            None => Err(CmvsError::Ps2aStringOffset),
            Some(j) => {
                let end = relative + v.strings[j].1;
                if end > usize::MAX {
                    Err(CmvsError::Ps2aStringSize)
                } else if end > v.string_pool.len() {
                    Err(CmvsError::Ps2aStringRange)
                } else {
                    let decoded = shift_jis_decode_without_bom(v.string_pool.subrange(relative as int, end));
                    if decoded.1 { Err(CmvsError::Ps2aEncoding) } else { Ok(decoded.0) }
                }
            },
        }
    }
}

/// The tag-zero form: a reference with either of its two top bits set names
/// another tag domain and is rejected.
pub open spec fn spec_resolve_tag_zero(v: Ps2aScriptView, tagged: u32) -> Result<Seq<char>, CmvsError> {
    if tagged >= 0x4000_0000 {
        Err(CmvsError::Ps2aStringTag)
    } else {
        spec_resolve_relative(v, tagged)
    }
}

/// The four bytes `01 02 20 01` of a string push at `p`.
pub open spec fn is_string_push_at(bc: Seq<u8>, p: int) -> bool {
    bc[p] == 0x01 && bc[p + 1] == 0x02 && bc[p + 2] == 0x20 && bc[p + 3] == 0x01
}

/// Some validated entry starts at `target`.
pub open spec fn names_string_start(strings: Seq<(u32, u32, Seq<u8>)>, target: int) -> bool {
    exists|j: int| 0 <= j < strings.len() && #[trigger] strings[j].0 == target
}

/// Candidate, valid and invalid string-push counts over the positions below
/// `n`. A candidate is valid when the pool start plus its operand is the
/// start of a validated entry.
pub open spec fn spec_census_upto(bc: Seq<u8>, strings: Seq<(u32, u32, Seq<u8>)>, pool: int, n: nat) -> (nat, nat, nat)
    decreases n,
{
    if n == 0 {
        (0, 0, 0)
    } else {
        let prev = spec_census_upto(bc, strings, pool, (n - 1) as nat);
        let p = n - 1;
        if is_string_push_at(bc, p) {
            let target = pool + spec_le_u32(bc, p + 4);
            if target <= usize::MAX && names_string_start(strings, target) {
                (prev.0 + 1, prev.1 + 1, prev.2)
            } else {
                (prev.0 + 1, prev.1, prev.2 + 1)
            }
        } else {
            prev
        }
    }
}

/// Positions at which a whole eight-byte pattern with its operand fits.
pub open spec fn census_positions(bc: Seq<u8>) -> nat {
    if bc.len() >= 7 { (bc.len() - 7) as nat } else { 0 }
}

/// The census of a script.
pub open spec fn spec_census(v: Ps2aScriptView) -> Result<(nat, nat, nat), CmvsError> {
    let pool = spec_pool_start(v);
    if pool > usize::MAX {
        Err(CmvsError::Ps2aOffset)
    } else {
        let c = spec_census_upto(v.bytecode, v.strings, pool, census_positions(v.bytecode));
        if c.0 > u32::MAX { Err(CmvsError::Ps2aCount) } else { Ok(c) }
    }
}

proof fn lemma_census_sum(bc: Seq<u8>, strings: Seq<(u32, u32, Seq<u8>)>, pool: int, n: nat)
    ensures
        spec_census_upto(bc, strings, pool, n).1 + spec_census_upto(bc, strings, pool, n).2
            == spec_census_upto(bc, strings, pool, n).0,
    decreases n,
{
    if n > 0 {
        lemma_census_sum(bc, strings, pool, (n - 1) as nat);
    }
}

proof fn lemma_census_monotone(bc: Seq<u8>, strings: Seq<(u32, u32, Seq<u8>)>, pool: int, m: nat, n: nat)
    requires
        m <= n,
    ensures
        spec_census_upto(bc, strings, pool, m).0 <= spec_census_upto(bc, strings, pool, n).0,
    decreases n,
{
    if m < n {
        lemma_census_monotone(bc, strings, pool, m, (n - 1) as nat);
    }
}

/// `u32` keys are totally ordered, as a `BTreeMap` needs.
proof fn lemma_u32_keys_ordered()
    ensures
        vstd::laws_cmp::obeys_cmp::<u32>(),
{
    broadcast use vstd::laws_cmp::group_laws_cmp;
}

impl CmvsScript {
    /// The pool start, or `None` when it does not fit the address space.
    fn string_pool_start(&self) -> (r: Option<usize>)
        ensures
            r == (if spec_pool_start(self@) <= usize::MAX { Some(spec_pool_start(self@) as usize) } else { None::<usize> }),
    {
        let pool: u128 = self.bytecode_offset as u128 + self.bytecode.len() as u128 + self.data_segment.len() as u128;
        if pool > usize::MAX as u128 {
            None
        } else {
            Some(pool as usize)
        }
    }

    /// Maps the pool-relative offset of each validated entry to its byte
    /// length without the terminator; the text itself is not copied.
    pub fn private_string_length_table(&self) -> (r: BTreeMap<u32, u32>)
        ensures
            r@ == spec_length_table(self@.strings, spec_pool_start(self@), self.strings@.len()),
    {
        proof { lemma_u32_keys_ordered(); }
        let pool: u128 = self.bytecode_offset as u128 + self.bytecode.len() as u128 + self.data_segment.len() as u128;
        let mut table: BTreeMap<u32, u32> = BTreeMap::new();
        let mut i: usize = 0;
        while i < self.strings.len()
            invariant
                i <= self.strings@.len(),
                pool == spec_pool_start(self@),
                table@ == spec_length_table(self@.strings, pool as int, i as nat),
            decreases self.strings@.len() - i,
        {
            let entry = &self.strings[i];
            let offset = entry.offset as u128;
            if offset >= pool && offset - pool <= u32::MAX as u128 {
                table.insert((offset - pool) as u32, entry.byte_length);
            }
            i = i + 1;
        }
        table
    }

    /// Index of the first entry whose offset is `target`.
    fn find_string(&self, target: usize) -> (r: Option<usize>)
        ensures
            match r {
                Some(j) => spec_first_string(self@.strings, target as int, 0) == Some(j as int),
                None => spec_first_string(self@.strings, target as int, 0) == None::<int>,
            },
    {
        let mut j: usize = 0;
        while j < self.strings.len()
            invariant
                j <= self.strings@.len(),
                spec_first_string(self@.strings, target as int, 0) == spec_first_string(self@.strings, target as int, j as int),
            decreases self.strings@.len() - j,
        {
            if self.strings[j].offset as usize == target {
                return Some(j);
            }
            j = j + 1;
        }
        None
    }

    /// Resolves a pool-relative offset to the text of the validated entry
    /// that starts there; an offset into the middle of an entry, or one that
    /// names no entry, is rejected.
    pub fn resolve_private_string_relative(&self, relative_offset: u32) -> (r: Result<String, CmvsError>)
        ensures
            match r {
                Ok(t) => spec_resolve_relative(self@, relative_offset) == Ok::<Seq<char>, CmvsError>(t@),
                Err(e) => spec_resolve_relative(self@, relative_offset) == Err::<Seq<char>, CmvsError>(e),
            },
    {
        let pool = match self.string_pool_start() {
            Some(p) => p,
            None => return Err(CmvsError::Ps2aOffset),
        };
        let relative = relative_offset as usize;
        if pool > usize::MAX - relative {
            return Err(CmvsError::Ps2aStringOffset);
        }
        let absolute = pool + relative;
        let j = match self.find_string(absolute) {
            Some(j) => j,
            None => return Err(CmvsError::Ps2aStringOffset),
        };
        proof { lemma_first_string(self@.strings, absolute as int, 0); }
        let length = self.strings[j].byte_length as usize;
        if relative > usize::MAX - length {
            return Err(CmvsError::Ps2aStringSize);
        }
        let end = relative + length;
        if end > self.string_pool.len() {
            return Err(CmvsError::Ps2aStringRange);
        }
        let raw = vstd::slice::slice_subrange(self.string_pool.as_slice(), relative, end);
        assert(raw@ == self@.string_pool.subrange(relative as int, end as int));
        let (text, malformed) = shift_jis_decode_text_without_bom(raw);
        if malformed {
            return Err(CmvsError::Ps2aEncoding);
        }
        Ok(text)
    }

    /// Resolves a tag-zero string reference; a reference with either of its
    /// two top bits set names an unrecovered tag domain and is rejected.
    pub fn resolve_private_tag_zero_string(&self, tagged_reference: u32) -> (r: Result<String, CmvsError>)
        ensures
            match r {
                Ok(t) => spec_resolve_tag_zero(self@, tagged_reference) == Ok::<Seq<char>, CmvsError>(t@),
                Err(e) => spec_resolve_tag_zero(self@, tagged_reference) == Err::<Seq<char>, CmvsError>(e),
            },
    {
        assert((tagged_reference & 0xc000_0000u32 != 0) == (tagged_reference >= 0x4000_0000u32)) by (bit_vector);
        if tagged_reference & 0xc000_0000 != 0 {
            return Err(CmvsError::Ps2aStringTag);
        }
        self.resolve_private_string_relative(tagged_reference)
    }
}

/// Some entry starts at `target`.
fn string_starts_at(strings: &Vec<CmvsScriptString>, target: usize) -> (r: bool)
    ensures
        r == names_string_start(spec_strings_view(strings@), target as int),
{
    let mut j: usize = 0;
    while j < strings.len()
        invariant
            j <= strings@.len(),
            forall|k: int| 0 <= k < j ==> #[trigger] strings@[k].offset != target,
        decreases strings@.len() - j,
    {
        if strings[j].offset as usize == target {
            assert(spec_strings_view(strings@)[j as int].0 == target);
            return true;
        }
        j = j + 1;
    }
    assert forall|k: int| 0 <= k < spec_strings_view(strings@).len()
        implies #[trigger] spec_strings_view(strings@)[k].0 != target by {
        assert(strings@[k].offset != target);
    }
    false
}

/// Counts the `01 02 20 01` string-push pattern in the program section and
/// sorts each candidate by whether its operand names the start of a
/// validated pool entry; the strings themselves are never decoded.
pub fn census_ps2a_string_references(script: &CmvsScript) -> (r: Result<CmvsPs2aStringReferenceCensus, CmvsError>)
    ensures
        match r {
            Ok(c) => spec_census(script@) == Ok::<(nat, nat, nat), CmvsError>(
                (c.candidate_count as nat, c.valid_string_start_count as nat, c.invalid_offset_count as nat)),
            Err(e) => spec_census(script@) == Err::<(nat, nat, nat), CmvsError>(e),
        },
{
    let pool = match script.string_pool_start() {
        Some(p) => p,
        None => return Err(CmvsError::Ps2aOffset),
    };
    let bc = script.bytecode.as_slice();
    let n: usize = if bc.len() >= 7 { bc.len() - 7 } else { 0 };
    let ghost strings = script@.strings;
    let mut census = CmvsPs2aStringReferenceCensus { candidate_count: 0, valid_string_start_count: 0, invalid_offset_count: 0 };
    let mut p: usize = 0;
    while p < n
        invariant
            p <= n,
            n == census_positions(bc@),
            bc@ == script@.bytecode,
            strings == script@.strings,
            pool == spec_pool_start(script@),
            (census.candidate_count as nat, census.valid_string_start_count as nat, census.invalid_offset_count as nat)
                == spec_census_upto(bc@, strings, pool as int, p as nat),
        decreases n - p,
    {
        proof {
            lemma_census_sum(bc@, strings, pool as int, (p + 1) as nat);
            lemma_census_monotone(bc@, strings, pool as int, (p + 1) as nat, n as nat);
        }
        if bc[p] == 0x01 && bc[p + 1] == 0x02 && bc[p + 2] == 0x20 && bc[p + 3] == 0x01 {
            if census.candidate_count == u32::MAX {
                return Err(CmvsError::Ps2aCount);
            }
            census.candidate_count = census.candidate_count + 1;
            let relative = match read_le_u32(bc, p + 4) {
                Some(v) => v,
                None => { assert(false); 0 },
            };
            if pool <= usize::MAX - (relative as usize) && string_starts_at(&script.strings, pool + relative as usize) {
                census.valid_string_start_count = census.valid_string_start_count + 1;
            } else {
                census.invalid_offset_count = census.invalid_offset_count + 1;
            }
        }
        p = p + 1;
    }
    Ok(census)
}

} // verus!
