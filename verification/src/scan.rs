//! Byte scanning shared by the string-pool and name readers.
use vstd::prelude::*;

verus! {

/// The first index at or after `from` that holds a zero byte, or the length
/// of `s` when there is none.
pub open spec fn spec_find_zero(s: Seq<u8>, from: int) -> int
    decreases s.len() - from,
{
    if from >= s.len() {
        s.len() as int
    } else if s[from] == 0 {
        from
    } else {
        spec_find_zero(s, from + 1)
    }
}

pub proof fn lemma_find_zero(s: Seq<u8>, from: int)
    requires
        0 <= from <= s.len(),
    ensures
        from <= spec_find_zero(s, from) <= s.len(),
        spec_find_zero(s, from) < s.len() ==> s[spec_find_zero(s, from)] == 0,
        forall|i: int| from <= i < spec_find_zero(s, from) ==> s[i] != 0,
    decreases s.len() - from,
{
    if from < s.len() && s[from] != 0 {
        lemma_find_zero(s, from + 1);
    }
}

/// Finds the first zero byte at or after `from`.
pub fn find_zero(s: &[u8], from: usize) -> (r: usize)
    requires
        from <= s@.len(),
    ensures
        r == spec_find_zero(s@, from as int),
{
    let mut i = from;
    while i < s.len()
        invariant
            from <= i <= s@.len(),
            spec_find_zero(s@, i as int) == spec_find_zero(s@, from as int),
        decreases s@.len() - i,
    {
        if s[i] == 0 {
            return i;
        }
        i += 1;
    }
    i
}

} // verus!
