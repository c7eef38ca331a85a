use vstd::prelude::*;
use crate::error::CmvsError;
use crate::bytes::{spec_le_u32, read_le_u32};
use super::bitstream::{JBitStream, bit_at};

verus! {

/// Index `i` may be picked: it is not the excluded one and its frequency is
/// below the two values that mark used or absent entries.
pub open spec fn is_candidate(f: Seq<u32>, excluded: Option<usize>, i: int) -> bool {
    &&& excluded != Some(i as usize)
    &&& f[i] < 0xffff_fffe
}

/// Some index below `depth` may be picked.
pub open spec fn has_candidate(f: Seq<u32>, depth: int, excluded: Option<usize>) -> bool {
    exists|i: int| 0 <= i < depth && is_candidate(f, excluded, i)
}

/// `i` is the first index below `depth` of least frequency among the candidates.
pub open spec fn is_first_minimum(f: Seq<u32>, depth: int, excluded: Option<usize>, i: int) -> bool {
    &&& 0 <= i < depth
    &&& is_candidate(f, excluded, i)
    &&& forall|j: int| 0 <= j < depth && is_candidate(f, excluded, j) ==> f[i] <= #[trigger] f[j]
    &&& forall|j: int| 0 <= j < i && is_candidate(f, excluded, j) ==> f[i] < #[trigger] f[j]
}

/// The index `select_minimum` picks, if any.
pub open spec fn spec_select_minimum(f: Seq<u32>, depth: int, excluded: Option<usize>) -> Option<int> {
    if has_candidate(f, depth, excluded) {
        Some(choose|i: int| is_first_minimum(f, depth, excluded, i))
    } else {
        None
    }
}

/// At most one index is the first minimum.
pub proof fn lemma_first_minimum_unique(f: Seq<u32>, depth: int, excluded: Option<usize>, i: int, k: int)
    requires
        is_first_minimum(f, depth, excluded, i),
        is_first_minimum(f, depth, excluded, k),
    ensures
        i == k,
{
    if i < k {
        assert(f[k] < f[i]);
    } else if k < i {
        assert(f[i] < f[k]);
    }
}

/// Picks the first index below `depth`, other than `excluded`, of least
/// frequency; entries at `u32::MAX - 1` or above never qualify.
pub fn select_minimum(frequency: &[u32; 31], depth: usize, excluded: Option<usize>) -> (r: Result<usize, CmvsError>)
    requires
        depth <= 31,
    ensures
        match r {
            Ok(i) => is_first_minimum(frequency@, depth as int, excluded, i as int)
                && spec_select_minimum(frequency@, depth as int, excluded) == Some(i as int),
            Err(e) => e == CmvsError::JbpTree && !has_candidate(frequency@, depth as int, excluded)
                && spec_select_minimum(frequency@, depth as int, excluded) is None,
        },
{
    let mut result: Option<usize> = None;
    let mut minimum: u32 = 0xffff_fffe;
    let mut index: usize = 0;
    while index < depth
        invariant
            depth <= 31,
            index <= depth,
            match result {
                Some(i) => is_first_minimum(frequency@, index as int, excluded, i as int) && minimum == frequency@[i as int],
                None => !has_candidate(frequency@, index as int, excluded) && minimum == 0xffff_fffe,
            },
        decreases depth - index,
    {
        let value = frequency[index];
        let picked = match excluded {
            Some(e) => e != index,
            None => true,
        };
        if picked && value < minimum {
            minimum = value;
            result = Some(index);
        }
        index = index + 1;
    }
    match result {
        Some(i) => {
            proof {
                let c = choose|k: int| is_first_minimum(frequency@, depth as int, excluded, k);
                lemma_first_minimum_unique(frequency@, depth as int, excluded, i as int, c);
            }
            Ok(i)
        },
        None => Err(CmvsError::JbpTree),
    }
}

/// The tree nodes built from `depth` on, from the running frequency table
/// `f` and the nodes `left`/`right` built so far; `None` where a pick fails
/// or a merged frequency overflows.
pub open spec fn spec_build_nodes(f: Seq<u32>, left: Seq<usize>, right: Seq<usize>, depth: int)
    -> Option<(Seq<usize>, Seq<usize>)>
    decreases 31 - depth,
{
    if depth >= 31 || depth < 0 {
        Some((left, right))
    } else {
        match spec_select_minimum(f, depth, None) {
            None => None,
            Some(a) => match spec_select_minimum(f, depth, Some(a as usize)) {
                None => None,
                Some(b) => if f[a] + f[b] > 0xffff_ffff {
                    None
                } else {
                    spec_build_nodes(
                        f.update(depth, (f[a] + f[b]) as u32).update(a, 0xffff_ffffu32).update(b, 0xffff_ffffu32),
                        left.update(depth, a as usize),
                        right.update(depth, b as usize),
                        depth + 1,
                    )
                },
            },
        }
    }
}

/// The nodes of a tree built from sixteen leaves and the given frequencies.
pub open spec fn spec_tree_nodes(frequency: Seq<u32>) -> Option<(Seq<usize>, Seq<usize>)> {
    spec_build_nodes(frequency, Seq::new(31, |i: int| 0usize), Seq::new(31, |i: int| 0usize), 16)
}

/// Follows bits from `node` down to a leaf; yields the leaf and the bit
/// cursor after the walk, or `None` when the bits run out.
pub open spec fn huffman_walk(left: Seq<usize>, right: Seq<usize>, node: int, s: Seq<u8>, c: int) -> Option<(int, int)>
    decreases node,
{
    if node < 16 {
        Some((node, c))
    } else if c + 1 > s.len() * 8 || node >= left.len() || node >= right.len() {
        None
    } else {
        let child = if bit_at(s, c) == 0 { left[node] as int } else { right[node] as int };
        if child < node {
            huffman_walk(left, right, child, s, c + 1)
        } else {
            None
        }
    }
}

/// A Huffman tree of sixteen leaves and fifteen inner nodes, inner node `d`
/// having children `left[d]` and `right[d]`.
pub struct HuffmanTree {
    base: [u8; 16],
    left: [usize; 31],
    right: [usize; 31],
    root: usize,
}

impl HuffmanTree {
    /// The leaf values.
    pub closed spec fn leaves(&self) -> Seq<u8> {
        self.base@
    }

    /// The left children.
    pub closed spec fn left_nodes(&self) -> Seq<usize> {
        self.left@
    }

    /// The right children.
    pub closed spec fn right_nodes(&self) -> Seq<usize> {
        self.right@
    }

    /// Every inner node points below itself; the root is the last node.
    pub closed spec fn wf(&self) -> bool {
        &&& self.root == 30
        &&& forall|d: int| 16 <= d < 31 ==> #[trigger] self.left@[d] < d && self.right@[d] < d
    }

    /// Builds the tree by repeatedly merging the two least frequent nodes.
    pub fn new(base: [u8; 16], initial: [u32; 31]) -> (r: Result<Self, CmvsError>)
        ensures
            match spec_tree_nodes(initial@) {
                Some((l, rt)) => r matches Ok(t) && t.wf() && t.leaves() == base@ && t.left_nodes() == l
                    && t.right_nodes() == rt,
                None => r == Err::<Self, CmvsError>(CmvsError::JbpTree),
            },
    {
        let mut frequency = initial;
        let mut left: [usize; 31] = [0; 31];
        let mut right: [usize; 31] = [0; 31];
        let mut depth: usize = 16;
        assert(left@ == Seq::new(31, |i: int| 0usize));
        assert(right@ == Seq::new(31, |i: int| 0usize));
        while depth < 31
            invariant
                16 <= depth <= 31,
                spec_build_nodes(frequency@, left@, right@, depth as int) == spec_tree_nodes(initial@),
                forall|d: int| 16 <= d < depth ==> #[trigger] left@[d] < d && right@[d] < d,
            decreases 31 - depth,
        {
            let ghost old_left = left@;
            let ghost old_right = right@;
            let a = select_minimum(&frequency, depth, None)?;
            let b = select_minimum(&frequency, depth, Some(a))?;
            let fa = frequency[a];
            let fb = frequency[b];
            if fa > 0xffff_ffff - fb {
                return Err(CmvsError::JbpTree);
            }
            frequency[depth] = fa + fb;
            frequency[a] = 0xffff_ffff;
            frequency[b] = 0xffff_ffff;
            left[depth] = a;
            right[depth] = b;
            proof {
                assert(left@[depth as int] == a && right@[depth as int] == b);
                assert forall|d: int| 16 <= d < depth + 1 implies #[trigger] left@[d] < d && right@[d] < d by {
                    if d < depth {
                        assert(left@[d] == old_left[d]);
                    }
                }
            }
            depth = depth + 1;
        }
        Ok(HuffmanTree { base, left, right, root: depth - 1 })
    }

    /// Walks from the root to a leaf and yields the leaf value.
    pub fn read(&self, bits: &mut JBitStream) -> (r: Result<u8, CmvsError>)
        requires
            self.wf(),
            old(bits).wf(),
        ensures
            final(bits).data() == old(bits).data(),
            final(bits).error_code() == old(bits).error_code(),
            match huffman_walk(self.left_nodes(), self.right_nodes(), 30, old(bits).data(), old(bits).cursor()) {
                Some((leaf, c)) => r == Ok::<u8, CmvsError>(self.leaves()[leaf]) && final(bits).wf()
                    && final(bits).cursor() == c,
                None => r == Err::<u8, CmvsError>(old(bits).error_code()),
            },
    {
        let mut node = self.root;
        let ghost target = huffman_walk(self.left@, self.right@, 30, old(bits).data(), old(bits).cursor());
        while node >= 16
            invariant
                self.wf(),
                node < 31,
                bits.wf(),
                bits.data() == old(bits).data(),
                bits.error_code() == old(bits).error_code(),
                huffman_walk(self.left@, self.right@, node as int, bits.data(), bits.cursor()) == target,
                target == huffman_walk(self.left@, self.right@, 30, old(bits).data(), old(bits).cursor()),
            decreases node,
        {
            let branch = bits.next_bit()?;
            assert(self.left@[node as int] < node && self.right@[node as int] < node);
            if branch == 0 {
                node = self.left[node];
            } else {
                node = self.right[node];
            }
        }
        Ok(self.base[node])
    }
}

/// The sixteen little-endian frequencies at `offset`, then fifteen zeros.
pub open spec fn spec_frequencies(s: Seq<u8>, offset: int) -> Seq<u32> {
    Seq::new(31, |i: int| if i < 16 { spec_le_u32(s, offset + 4 * i) } else { 0u32 })
}

/// Reads a frequency table of sixteen little-endian `u32` values.
pub fn read_frequencies(source: &[u8], offset: usize) -> (r: Result<[u32; 31], CmvsError>)
    ensures
        match r {
            Ok(f) => offset + 64 <= source@.len() && f@ == spec_frequencies(source@, offset as int),
            Err(e) => e == CmvsError::JbpTree && offset + 64 > source@.len(),
        },
{
    if offset > source.len() || source.len() - offset < 64 {
        return Err(CmvsError::JbpTree);
    }
    let mut result: [u32; 31] = [0; 31];
    let mut index: usize = 0;
    while index < 16
        invariant
            index <= 16,
            offset + 64 <= source.len(),
            forall|i: int| 0 <= i < index ==> result@[i] == #[trigger] spec_le_u32(source@, offset + 4 * i),
            forall|i: int| 16 <= i < 31 ==> result@[i] == 0,
        decreases 16 - index,
    {
        let value = match read_le_u32(source, offset + index * 4) {
            Some(v) => v,
            None => return Err(CmvsError::JbpTree),
        };
        result[index] = value;
        index = index + 1;
    }
    assert(result@ == spec_frequencies(source@, offset as int));
    Ok(result)
}

} // verus!
