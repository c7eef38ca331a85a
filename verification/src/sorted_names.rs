//! A set of names kept in strict character order, searched by halving, each
//! with a tag its owner chooses.
use vstd::prelude::*;
use crate::vfs::{name_less, name_less_exec, chars_eq, lemma_name_less_irreflexive, lemma_name_less_transitive,
    lemma_name_less_total};

verus! {

/// Distinct names in strict character order, each with a tag.
pub struct SortedNames {
    names: Vec<Vec<char>>,
    tags: Vec<usize>,
}

impl SortedNames {
    /// The names, in order.
    pub closed spec fn view(&self) -> Seq<Seq<char>> {
        self.names@.map_values(|v: Vec<char>| v@)
    }

    /// The tag of each name, in the order of the names.
    pub closed spec fn tags(&self) -> Seq<usize> {
        self.tags@
    }

    /// Every name comes before the ones after it, and each has one tag.
    pub closed spec fn sorted(&self) -> bool {
        &&& self.tags@.len() == self.names@.len()
        &&& forall|i: int, j: int| 0 <= i < j < self.names@.len() ==> name_less(#[trigger] self.names@[i]@, #[trigger] self.names@[j]@)
    }

    /// A sorted set's names ascend strictly.
    pub proof fn lemma_ascending(&self)
        requires
            self.sorted(),
        ensures
            self.tags().len() == self.view().len(),
            forall|i: int, j: int| 0 <= i < j < self.view().len() ==> name_less(#[trigger] self.view()[i], #[trigger] self.view()[j]),
    {
        assert forall|i: int, j: int| 0 <= i < j < self.view().len() implies name_less(#[trigger] self.view()[i], #[trigger] self.view()[j]) by {
            assert(self.view()[i] == self.names@[i]@ && self.view()[j] == self.names@[j]@);
        }
    }

    /// How many names there are.
    pub fn len(&self) -> (r: usize)
        ensures
            r == self.view().len(),
    {
        self.names.len()
    }

    /// The tag of the `i`-th name.
    pub fn tag(&self, i: usize) -> (r: usize)
        requires
            self.sorted(),
            i < self.view().len(),
        ensures
            r == self.tags()[i as int],
    {
        self.tags[i]
    }

    /// No names.
    pub fn new() -> (r: SortedNames)
        ensures
            r.sorted(),
            r.view() == Seq::<Seq<char>>::empty(),
            r.tags() == Seq::<usize>::empty(),
    {
        let r = SortedNames { names: Vec::new(), tags: Vec::new() };
        assert(r.view() =~= Seq::<Seq<char>>::empty());
        assert(r.tags() =~= Seq::<usize>::empty());
        r
    }

    /// How many names come before `k`.
    fn lower_bound(&self, k: &Vec<char>) -> (r: usize)
        requires
            self.sorted(),
        ensures
            r <= self.names@.len(),
            forall|i: int| 0 <= i < r ==> name_less(#[trigger] self.names@[i]@, k@),
            forall|i: int| r <= i < self.names@.len() ==> !name_less(#[trigger] self.names@[i]@, k@),
    {
        let mut lo: usize = 0;
        let mut hi: usize = self.names.len();
        while lo < hi
            invariant
                lo <= hi <= self.names@.len(),
                self.sorted(),
                forall|i: int| 0 <= i < lo ==> name_less(#[trigger] self.names@[i]@, k@),
                forall|i: int| hi <= i < self.names@.len() ==> !name_less(#[trigger] self.names@[i]@, k@),
            decreases hi - lo,
        {
            let mid = lo + (hi - lo) / 2;
            if name_less_exec(&self.names[mid], k) {
                assert forall|i: int| 0 <= i < mid + 1 implies name_less(#[trigger] self.names@[i]@, k@) by {
                    if i < lo {
                    } else if i < mid {
                        lemma_name_less_transitive(self.names@[i]@, self.names@[mid as int]@, k@);
                    }
                }
                lo = mid + 1;
            } else {
                assert forall|i: int| mid <= i < self.names@.len() implies !name_less(#[trigger] self.names@[i]@, k@) by {
                    if mid < i < hi && name_less(self.names@[i]@, k@) {
                        lemma_name_less_transitive(self.names@[mid as int]@, self.names@[i]@, k@);
                    }
                }
                hi = mid;
            }
        }
        lo
    }

    /// Whether `k` is one of the names.
    pub fn contains(&self, k: &Vec<char>) -> (r: bool)
        requires
            self.sorted(),
        ensures
            r == self.view().contains(k@),
    {
        let pos = self.lower_bound(k);
        if pos < self.names.len() && chars_eq(&self.names[pos], k) {
            assert(self.view()[pos as int] == k@);
            true
        } else {
            assert forall|i: int| 0 <= i < self.view().len() implies #[trigger] self.view()[i] != k@ by {
                let n = self.names@[i]@;
                assert(self.view()[i] == n);
                if i < pos {
                    lemma_name_less_irreflexive(k@);
                } else {
                    let p = self.names@[pos as int]@;
                    lemma_name_less_total(p, k@);
                    if i > pos {
                        assert(name_less(p, n));
                        if n == k@ {
                            lemma_name_less_transitive(k@, p, k@);
                            lemma_name_less_irreflexive(k@);
                        }
                    }
                }
            }
            false
        }
    }

    /// Adds `k` with `tag`; `k` is not yet one of the names. Returns the
    /// place it takes.
    pub fn insert(&mut self, k: Vec<char>, tag: usize) -> (pos: usize)
        requires
            old(self).sorted(),
            !old(self).view().contains(k@),
        ensures
            final(self).sorted(),
            pos <= old(self).view().len(),
            final(self).view() == old(self).view().insert(pos as int, k@),
            final(self).tags() == old(self).tags().insert(pos as int, tag),
            forall|x: Seq<char>| #[trigger] final(self).view().contains(x) <==> old(self).view().contains(x) || x == k@,
    {
        let pos = self.lower_bound(&k);
        let ghost old_names = self.names@;
        let ghost kv = k@;
        self.names.insert(pos, k);
        self.tags.insert(pos, tag);
        let ghost new_names = self.names@;
        assert(new_names == old_names.insert(pos as int, k));
        assert forall|i: int| 0 <= i < old_names.len() implies #[trigger] old_names[i]@ != kv by {
            assert(old_names.map_values(|v: Vec<char>| v@)[i] == old_names[i]@);
        }
        assert forall|i: int, j: int| 0 <= i < j < new_names.len()
            implies name_less(#[trigger] new_names[i]@, #[trigger] new_names[j]@) by {
            if j < pos {
                assert(new_names[i] == old_names[i] && new_names[j] == old_names[j]);
            } else if j == pos {
                assert(new_names[i] == old_names[i] && new_names[j]@ == kv);
            } else if i < pos {
                assert(new_names[i] == old_names[i] && new_names[j] == old_names[j - 1]);
                assert(name_less(old_names[i]@, kv));
                assert(!name_less(old_names[j - 1]@, kv));
                lemma_name_less_total(old_names[j - 1]@, kv);
                lemma_name_less_transitive(old_names[i]@, kv, old_names[j - 1]@);
            } else if i == pos {
                assert(new_names[i]@ == kv && new_names[j] == old_names[j - 1]);
                assert(!name_less(old_names[j - 1]@, kv));
                lemma_name_less_total(old_names[j - 1]@, kv);
            } else {
                assert(new_names[i] == old_names[i - 1] && new_names[j] == old_names[j - 1]);
            }
        }
        assert(self.view() =~= old_names.map_values(|v: Vec<char>| v@).insert(pos as int, kv));
        assert forall|x: Seq<char>| #[trigger] self.view().contains(x) <==> old_names.map_values(|v: Vec<char>| v@).contains(x) || x == kv by {
            let o = old_names.map_values(|v: Vec<char>| v@);
            let n = self.view();
            if n.contains(x) {
                let i = choose|i: int| 0 <= i < n.len() && n[i] == x;
                if i < pos {
                    assert(o[i] == x);
                } else if i > pos {
                    assert(o[i - 1] == x);
                }
            }
            if o.contains(x) {
                let i = choose|i: int| 0 <= i < o.len() && o[i] == x;
                if i < pos {
                    assert(n[i] == x);
                } else {
                    assert(n[i + 1] == x);
                }
            }
            if x == kv {
                assert(n[pos as int] == x);
            }
        }
        pos
    }
}

} // verus!
