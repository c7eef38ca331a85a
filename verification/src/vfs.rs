//! Directory listings, stats and read ranges of the mounted archive. A
//! directory lists the first path segment of every mounted entry below it,
//! once per name; the loose resources appear under `<prefix>loose`. Names
//! are listed in character order, which for UTF-8 text is the order of
//! their bytes.
use vstd::prelude::*;
use crate::error::CmvsError;
use crate::text::{chars_of, string_of};

verus! {

/// Whether a listed node is a file or a directory.
#[derive(Debug, Clone, Copy, PartialEq, Eq, Structural)]
pub enum CmvsNodeKind {
    File,
    Directory,
}

/// One child of a listed directory.
#[derive(Debug, Clone, PartialEq, Eq)]
pub struct CmvsArchiveNode {
    pub uri: String,
    pub name: String,
    pub kind: CmvsNodeKind,
}

/// A listed child by its name, URI and kind.
pub type NodeView = (Seq<char>, Seq<char>, CmvsNodeKind);

/// `a` comes before `b` in character order.
pub open spec fn name_less(a: Seq<char>, b: Seq<char>) -> bool
    decreases a.len(),
{
    if a.len() == 0 {
        b.len() > 0
    } else if b.len() == 0 {
        false
    } else if a[0] != b[0] {
        a[0] < b[0]
    } else {
        name_less(a.drop_first(), b.drop_first())
    }
}

pub proof fn lemma_name_less_irreflexive(a: Seq<char>)
    ensures
        !name_less(a, a),
    decreases a.len(),
{
    if a.len() > 0 {
        lemma_name_less_irreflexive(a.drop_first());
    }
}

pub proof fn lemma_name_less_transitive(a: Seq<char>, b: Seq<char>, c: Seq<char>)
    requires
        name_less(a, b),
        name_less(b, c),
    ensures
        name_less(a, c),
    decreases a.len(),
{
    if a.len() > 0 && b.len() > 0 && c.len() > 0 && a[0] == b[0] && b[0] == c[0] {
        lemma_name_less_transitive(a.drop_first(), b.drop_first(), c.drop_first());
    }
}

pub proof fn lemma_name_less_total(a: Seq<char>, b: Seq<char>)
    requires
        a != b,
    ensures
        name_less(a, b) || name_less(b, a),
    decreases a.len(),
{
    if a.len() > 0 && b.len() > 0 && a[0] == b[0] {
        assert(a.drop_first() != b.drop_first()) by {
            if a.drop_first() == b.drop_first() {
                assert(a =~= seq![a[0]] + a.drop_first());
                assert(b =~= seq![b[0]] + b.drop_first());
            }
        }
        lemma_name_less_total(a.drop_first(), b.drop_first());
    } else if a.len() == 0 && b.len() == 0 {
        assert(a =~= b);
    }
}

/// The first `/`-separated segment of `s`.
pub open spec fn first_segment(s: Seq<char>) -> Seq<char>
    decreases s.len(),
{
    if s.len() == 0 || s[0] == '/' {
        Seq::empty()
    } else {
        seq![s[0]] + first_segment(s.drop_first())
    }
}

/// `p` begins `s`.
pub open spec fn is_prefix_of(p: Seq<char>, s: Seq<char>) -> bool {
    p.len() <= s.len() && s.subrange(0, p.len() as int) == p
}

/// A directory URI with its trailing `/`.
pub open spec fn dir_base(uri: Seq<char>) -> Seq<char> {
    if uri.len() > 0 && uri.last() == '/' { uri } else { uri.push('/') }
}

/// The directory of the loose resources.
pub open spec fn loose_dir(prefix: Seq<char>) -> Seq<char> {
    prefix + seq!['l', 'o', 'o', 's', 'e']
}

/// The child a path below `base` contributes: its first segment, a
/// directory when more of the path follows.
pub open spec fn child_of(base: Seq<char>, path: Seq<char>) -> Option<NodeView> {
    if is_prefix_of(base, path) {
        let suffix = path.subrange(base.len() as int, path.len() as int);
        let name = first_segment(suffix);
        if name.len() == 0 {
            None
        } else {
            Some((name, base + name, if suffix.contains('/') { CmvsNodeKind::Directory } else { CmvsNodeKind::File }))
        }
    } else {
        None
    }
}

/// The children the mounted entries contribute, in entry order.
pub open spec fn entry_children(base: Seq<char>, entries: Seq<Seq<char>>) -> Seq<NodeView>
    decreases entries.len(),
{
    if entries.len() == 0 {
        Seq::empty()
    } else {
        let earlier = entry_children(base, entries.drop_last());
        match child_of(base, entries.last()) {
            Some(node) => earlier.push(node),
            None => earlier,
        }
    }
}

/// The children of the loose directory: one file per role.
pub open spec fn role_children(prefix: Seq<char>, roles: Seq<Seq<char>>) -> Seq<NodeView> {
    Seq::new(roles.len(), |i: int| (roles[i], loose_dir(prefix).push('/') + roles[i], CmvsNodeKind::File))
}

/// The directory is the loose directory itself.
pub open spec fn lists_loose(prefix: Seq<char>, uri: Seq<char>, roles: Seq<Seq<char>>) -> bool {
    roles.len() > 0 && dir_base(uri) == loose_dir(prefix).push('/')
}

/// The candidate children of a directory, in the order they are offered:
/// the loose directory's roles; or else the way into the loose directory,
/// when it lies below, followed by the entries' children.
pub open spec fn dir_candidates(prefix: Seq<char>, uri: Seq<char>, entries: Seq<Seq<char>>, roles: Seq<Seq<char>>)
    -> Seq<NodeView>
{
    let base = dir_base(uri);
    if lists_loose(prefix, uri, roles) {
        role_children(prefix, roles)
    } else {
        let lead = if roles.len() > 0 {
            match child_of(base, loose_dir(prefix)) {
                Some((name, node_uri, _)) => seq![(name, node_uri, CmvsNodeKind::Directory)],
                None => Seq::empty(),
            }
        } else {
            Seq::empty()
        };
        lead + entry_children(base, entries)
    }
}

/// The first candidate named `name`.
pub open spec fn first_named(c: Seq<NodeView>, name: Seq<char>) -> Option<NodeView>
    decreases c.len(),
{
    if c.len() == 0 {
        None
    } else {
        match first_named(c.drop_last(), name) {
            Some(n) => Some(n),
            None => if c.last().0 == name { Some(c.last()) } else { None },
        }
    }
}

/// The listing holds one node per candidate name, the first candidate of
/// that name, in name order.
pub open spec fn is_listing_of(nodes: Seq<NodeView>, c: Seq<NodeView>) -> bool {
    &&& forall|i: int, j: int| 0 <= i < j < nodes.len() ==> name_less(#[trigger] nodes[i].0, #[trigger] nodes[j].0)
    &&& forall|i: int| 0 <= i < nodes.len() ==> first_named(c, #[trigger] nodes[i].0) == Some(nodes[i])
    &&& forall|j: int| 0 <= j < c.len() ==> exists|i: int| 0 <= i < nodes.len() && #[trigger] nodes[i].0 == #[trigger] c[j].0
}

/// A listed node by its name, URI and kind.
pub open spec fn node_view(n: CmvsArchiveNode) -> NodeView {
    (n.name@, n.uri@, n.kind)
}

/// Listed nodes by their names, URIs and kinds.
pub open spec fn nodes_view(nodes: Seq<CmvsArchiveNode>) -> Seq<NodeView> {
    Seq::new(nodes.len(), |i: int| node_view(nodes[i]))
}

proof fn lemma_first_named_push(c: Seq<NodeView>, x: NodeView, name: Seq<char>)
    ensures
        first_named(c.push(x), name) == (match first_named(c, name) {
            Some(n) => Some(n),
            None => if x.0 == name { Some(x) } else { None },
        }),
{
    assert(c.push(x).drop_last() == c);
}

proof fn lemma_first_named_found(c: Seq<NodeView>, name: Seq<char>)
    ensures
        first_named(c, name) is Some <==> exists|j: int| 0 <= j < c.len() && #[trigger] c[j].0 == name,
        first_named(c, name) matches Some(n) ==> n.0 == name,
    decreases c.len(),
{
    if c.len() > 0 {
        lemma_first_named_found(c.drop_last(), name);
        if first_named(c.drop_last(), name) is Some {
            let j = choose|j: int| 0 <= j < c.drop_last().len() && #[trigger] c.drop_last()[j].0 == name;
            assert(c[j].0 == name);
        }
        if exists|j: int| 0 <= j < c.len() && #[trigger] c[j].0 == name {
            let j = choose|j: int| 0 <= j < c.len() && #[trigger] c[j].0 == name;
            if j < c.len() - 1 {
                assert(c.drop_last()[j].0 == name);
            }
        }
    }
}

/// Whether `a` comes before `b` in character order.
pub(crate) fn name_less_exec(a: &Vec<char>, b: &Vec<char>) -> (r: bool)
    ensures
        r == name_less(a@, b@),
{
    let mut i: usize = 0;
    assert(a@.skip(0) =~= a@ && b@.skip(0) =~= b@);
    while i < a.len() && i < b.len() && a[i] == b[i]
        invariant
            i <= a@.len(),
            i <= b@.len(),
            name_less(a@, b@) == name_less(a@.skip(i as int), b@.skip(i as int)),
        decreases a@.len() - i,
    {
        assert(a@.skip(i as int).drop_first() == a@.skip(i + 1));
        assert(b@.skip(i as int).drop_first() == b@.skip(i + 1));
        i = i + 1;
    }
    if i == a.len() {
        assert(a@.skip(i as int).len() == 0);
        i < b.len()
    } else if i == b.len() {
        false
    } else {
        a[i] < b[i]
    }
}

/// Whether `a` and `b` are the same characters.
pub(crate) fn chars_eq(a: &Vec<char>, b: &Vec<char>) -> (r: bool)
    ensures
        r == (a@ == b@),
{
    if a.len() != b.len() {
        return false;
    }
    let mut i: usize = 0;
    while i < a.len()
        invariant
            i <= a@.len(),
            a@.len() == b@.len(),
            forall|k: int| 0 <= k < i ==> a@[k] == b@[k],
        decreases a@.len() - i,
    {
        if a[i] != b[i] {
            return false;
        }
        i = i + 1;
    }
    assert(a@ =~= b@);
    true
}

/// A listing under construction: nodes as character vectors.
type NodeChars = (Vec<char>, Vec<char>, CmvsNodeKind);

spec fn chars_view(n: NodeChars) -> NodeView {
    (n.0@, n.1@, n.2)
}

spec fn listing_view(nodes: Seq<NodeChars>) -> Seq<NodeView> {
    Seq::new(nodes.len(), |i: int| chars_view(nodes[i]))
}

/// Offers `node` to the listing: a new name is inserted in name order, a
/// name already listed keeps its first node.
fn offer(nodes: &mut Vec<NodeChars>, node: NodeChars, Ghost(c): Ghost<Seq<NodeView>>)
    requires
        is_listing_of(listing_view(old(nodes)@), c),
    ensures
        is_listing_of(listing_view(final(nodes)@), c.push(chars_view(node))),
{
    let ghost x = chars_view(node);
    let ghost before = listing_view(nodes@);
    let mut p: usize = 0;
    let mut go = nodes.len() > 0 && name_less_exec(&nodes[0].0, &node.0);
    proof {
        if nodes@.len() > 0 {
            assert(before[0] == chars_view(nodes@[0]));
        }
    }
    while go
        invariant
            p <= nodes@.len(),
            listing_view(nodes@) == before,
            before.len() == nodes@.len(),
            x == chars_view(node),
            forall|k: int| 0 <= k < p ==> name_less(#[trigger] before[k].0, x.0),
            go ==> p < nodes.len() && name_less(before[p as int].0, x.0),
            !go ==> p == nodes@.len() || !name_less(before[p as int].0, x.0),
        decreases nodes@.len() - p,
    {
        p = p + 1;
        go = p < nodes.len() && name_less_exec(&nodes[p].0, &node.0);
        proof {
            if p < nodes@.len() {
                assert(before[p as int] == chars_view(nodes@[p as int]));
            }
        }
    }
    proof {
        assert forall|i: int| 0 <= i < before.len() implies first_named(c.push(x), #[trigger] before[i].0) == Some(before[i]) by {
            lemma_first_named_push(c, x, before[i].0);
        }
    }
    if p < nodes.len() && chars_eq(&nodes[p].0, &node.0) {
        proof {
            let after = c.push(x);
            assert forall|j: int| 0 <= j < after.len() implies exists|i: int| 0 <= i < before.len() && #[trigger] before[i].0 == #[trigger] after[j].0 by {
                if j == c.len() {
                    assert(before[p as int].0 == after[j].0);
                } else {
                    assert(after[j] == c[j]);
                }
            }
        }
        return;
    }
    proof {
        assert forall|k: int| p <= k < before.len() implies name_less(x.0, #[trigger] before[k].0) by {
            assert(before[p as int].0 != x.0);
            assert(!name_less(before[p as int].0, x.0));
            lemma_name_less_total(before[p as int].0, x.0);
            if k > p {
                lemma_name_less_transitive(x.0, before[p as int].0, before[k].0);
            }
        }
        assert forall|k: int| 0 <= k < before.len() implies before[k].0 != x.0 by {
            if k < p {
                lemma_name_less_irreflexive(x.0);
            } else {
                lemma_name_less_irreflexive(x.0);
            }
        }
        lemma_first_named_push(c, x, x.0);
        lemma_first_named_found(c, x.0);
        assert(first_named(c, x.0) is None) by {
            if first_named(c, x.0) is Some {
                let j = choose|j: int| 0 <= j < c.len() && #[trigger] c[j].0 == x.0;
                let i = choose|i: int| 0 <= i < before.len() && #[trigger] before[i].0 == #[trigger] c[j].0;
                assert(before[i].0 != x.0);
            }
        }
    }
    nodes.insert(p, node);
    proof {
        let now = listing_view(nodes@);
        assert(now =~= before.insert(p as int, x));
        let after = c.push(x);
        assert forall|i: int, j: int| 0 <= i < j < now.len() implies name_less(#[trigger] now[i].0, #[trigger] now[j].0) by {
            if j < p {
                assert(now[i] == before[i] && now[j] == before[j]);
            } else if j == p {
                assert(now[i] == before[i]);
            } else if i < p {
                assert(now[i] == before[i] && now[j] == before[j - 1]);
                lemma_name_less_transitive(before[i].0, x.0, before[j - 1].0);
            } else if i == p {
                assert(now[j] == before[j - 1]);
            } else {
                assert(now[i] == before[i - 1] && now[j] == before[j - 1]);
            }
        }
        assert forall|i: int| 0 <= i < now.len() implies first_named(after, #[trigger] now[i].0) == Some(now[i]) by {
            if i < p {
                assert(now[i] == before[i]);
            } else if i > p {
                assert(now[i] == before[i - 1]);
            }
        }
        assert forall|j: int| 0 <= j < after.len() implies exists|i: int| 0 <= i < now.len() && #[trigger] now[i].0 == #[trigger] after[j].0 by {
            if j == c.len() {
                assert(now[p as int].0 == after[j].0);
            } else {
                assert(after[j] == c[j]);
                let i = choose|i: int| 0 <= i < before.len() && #[trigger] before[i].0 == #[trigger] c[j].0;
                if i < p {
                    assert(now[i] == before[i]);
                } else {
                    assert(now[i + 1] == before[i]);
                }
            }
        }
    }
}

/// The characters of each text.
pub open spec fn texts_view(texts: Seq<&str>) -> Seq<Seq<char>> {
    Seq::new(texts.len(), |i: int| texts[i]@)
}

proof fn lemma_first_segment(s: Seq<char>, k: int)
    requires
        0 <= k <= s.len(),
        k == s.len() || s[k] == '/',
        forall|j: int| 0 <= j < k ==> #[trigger] s[j] != '/',
    ensures
        first_segment(s) == s.subrange(0, k),
    decreases s.len(),
{
    if s.len() == 0 || k == 0 {
        assert(s.subrange(0, k) =~= Seq::<char>::empty());
    } else {
        lemma_first_segment(s.drop_first(), k - 1);
        assert(s.subrange(0, k) =~= seq![s[0]] + s.drop_first().subrange(0, k - 1));
    }
}

/// The characters of `a` followed by those of `b`.
fn concat_chars(a: &Vec<char>, b: &Vec<char>) -> (r: Vec<char>)
    ensures
        r@ == a@ + b@,
{
    let mut out: Vec<char> = Vec::new();
    let mut i: usize = 0;
    while i < a.len()
        invariant
            i <= a@.len(),
            out@ == a@.subrange(0, i as int),
        decreases a@.len() - i,
    {
        out.push(a[i]);
        i = i + 1;
        assert(out@ =~= a@.subrange(0, i as int));
    }
    let mut j: usize = 0;
    while j < b.len()
        invariant
            j <= b@.len(),
            out@ == a@ + b@.subrange(0, j as int),
        decreases b@.len() - j,
    {
        out.push(b[j]);
        j = j + 1;
        assert(out@ =~= a@ + b@.subrange(0, j as int));
    }
    assert(b@.subrange(0, b@.len() as int) =~= b@);
    out
}

/// The child a path below `base` contributes, if any.
fn child_of_exec(base: &Vec<char>, path: &Vec<char>) -> (r: Option<NodeChars>)
    ensures
        match r {
            Some(n) => child_of(base@, path@) == Some(chars_view(n)),
            None => child_of(base@, path@) is None,
        },
{
    if base.len() > path.len() {
        return None;
    }
    let mut i: usize = 0;
    while i < base.len()
        invariant
            base@.len() <= path@.len(),
            i <= base@.len(),
            forall|j: int| 0 <= j < i ==> path@[j] == base@[j],
        decreases base@.len() - i,
    {
        if path[i] != base[i] {
            assert(path@.subrange(0, base@.len() as int)[i as int] != base@[i as int]);
            return None;
        }
        i = i + 1;
    }
    assert(path@.subrange(0, base@.len() as int) =~= base@);
    let ghost suffix = path@.subrange(base@.len() as int, path@.len() as int);
    let mut k: usize = base.len();
    while k < path.len() && path[k] != '/'
        invariant
            base@.len() <= k <= path@.len(),
            forall|j: int| base@.len() <= j < k ==> #[trigger] path@[j] != '/',
        decreases path@.len() - k,
    {
        k = k + 1;
    }
    let ghost cut = k - base@.len();
    proof {
        assert forall|j: int| 0 <= j < cut implies #[trigger] suffix[j] != '/' by {
            assert(suffix[j] == path@[base@.len() + j]);
        }
        lemma_first_segment(suffix, cut);
    }
    if k == base.len() {
        return None;
    }
    let mut name: Vec<char> = Vec::new();
    let mut m: usize = base.len();
    while m < k
        invariant
            base@.len() <= m <= k <= path@.len(),
            name@ == path@.subrange(base@.len() as int, m as int),
        decreases k - m,
    {
        name.push(path[m]);
        m = m + 1;
        assert(name@ =~= path@.subrange(base@.len() as int, m as int));
    }
    assert(name@ =~= suffix.subrange(0, cut));
    let node_uri = concat_chars(base, &name);
    let kind = if k < path.len() { CmvsNodeKind::Directory } else { CmvsNodeKind::File };
    proof {
        if k < path@.len() {
            assert(suffix[cut] == '/');
            assert(suffix.contains('/'));
        } else {
            assert(!suffix.contains('/')) by {
                if suffix.contains('/') {
                    let j = choose|j: int| 0 <= j < suffix.len() && suffix[j] == '/';
                    assert(suffix[j] == path@[base@.len() + j]);
                }
            }
        }
    }
    Some((name, node_uri, kind))
}

/// The listed nodes, as text.
fn into_nodes(nodes: Vec<NodeChars>) -> (r: Vec<CmvsArchiveNode>)
    ensures
        nodes_view(r@) == listing_view(nodes@),
{
    let mut out: Vec<CmvsArchiveNode> = Vec::new();
    let mut i: usize = 0;
    while i < nodes.len()
        invariant
            i <= nodes@.len(),
            out@.len() == i,
            nodes_view(out@) == listing_view(nodes@).subrange(0, i as int),
        decreases nodes@.len() - i,
    {
        let node = CmvsArchiveNode { uri: string_of(&nodes[i].1), name: string_of(&nodes[i].0), kind: nodes[i].2 };
        assert(listing_view(nodes@)[i as int] == chars_view(nodes@[i as int]));
        assert(node_view(node) == listing_view(nodes@)[i as int]);
        let ghost before = out@;
        out.push(node);
        assert(out@ == before.push(node));
        assert forall|k: int| 0 <= k < i + 1 implies #[trigger] nodes_view(out@)[k]
            == listing_view(nodes@).subrange(0, i + 1)[k] by {
            if k < i {
                assert(out@[k] == before[k]);
                assert(nodes_view(before)[k] == listing_view(nodes@).subrange(0, i as int)[k]);
            }
        }
        assert(nodes_view(out@) =~= listing_view(nodes@).subrange(0, i + 1));
        i = i + 1;
    }
    assert(listing_view(nodes@).subrange(0, nodes@.len() as int) =~= listing_view(nodes@));
    out
}

/// Lists the directory at `uri`: the loose resources when it is the loose
/// directory; otherwise the way into the loose directory when that lies
/// below it, and the first path segment below it of every mounted entry.
/// `entries` are the mounted entry URIs in mount order, `roles` the loose
/// resource roles. A directory with nothing below it is not found, unless
/// it is the archive root. The URI is taken as one the host has checked to
/// be a directory URI under `prefix`.
pub fn read_dir(prefix: &str, uri: &str, entries: &[&str], roles: &[&str]) -> (r: Result<Vec<CmvsArchiveNode>, CmvsError>)
    ensures
        ({
            let c = dir_candidates(prefix@, uri@, texts_view(entries@), texts_view(roles@));
            &&& r is Err <==> !lists_loose(prefix@, uri@, texts_view(roles@)) && c.len() == 0 && uri@ != prefix@
            &&& r is Err ==> r == Err::<Vec<CmvsArchiveNode>, CmvsError>(CmvsError::VfsNotFound)
            &&& r matches Ok(nodes) ==> is_listing_of(nodes_view(nodes@), c)
        }),
{
    let prefix_c = chars_of(prefix);
    let uri_c = chars_of(uri);
    let slash = vec!['/'];
    assert(slash@ =~= seq!['/']);
    let base = if uri_c.len() > 0 && uri_c[uri_c.len() - 1] == '/' {
        concat_chars(&uri_c, &Vec::new())
    } else {
        concat_chars(&uri_c, &slash)
    };
    assert(base@ =~= dir_base(uri@));
    let loose_word = vec!['l', 'o', 'o', 's', 'e'];
    let loose = concat_chars(&prefix_c, &loose_word);
    assert(loose@ =~= loose_dir(prefix@));
    let loose_slash = concat_chars(&loose, &slash);
    assert(loose_slash@ =~= loose_dir(prefix@).push('/'));
    let ghost roles_v = texts_view(roles@);
    let ghost entries_v = texts_view(entries@);
    let mut nodes: Vec<NodeChars> = Vec::new();
    let ghost mut c: Seq<NodeView> = Seq::empty();
    assert(is_listing_of(listing_view(nodes@), c));
    if roles.len() > 0 && chars_eq(&base, &loose_slash) {
        let mut i: usize = 0;
        while i < roles.len()
            invariant
                i <= roles@.len(),
                roles_v == texts_view(roles@),
                loose_slash@ == loose_dir(prefix@).push('/'),
                c == role_children(prefix@, roles_v).subrange(0, i as int),
                is_listing_of(listing_view(nodes@), c),
            decreases roles@.len() - i,
        {
            let role = chars_of(roles[i]);
            let node_uri = concat_chars(&loose_slash, &role);
            let node: NodeChars = (role, node_uri, CmvsNodeKind::File);
            offer(&mut nodes, node, Ghost(c));
            proof {
                c = c.push(chars_view(node));
                assert(c =~= role_children(prefix@, roles_v).subrange(0, i + 1));
            }
            i = i + 1;
        }
        assert(role_children(prefix@, roles_v).subrange(0, roles@.len() as int) =~= role_children(prefix@, roles_v));
        return Ok(into_nodes(nodes));
    }
    if roles.len() > 0 {
        match child_of_exec(&base, &loose) {
            Some(lead) => {
                let node: NodeChars = (lead.0, lead.1, CmvsNodeKind::Directory);
                offer(&mut nodes, node, Ghost(c));
                proof { c = c.push(chars_view(node)); }
            },
            None => {},
        }
    }
    let ghost lead = c;
    let mut i: usize = 0;
    while i < entries.len()
        invariant
            i <= entries@.len(),
            entries_v == texts_view(entries@),
            c == lead + entry_children(base@, entries_v.subrange(0, i as int)),
            is_listing_of(listing_view(nodes@), c),
        decreases entries@.len() - i,
    {
        let path = chars_of(entries[i]);
        assert(entries_v.subrange(0, i + 1).drop_last() == entries_v.subrange(0, i as int));
        assert(entries_v.subrange(0, i + 1).last() == path@);
        match child_of_exec(&base, &path) {
            Some(node) => {
                offer(&mut nodes, node, Ghost(c));
                proof {
                    c = c.push(chars_view(node));
                    assert(c =~= lead + entry_children(base@, entries_v.subrange(0, i + 1)));
                }
            },
            None => {
                assert(c =~= lead + entry_children(base@, entries_v.subrange(0, i + 1)));
            },
        }
        i = i + 1;
    }
    assert(entries_v.subrange(0, entries@.len() as int) =~= entries_v);
    assert(c == dir_candidates(prefix@, uri@, entries_v, roles_v));
    if nodes.len() == 0 && !crate::text::str_eq(uri, prefix) {
        assert(c.len() == 0) by {
            if c.len() > 0 {
                assert(exists|i: int| 0 <= i < listing_view(nodes@).len() && #[trigger] listing_view(nodes@)[i].0 == #[trigger] c[0].0);
            }
        }
        return Err(CmvsError::VfsNotFound);
    }
    proof {
        if nodes@.len() > 0 {
            let v = listing_view(nodes@);
            assert(first_named(c, v[0].0) == Some(v[0]));
            lemma_first_named_found(c, v[0].0);
        }
    }
    Ok(into_nodes(nodes))
}

/// A mounted archive entry, as a listing or a stat reads it.
pub struct CmvsEntryRecord {
    pub uri: String,
    pub entry_id: String,
    pub stored_size: u64,
    pub archive_role: String,
}

/// A loose resource, by role and byte size.
pub struct CmvsLooseRecord {
    pub role: String,
    pub byte_size: u64,
}

/// What a stat reports of a URI.
#[derive(Debug, Clone, PartialEq, Eq)]
pub struct CmvsArchiveStat {
    pub uri: String,
    pub entry_id: Option<String>,
    pub kind: CmvsNodeKind,
    pub size: u64,
    pub archive_role: Option<String>,
    pub method: Option<String>,
}

/// A stat by its entry id, kind, size, archive role and method.
pub type StatView = (Option<Seq<char>>, CmvsNodeKind, u64, Option<Seq<char>>, Option<Seq<char>>);

/// Optional text by its characters.
pub open spec fn opt_view(s: Option<String>) -> Option<Seq<char>> {
    match s {
        Some(t) => Some(t@),
        None => None,
    }
}

/// A stat by its entry id, kind, size, archive role and method.
pub open spec fn stat_view(st: CmvsArchiveStat) -> StatView {
    (opt_view(st.entry_id), st.kind, st.size, opt_view(st.archive_role), opt_view(st.method))
}

/// An entry record by its URI, entry id, stored size and archive role.
pub open spec fn entry_view(e: CmvsEntryRecord) -> (Seq<char>, Seq<char>, u64, Seq<char>) {
    (e.uri@, e.entry_id@, e.stored_size, e.archive_role@)
}

/// The entry records by their URIs, ids, sizes and roles.
pub open spec fn entries_view(entries: Seq<CmvsEntryRecord>) -> Seq<(Seq<char>, Seq<char>, u64, Seq<char>)> {
    Seq::new(entries.len(), |i: int| entry_view(entries[i]))
}

/// The loose records by their roles and sizes.
pub open spec fn loose_view(loose: Seq<CmvsLooseRecord>) -> Seq<(Seq<char>, u64)> {
    Seq::new(loose.len(), |i: int| (loose[i].role@, loose[i].byte_size))
}

/// The role a URI names directly below the loose directory.
pub open spec fn loose_role_of(prefix: Seq<char>, uri: Seq<char>) -> Option<Seq<char>> {
    let lp = loose_dir(prefix).push('/');
    if is_prefix_of(lp, uri) {
        let role = uri.subrange(lp.len() as int, uri.len() as int);
        if role.len() > 0 && !role.contains('/') { Some(role) } else { None }
    } else {
        None
    }
}

/// The size of the first loose resource with `role`.
pub open spec fn find_loose(loose: Seq<(Seq<char>, u64)>, role: Seq<char>) -> Option<u64>
    decreases loose.len(),
{
    if loose.len() == 0 {
        None
    } else if loose[0].0 == role {
        Some(loose[0].1)
    } else {
        find_loose(loose.drop_first(), role)
    }
}

/// `s` without its trailing slashes.
pub open spec fn trim_slashes(s: Seq<char>) -> Seq<char>
    decreases s.len(),
{
    if s.len() > 0 && s.last() == '/' { trim_slashes(s.drop_last()) } else { s }
}

/// Some entry lies below the directory `dir` (given with its trailing `/`).
pub open spec fn has_entry_below(entries: Seq<(Seq<char>, Seq<char>, u64, Seq<char>)>, dir: Seq<char>) -> bool {
    exists|i: int| 0 <= i < entries.len() && is_prefix_of(dir, #[trigger] entries[i].0)
}

/// The first entry mounted at `uri`.
pub open spec fn find_entry(entries: Seq<(Seq<char>, Seq<char>, u64, Seq<char>)>, uri: Seq<char>)
    -> Option<(Seq<char>, Seq<char>, u64, Seq<char>)>
    decreases entries.len(),
{
    if entries.len() == 0 {
        None
    } else if entries[0].0 == uri {
        Some(entries[0])
    } else {
        find_entry(entries.drop_first(), uri)
    }
}

/// What a stat of `uri` reports: a loose resource; the loose directory; the
/// root or a directory with an entry below it; or a mounted entry.
pub open spec fn spec_stat(prefix: Seq<char>, uri: Seq<char>, entries: Seq<(Seq<char>, Seq<char>, u64, Seq<char>)>,
    loose: Seq<(Seq<char>, u64)>) -> Result<StatView, CmvsError>
{
    let directory = (None, CmvsNodeKind::Directory, 0u64, None, None);
    if loose_role_of(prefix, uri) is Some && find_loose(loose, loose_role_of(prefix, uri)->0) is Some {
        let role = loose_role_of(prefix, uri)->0;
        Ok(loose_stat(role, find_loose(loose, role)->0))
    } else if uri == loose_dir(prefix) && loose.len() > 0 {
        Ok(directory)
    } else if uri == prefix || has_entry_below(entries, trim_slashes(uri).push('/')) {
        Ok(directory)
    } else {
        entry_stat(find_entry(entries, uri))
    }
}

/// What a stat reports of a mounted entry, or that none is mounted.
pub open spec fn entry_stat(entry: Option<(Seq<char>, Seq<char>, u64, Seq<char>)>) -> Result<StatView, CmvsError> {
    match entry {
        Some((_, id, size, role)) => Ok((Some(id), CmvsNodeKind::File, size, Some(role), Some("cpz5-encrypted"@))),
        None => Err(CmvsError::VfsNotFound),
    }
}

/// What a stat reports of a loose resource.
pub open spec fn loose_stat(role: Seq<char>, size: u64) -> StatView {
    let id = seq!['l', 'o', 'o', 's', 'e', '-'] + role;
    (Some(id), CmvsNodeKind::File, size, Some(id), Some(seq!['l', 'o', 'o', 's', 'e']))
}

/// Whether `p` begins `s`.
fn is_prefix_exec(p: &Vec<char>, s: &Vec<char>) -> (r: bool)
    ensures
        r == is_prefix_of(p@, s@),
{
    if p.len() > s.len() {
        return false;
    }
    let mut i: usize = 0;
    while i < p.len()
        invariant
            p@.len() <= s@.len(),
            i <= p@.len(),
            forall|j: int| 0 <= j < i ==> s@[j] == p@[j],
        decreases p@.len() - i,
    {
        if s[i] != p[i] {
            assert(s@.subrange(0, p@.len() as int)[i as int] != p@[i as int]);
            return false;
        }
        i = i + 1;
    }
    assert(s@.subrange(0, p@.len() as int) =~= p@);
    true
}

/// The characters of `s` from `start` on.
fn tail_chars(s: &Vec<char>, start: usize) -> (r: Vec<char>)
    requires
        start <= s@.len(),
    ensures
        r@ == s@.subrange(start as int, s@.len() as int),
{
    let mut out: Vec<char> = Vec::new();
    let mut i = start;
    while i < s.len()
        invariant
            start <= i <= s@.len(),
            out@ == s@.subrange(start as int, i as int),
        decreases s@.len() - i,
    {
        out.push(s[i]);
        i = i + 1;
        assert(out@ =~= s@.subrange(start as int, i as int));
    }
    out
}

/// The role a URI names directly below the loose directory.
fn loose_role_exec(loose_slash: &Vec<char>, uri: &Vec<char>) -> (r: Option<Vec<char>>)
    ensures
        match r {
            Some(role) => is_prefix_of(loose_slash@, uri@) && {
                let role_v = uri@.subrange(loose_slash@.len() as int, uri@.len() as int);
                role@ == role_v && role_v.len() > 0 && !role_v.contains('/')
            },
            None => !(is_prefix_of(loose_slash@, uri@) && {
                let role_v = uri@.subrange(loose_slash@.len() as int, uri@.len() as int);
                role_v.len() > 0 && !role_v.contains('/')
            }),
        },
{
    if !is_prefix_exec(loose_slash, uri) {
        return None;
    }
    let role = tail_chars(uri, loose_slash.len());
    if role.len() == 0 {
        return None;
    }
    let mut i: usize = 0;
    while i < role.len()
        invariant
            i <= role@.len(),
            role@.len() > 0,
            is_prefix_of(loose_slash@, uri@),
            role@ == uri@.subrange(loose_slash@.len() as int, uri@.len() as int),
            forall|j: int| 0 <= j < i ==> role@[j] != '/',
        decreases role@.len() - i,
    {
        if role[i] == '/' {
            assert(role@.contains('/')) by { assert(role@[i as int] == '/'); }
            return None;
        }
        i = i + 1;
    }
    Some(role)
}

/// Reports what `uri` is: a loose resource, the loose directory, the root
/// or a directory holding entries, or a mounted entry; anything else is
/// not found. `entries` are the mounted entries in mount order and `loose`
/// the loose resources by role. An entry URI is taken as one the host has
/// checked to be an archive URI under `prefix`.
pub fn stat(prefix: &str, uri: &str, entries: &[CmvsEntryRecord], loose: &[CmvsLooseRecord])
    -> (r: Result<CmvsArchiveStat, CmvsError>)
    ensures
        match spec_stat(prefix@, uri@, entries_view(entries@), loose_view(loose@)) {
            Ok(v) => r matches Ok(st) && stat_view(st) == v && st.uri@ == uri@,
            Err(e) => r == Err::<CmvsArchiveStat, CmvsError>(e),
        },
{
    let prefix_c = chars_of(prefix);
    let uri_c = chars_of(uri);
    let loose_word = vec!['l', 'o', 'o', 's', 'e'];
    assert(loose_word@ =~= seq!['l', 'o', 'o', 's', 'e']);
    let slash = vec!['/'];
    assert(slash@ =~= seq!['/']);
    let dash = vec!['-'];
    assert(dash@ =~= seq!['-']);
    let loose_dir_c = concat_chars(&prefix_c, &loose_word);
    assert(loose_dir_c@ =~= loose_dir(prefix@));
    let loose_slash = concat_chars(&loose_dir_c, &slash);
    assert(loose_slash@ =~= loose_dir(prefix@).push('/'));
    let ghost ev = entries_view(entries@);
    let ghost lv = loose_view(loose@);
    let ghost role_opt = loose_role_of(prefix@, uri@);
    match loose_role_exec(&loose_slash, &uri_c) {
        Some(role) => {
            assert(role_opt == Some(role@));
            let mut k: usize = 0;
            assert(lv.skip(0) =~= lv);
            while k < loose.len()
                invariant
                    k <= loose@.len(),
                    lv == loose_view(loose@),
                    ev == entries_view(entries@),
                    uri_c@ == uri@,
                    loose_word@ == seq!['l', 'o', 'o', 's', 'e'],
                    dash@ == seq!['-'],
                    role_opt == Some(role@),
                    spec_stat(prefix@, uri@, ev, lv) == (if find_loose(lv, role@) is Some {
                        Ok::<StatView, CmvsError>(loose_stat(role@, find_loose(lv, role@)->0))
                    } else {
                        spec_stat(prefix@, uri@, ev, lv)
                    }),
                    find_loose(lv, role@) == find_loose(lv.skip(k as int), role@),
                decreases loose@.len() - k,
            {
                assert(lv.skip(k as int)[0] == (loose@[k as int].role@, loose@[k as int].byte_size));
                assert(lv.skip(k as int).drop_first() =~= lv.skip(k + 1));
                if chars_eq(&chars_of(loose[k].role.as_str()), &role) {
                    let id_text = concat_chars(&concat_chars(&loose_word, &dash), &role);
                    assert(id_text@ =~= seq!['l', 'o', 'o', 's', 'e', '-'] + role@);
                    let method = string_of(&loose_word);
                    return Ok(CmvsArchiveStat {
                        uri: string_of(&uri_c),
                        entry_id: Some(string_of(&id_text)),
                        kind: CmvsNodeKind::File,
                        size: loose[k].byte_size,
                        archive_role: Some(string_of(&id_text)),
                        method: Some(method),
                    });
                }
                k = k + 1;
            }
            assert(lv.skip(loose@.len() as int) =~= Seq::<(Seq<char>, u64)>::empty());
        },
        None => {},
    }
    assert(!(role_opt is Some && find_loose(lv, role_opt->0) is Some));
    if loose.len() > 0 && chars_eq(&uri_c, &loose_dir_c) {
        return Ok(CmvsArchiveStat {
            uri: string_of(&uri_c), entry_id: None, kind: CmvsNodeKind::Directory, size: 0,
            archive_role: None, method: None,
        });
    }
    assert(!(uri@ == loose_dir(prefix@) && lv.len() > 0));
    // The directory form of the URI: without trailing slashes, plus one.
    let mut end = uri_c.len();
    assert(uri_c@.subrange(0, end as int) =~= uri_c@);
    while end > 0 && uri_c[end - 1] == '/'
        invariant
            end <= uri_c@.len(),
            trim_slashes(uri_c@) == trim_slashes(uri_c@.subrange(0, end as int)),
        decreases end,
    {
        assert(uri_c@.subrange(0, end as int).drop_last() =~= uri_c@.subrange(0, end - 1));
        end = end - 1;
    }
    assert(trim_slashes(uri_c@.subrange(0, end as int)) == uri_c@.subrange(0, end as int));
    let mut dir = Vec::new();
    let mut m: usize = 0;
    while m < end
        invariant
            m <= end <= uri_c@.len(),
            dir@ == uri_c@.subrange(0, m as int),
        decreases end - m,
    {
        dir.push(uri_c[m]);
        m = m + 1;
        assert(dir@ =~= uri_c@.subrange(0, m as int));
    }
    dir.push('/');
    assert(dir@ =~= trim_slashes(uri@).push('/'));
    let mut below = chars_eq(&uri_c, &prefix_c);
    let mut i: usize = 0;
    while i < entries.len() && !below
        invariant
            i <= entries@.len(),
            ev == entries_view(entries@),
            !below ==> uri@ != prefix@,
            !below ==> forall|j: int| 0 <= j < i ==> !is_prefix_of(dir@, #[trigger] ev[j].0),
            below ==> uri@ == prefix@ || has_entry_below(ev, dir@),
        decreases entries@.len() - i,
    {
        if is_prefix_exec(&dir, &chars_of(entries[i].uri.as_str())) {
            assert(ev[i as int].0 == entries@[i as int].uri@);
            assert(is_prefix_of(dir@, ev[i as int].0));
            below = true;
        }
        i = i + 1;
    }
    if below {
        return Ok(CmvsArchiveStat {
            uri: string_of(&uri_c), entry_id: None, kind: CmvsNodeKind::Directory, size: 0,
            archive_role: None, method: None,
        });
    }
    assert(!has_entry_below(ev, dir@));
    assert(spec_stat(prefix@, uri@, ev, lv) == entry_stat(find_entry(ev, uri@)));
    let mut k: usize = 0;
    assert(ev.skip(0) =~= ev);
    while k < entries.len()
        invariant
            k <= entries@.len(),
            ev == entries_view(entries@),
            lv == loose_view(loose@),
            uri_c@ == uri@,
            spec_stat(prefix@, uri@, ev, lv) == entry_stat(find_entry(ev, uri@)),
            find_entry(ev, uri@) == find_entry(ev.skip(k as int), uri@),
        decreases entries@.len() - k,
    {
        assert(ev.skip(k as int)[0] == entry_view(entries@[k as int]));
        assert(ev.skip(k as int).drop_first() =~= ev.skip(k + 1));
        if crate::text::str_eq(entries[k].uri.as_str(), uri) {
            return Ok(CmvsArchiveStat {
                uri: string_of(&uri_c),
                entry_id: Some(string_of(&chars_of(entries[k].entry_id.as_str()))),
                kind: CmvsNodeKind::File,
                size: entries[k].stored_size,
                archive_role: Some(string_of(&chars_of(entries[k].archive_role.as_str()))),
                method: Some(String::from_str("cpz5-encrypted")),
            });
        }
        k = k + 1;
    }
    assert(ev.skip(entries@.len() as int) =~= Seq::<(Seq<char>, Seq<char>, u64, Seq<char>)>::empty());
    Err(CmvsError::VfsNotFound)
}

/// Checks a read of `length` bytes at `offset` of a resource of `size`
/// bytes, under the host's bound `max_read` on one read; on success, tells
/// whether the read reaches the end of the resource.
pub fn check_read_range(offset: u64, length: u64, size: u64, max_read: u64) -> (r: Result<bool, CmvsError>)
    ensures
        length > max_read ==> r == Err::<bool, CmvsError>(CmvsError::VfsReadLimit),
        length <= max_read && offset + length > size ==> r == Err::<bool, CmvsError>(CmvsError::VfsReadRange),
        length <= max_read && offset + length <= size ==> r == Ok::<bool, CmvsError>(offset + length == size),
{
    if length > max_read {
        return Err(CmvsError::VfsReadLimit);
    }
    if offset > size || length > size - offset {
        return Err(CmvsError::VfsReadRange);
    }
    Ok(offset + length == size)
}

} // verus!
