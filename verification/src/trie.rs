//! A character trie storing a set of patterns, answering whether any stored
//! pattern is a literal prefix of a queried text.

use vstd::prelude::*;

verus! {

/// One consumed character position: a mapping from next character to child
/// node, and a marker set when a stored pattern ends here.
pub struct TrieNode {
    /// Child edges, one per distinct next character.
    pub children: Vec<(char, TrieNode)>,
    /// True when some inserted pattern ends at this node.
    pub is_end_of_word: bool,
}

/// A prefix trie owning its root node.
pub struct Trie {
    /// The root node; the empty pattern, if inserted, marks it.
    pub root: TrieNode,
}

/// Index of the first pair in `s` whose key is `c`, if any.
pub open spec fn key_index(s: Seq<(char, TrieNode)>, c: char) -> Option<int>
    decreases s.len(),
{
    if s.len() == 0 {
        None
    } else if s[0].0 == c {
        Some(0)
    } else {
        match key_index(s.drop_first(), c) {
            Some(i) => Some(i + 1),
            None => None,
        }
    }
}

/// The node reached from `n` by following the character path `p`, if the
/// path exists.
pub open spec fn node_at(n: TrieNode, p: Seq<char>) -> Option<TrieNode>
    decreases p.len(),
{
    if p.len() == 0 {
        Some(n)
    } else {
        match key_index(n.children@, p[0]) {
            Some(j) => node_at(n.children@[j].1, p.drop_first()),
            None => None,
        }
    }
}

/// Whether the pattern `p` is stored in the subtrie rooted at `n`.
pub open spec fn node_word(n: TrieNode, p: Seq<char>) -> bool {
    match node_at(n, p) {
        Some(m) => m.is_end_of_word,
        None => false,
    }
}

/// Whether some pattern stored under `n` is a literal prefix of `s`.
pub open spec fn node_prefix(n: TrieNode, s: Seq<char>) -> bool {
    exists|k: int| 0 <= k <= s.len() && node_word(n, #[trigger] s.take(k))
}

/// Whether `p` equals the first `p.len()` characters of `t`.
pub open spec fn is_prefix_of(p: Seq<char>, t: Seq<char>) -> bool {
    p.len() <= t.len() && t.take(p.len() as int) == p
}

/// No two child edges of `n` carry the same character.
pub open spec fn node_keys_unique(n: TrieNode) -> bool {
    forall|i: int, j: int|
        0 <= i < j < n.children@.len() ==> (#[trigger] n.children@[i]).0 != (
        #[trigger] n.children@[j]).0
}

/// Every node reachable from `n` has pairwise distinct child keys. Lookup
/// then never has two edges to choose from, so each stored pattern
/// corresponds to exactly one root-to-node path with its end marker set.
pub open spec fn subtrie_wf(n: TrieNode) -> bool {
    forall|p: Seq<char>|
        (match #[trigger] node_at(n, p) {
            Some(m) => node_keys_unique(m),
            None => true,
        })
}

impl Trie {
    /// The representation invariant: child keys are unique at every
    /// reachable node. Constructors establish it and `insert` preserves it.
    pub open spec fn wf(self) -> bool {
        subtrie_wf(self.root)
    }

    /// Whether the pattern `w` has been inserted into this trie.
    pub open spec fn contains_word(self, w: Seq<char>) -> bool {
        node_word(self.root, w)
    }

    /// Whether some inserted pattern is a literal prefix of `text`
    /// (including, possibly, `text` itself or the empty pattern).
    pub open spec fn spec_contains_prefix(self, text: Seq<char>) -> bool {
        node_prefix(self.root, text)
    }

    /// Create an empty trie: no pattern is stored.
    pub fn new() -> (t: Trie)
        ensures
            forall|w: Seq<char>| !t.contains_word(w),
            t.wf(),
    {
        let t = Trie { root: TrieNode { children: Vec::new(), is_end_of_word: false } };
        proof {
            assert forall|w: Seq<char>| !t.contains_word(w) by {
                lemma_childless_node_at(t.root, w);
            }
            lemma_childless_wf(t.root);
        }
        t
    }

    /// Insert `word` into the trie: afterwards exactly the previously stored
    /// patterns and `word` are stored, no node or marker is removed, and the
    /// representation invariant is preserved. Inserting a pattern that is
    /// already present leaves the stored set unchanged.
    pub fn insert(&mut self, word: &str)
        ensures
            forall|w: Seq<char>|
                final(self).contains_word(w) <==> old(self).contains_word(w) || w == word@,
            old(self).wf() ==> final(self).wf(),
    {
        let chars = chars_of(word);
        insert_at(&mut self.root, &chars, 0);
        proof {
            assert(chars@.skip(0) =~= word@);
        }
    }

    /// Walk `text` from its first character; report whether a stored pattern
    /// was completed along the way.
    pub fn contains_prefix(&self, text: &str) -> (r: bool)
        ensures
            r == self.spec_contains_prefix(text@),
    {
        let chars = chars_of(text);
        let r = contains_at(&self.root, &chars, 0);
        proof {
            assert(chars@.skip(0) =~= text@);
        }
        r
    }
}

/// Collect the characters of `s` into a vector.
pub(crate) fn chars_of(s: &str) -> (r: Vec<char>)
    ensures
        r@ == s@,
{
    let mut r: Vec<char> = Vec::new();
    for c in it: s.chars()
        invariant
            it.seq() == s@,
            r@ == it.seq().take(it.index() as int),
    {
        r.push(c);
    }
    proof {
        assert(s@.take(s@.len() as int) =~= s@);
    }
    r
}

/// Find the first child edge labelled `c`, scanning in order.
fn find_child(children: &Vec<(char, TrieNode)>, c: char) -> (r: Option<usize>)
    ensures
        match r {
            Some(j) => j < children@.len() && key_index(children@, c) == Some(j as int)
                && children@[j as int].0 == c,
            None => key_index(children@, c) is None,
        },
{
    let mut j: usize = 0;
    while j < children.len()
        invariant
            j <= children@.len(),
            forall|k: int| 0 <= k < j ==> (#[trigger] children@[k]).0 != c,
        decreases children@.len() - j,
    {
        if children[j].0 == c {
            proof {
                lemma_key_index_at(children@, c, j as int);
            }
            return Some(j);
        }
        j += 1;
    }
    proof {
        lemma_key_index(children@, c);
    }
    None
}

/// Insert the suffix of `w` starting at `i` into the subtrie rooted at
/// `node`.
fn insert_at(node: &mut TrieNode, w: &Vec<char>, i: usize)
    requires
        i <= w@.len(),
    ensures
        forall|p: Seq<char>|
            node_word(*final(node), p) <==> node_word(*old(node), p) || p == w@.skip(i as int),
        subtrie_wf(*old(node)) ==> subtrie_wf(*final(node)),
    decreases w@.len() - i,
{
    if i == w.len() {
        node.is_end_of_word = true;
        proof {
            assert(w@.skip(i as int) =~= Seq::<char>::empty());
            lemma_mark_end(*old(node), *node);
        }
    } else {
        let c = w[i];
        proof {
            lemma_skip_cons(w@, i as int);
        }
        match find_child(&node.children, c) {
            Some(j) => {
                let (ch, mut child) = node.children.remove(j);
                insert_at(&mut child, w, i + 1);
                node.children.insert(j, (ch, child));
                proof {
                    assert(node.children@ =~= old(node).children@.update(
                        j as int,
                        (c, child),
                    ));
                    lemma_update_child(
                        *old(node),
                        *node,
                        c,
                        j as int,
                        old(node).children@[j as int].1,
                        child,
                        w@.skip(i as int + 1),
                    );
                    if subtrie_wf(*old(node)) {
                        lemma_subtrie_wf_child(*old(node), c, j as int);
                        lemma_update_child_wf(*old(node), *node, c, j as int, child);
                    }
                }
            },
            None => {
                let mut fresh = TrieNode { children: Vec::new(), is_end_of_word: false };
                let ghost fresh0 = fresh;
                insert_at(&mut fresh, w, i + 1);
                node.children.push((c, fresh));
                proof {
                    lemma_push_child(*old(node), *node, c, fresh, w@.skip(i as int + 1));
                    if subtrie_wf(*old(node)) {
                        lemma_childless_wf(fresh0);
                        lemma_push_child_wf(*old(node), *node, c, fresh);
                    }
                }
            },
        }
    }
}

/// Walk the suffix of `t` starting at `i` through the subtrie rooted at `n`.
fn contains_at(n: &TrieNode, t: &Vec<char>, i: usize) -> (r: bool)
    requires
        i <= t@.len(),
    ensures
        r == node_prefix(*n, t@.skip(i as int)),
    decreases t@.len() - i,
{
    let ghost s = t@.skip(i as int);
    if n.is_end_of_word {
        proof {
            assert(s.take(0) =~= Seq::<char>::empty());
            assert(node_word(*n, s.take(0)));
        }
        true
    } else if i == t.len() {
        proof {
            assert(s.len() == 0);
            assert forall|k: int| 0 <= k <= s.len() implies !node_word(*n, #[trigger] s.take(k)) by {
                assert(s.take(k) =~= Seq::<char>::empty());
            }
        }
        false
    } else {
        proof {
            lemma_node_prefix_step(*n, s);
        }
        let c = t[i];
        match find_child(&n.children, c) {
            Some(j) => {
                let pair = &n.children[j];
                let r = contains_at(&pair.1, t, i + 1);
                proof {
                    assert(s.drop_first() =~= t@.skip(i as int + 1));
                    assert(s[0] == c);
                }
                r
            },
            None => {
                proof {
                    assert(s[0] == c);
                }
                false
            },
        }
    }
}

/// A node without children reaches nothing but itself.
proof fn lemma_childless_node_at(n: TrieNode, p: Seq<char>)
    requires
        n.children@.len() == 0,
    ensures
        node_at(n, p) == if p.len() == 0 {
            Some(n)
        } else {
            None::<TrieNode>
        },
{
}

/// What `key_index` returns: the first position holding the key `c`.
proof fn lemma_key_index(s: Seq<(char, TrieNode)>, c: char)
    ensures
        match key_index(s, c) {
            Some(j) => 0 <= j < s.len() && s[j].0 == c && forall|k: int|
                0 <= k < j ==> (#[trigger] s[k]).0 != c,
            None => forall|k: int| 0 <= k < s.len() ==> (#[trigger] s[k]).0 != c,
        },
    decreases s.len(),
{
    if s.len() > 0 && s[0].0 != c {
        lemma_key_index(s.drop_first(), c);
        assert forall|k: int| 1 <= k < s.len() implies (#[trigger] s[k]).0 == s.drop_first()[
            k - 1
        ].0 by {}
    }
}

/// The first position holding key `c` is what `key_index` returns.
proof fn lemma_key_index_at(s: Seq<(char, TrieNode)>, c: char, j: int)
    requires
        0 <= j < s.len(),
        s[j].0 == c,
        forall|k: int| 0 <= k < j ==> (#[trigger] s[k]).0 != c,
    ensures
        key_index(s, c) == Some(j),
    decreases s.len(),
{
    if j > 0 {
        lemma_key_index_at(s.drop_first(), c, j - 1);
    }
}

/// Sequences with pointwise equal keys agree on `key_index`.
proof fn lemma_key_index_same_keys(s1: Seq<(char, TrieNode)>, s2: Seq<(char, TrieNode)>, c: char)
    requires
        s1.len() == s2.len(),
        forall|k: int| 0 <= k < s1.len() ==> (#[trigger] s1[k]).0 == s2[k].0,
    ensures
        key_index(s1, c) == key_index(s2, c),
    decreases s1.len(),
{
    if s1.len() > 0 {
        lemma_key_index_same_keys(s1.drop_first(), s2.drop_first(), c);
    }
}

/// `key_index` after appending one pair at the back.
proof fn lemma_key_index_push(s: Seq<(char, TrieNode)>, x: (char, TrieNode), c: char)
    ensures
        key_index(s.push(x), c) == if key_index(s, c) is Some {
            key_index(s, c)
        } else if x.0 == c {
            Some(s.len() as int)
        } else {
            None::<int>
        },
    decreases s.len(),
{
    let t = s.push(x);
    assert(t.len() == s.len() + 1);
    if s.len() == 0 {
        assert(t[0] == x);
        if x.0 == c {
            assert(key_index(t, c) == Some(0int));
        } else {
            assert(t.drop_first() =~= Seq::<(char, TrieNode)>::empty());
            assert(key_index(t.drop_first(), c) is None);
            assert(key_index(t, c) is None);
        }
    } else {
        assert(t[0] == s[0]);
        assert(t.drop_first() =~= s.drop_first().push(x));
        lemma_key_index_push(s.drop_first(), x, c);
        if s[0].0 == c {
            assert(key_index(t, c) == Some(0int));
            assert(key_index(s, c) == Some(0int));
        } else {
            assert(key_index(t, c) == match key_index(t.drop_first(), c) {
                Some(i) => Some(i + 1),
                None => None::<int>,
            });
            assert(key_index(s, c) == match key_index(s.drop_first(), c) {
                Some(i) => Some(i + 1),
                None => None::<int>,
            });
        }
    }
}

/// Splitting a nonempty prefix bound: `s.take(k)` with its head removed is a
/// prefix of `s` with its head removed.
proof fn lemma_take_drop(s: Seq<char>, k: int)
    requires
        0 < k <= s.len(),
    ensures
        s.take(k).drop_first() =~= s.drop_first().take(k - 1),
{
}

/// A suffix of `s` decomposes into its first character and the next suffix.
proof fn lemma_skip_cons(s: Seq<char>, i: int)
    requires
        0 <= i < s.len(),
    ensures
        s.skip(i) =~= seq![s[i]] + s.skip(i + 1),
{
}

/// Equality with a cons-shaped sequence, characterwise.
proof fn lemma_cons_eq(p: Seq<char>, c: char, tail: Seq<char>)
    ensures
        (p == seq![c] + tail) <==> (p.len() == tail.len() + 1 && p.len() > 0 && p[0] == c
            && p.drop_first() == tail),
{
    if p.len() == tail.len() + 1 && p.len() > 0 && p[0] == c && p.drop_first() == tail {
        assert(p =~= seq![c] + tail);
    }
    if p == seq![c] + tail {
        assert(p.drop_first() =~= tail);
    }
}

/// A node without children satisfies the reachable-keys invariant.
proof fn lemma_childless_wf(n: TrieNode)
    requires
        n.children@.len() == 0,
    ensures
        subtrie_wf(n),
{
    assert forall|p: Seq<char>|
        (match #[trigger] node_at(n, p) {
            Some(m) => node_keys_unique(m),
            None => true,
        }) by {
        lemma_childless_node_at(n, p);
    }
}

/// The invariant passes from a node to the subtrie under any of its edges.
proof fn lemma_subtrie_wf_child(n: TrieNode, c: char, j: int)
    requires
        subtrie_wf(n),
        key_index(n.children@, c) == Some(j),
    ensures
        subtrie_wf(n.children@[j].1),
{
    lemma_key_index(n.children@, c);
    let child = n.children@[j].1;
    assert forall|p: Seq<char>|
        (match #[trigger] node_at(child, p) {
            Some(m) => node_keys_unique(m),
            None => true,
        }) by {
        let q = seq![c] + p;
        assert(q.len() == p.len() + 1);
        assert(q[0] == c);
        assert(q.drop_first() =~= p);
        assert(node_at(n, q) == node_at(child, p));
    }
}

/// Setting the end marker stores exactly the empty pattern in addition, and
/// keeps the reachable-keys invariant.
proof fn lemma_mark_end(n1: TrieNode, n2: TrieNode)
    requires
        n2.children@ == n1.children@,
        n2.is_end_of_word,
    ensures
        forall|p: Seq<char>|
            node_word(n2, p) <==> node_word(n1, p) || p == Seq::<char>::empty(),
        subtrie_wf(n1) ==> subtrie_wf(n2),
{
    assert forall|p: Seq<char>|
        node_word(n2, p) <==> node_word(n1, p) || p == Seq::<char>::empty() by {
        if p.len() == 0 {
            assert(p =~= Seq::<char>::empty());
        } else {
            assert(node_at(n2, p) == node_at(n1, p));
        }
    }
    if subtrie_wf(n1) {
        assert forall|p: Seq<char>|
            (match #[trigger] node_at(n2, p) {
                Some(m) => node_keys_unique(m),
                None => true,
            }) by {
            if p.len() == 0 {
                assert(node_at(n1, p) == Some(n1));
            } else {
                assert(node_at(n2, p) == node_at(n1, p));
            }
        }
    }
}

/// Replacing the subtree under one child edge keeps the reachable-keys
/// invariant, provided the new subtree satisfies it.
proof fn lemma_update_child_wf(n1: TrieNode, n2: TrieNode, c: char, j: int, c2: TrieNode)
    requires
        subtrie_wf(n1),
        subtrie_wf(c2),
        key_index(n1.children@, c) == Some(j),
        n2.children@ == n1.children@.update(j, (c, c2)),
    ensures
        subtrie_wf(n2),
{
    lemma_key_index(n1.children@, c);
    assert forall|p: Seq<char>|
        (match #[trigger] node_at(n2, p) {
            Some(m) => node_keys_unique(m),
            None => true,
        }) by {
        if p.len() == 0 {
            assert(node_at(n1, p) == Some(n1));
            assert(node_keys_unique(n1));
            assert forall|a: int, b: int|
                0 <= a < b < n2.children@.len() implies (#[trigger] n2.children@[a]).0 != (
            #[trigger] n2.children@[b]).0 by {
                assert(n2.children@[a].0 == n1.children@[a].0);
                assert(n2.children@[b].0 == n1.children@[b].0);
            }
        } else {
            let k = p[0];
            lemma_key_index_same_keys(n1.children@, n2.children@, k);
            lemma_key_index(n1.children@, k);
            match key_index(n1.children@, k) {
                Some(m) => {
                    if k == c {
                        assert(m == j);
                        assert(node_at(n2, p) == node_at(c2, p.drop_first()));
                    } else {
                        assert(m != j);
                        assert(n2.children@[m] == n1.children@[m]);
                        assert(node_at(n2, p) == node_at(n1, p));
                    }
                },
                None => {},
            }
        }
    }
}

/// Appending a child edge for a fresh character keeps the reachable-keys
/// invariant, provided the new subtree satisfies it.
proof fn lemma_push_child_wf(n1: TrieNode, n2: TrieNode, c: char, c2: TrieNode)
    requires
        subtrie_wf(n1),
        subtrie_wf(c2),
        key_index(n1.children@, c) is None,
        n2.children@ == n1.children@.push((c, c2)),
    ensures
        subtrie_wf(n2),
{
    lemma_key_index(n1.children@, c);
    assert forall|p: Seq<char>|
        (match #[trigger] node_at(n2, p) {
            Some(m) => node_keys_unique(m),
            None => true,
        }) by {
        if p.len() == 0 {
            assert(node_at(n1, p) == Some(n1));
            assert(node_keys_unique(n1));
            assert forall|a: int, b: int|
                0 <= a < b < n2.children@.len() implies (#[trigger] n2.children@[a]).0 != (
            #[trigger] n2.children@[b]).0 by {
                assert(n2.children@[a] == n1.children@[a]);
                if b < n1.children@.len() {
                    assert(n2.children@[b] == n1.children@[b]);
                } else {
                    assert(n2.children@[b] == (c, c2));
                }
            }
        } else {
            let k = p[0];
            lemma_key_index_push(n1.children@, (c, c2), k);
            lemma_key_index(n1.children@, k);
            match key_index(n1.children@, k) {
                Some(m) => {
                    assert(n2.children@[m] == n1.children@[m]);
                    assert(node_at(n2, p) == node_at(n1, p));
                },
                None => {
                    if k == c {
                        assert(n2.children@[n1.children@.len() as int] == (c, c2));
                        assert(node_at(n2, p) == node_at(c2, p.drop_first()));
                    }
                },
            }
        }
    }
}

/// Replacing the subtree under one child edge rewrites exactly the patterns
/// routed through that edge.
proof fn lemma_update_child(
    n1: TrieNode,
    n2: TrieNode,
    c: char,
    j: int,
    c1: TrieNode,
    c2: TrieNode,
    tail: Seq<char>,
)
    requires
        key_index(n1.children@, c) == Some(j),
        c1 == n1.children@[j].1,
        n2.children@ == n1.children@.update(j, (c, c2)),
        n2.is_end_of_word == n1.is_end_of_word,
        forall|q: Seq<char>| #[trigger] node_word(c2, q) <==> node_word(c1, q) || q == tail,
    ensures
        forall|p: Seq<char>|
            #[trigger] node_word(n2, p) <==> node_word(n1, p) || p == seq![c] + tail,
{
    lemma_key_index(n1.children@, c);
    assert forall|p: Seq<char>|
        #[trigger] node_word(n2, p) <==> node_word(n1, p) || p == seq![c] + tail by {
        lemma_cons_eq(p, c, tail);
        if p.len() == 0 {
        } else {
            let k = p[0];
            lemma_key_index_same_keys(n1.children@, n2.children@, k);
            lemma_key_index(n1.children@, k);
            match key_index(n1.children@, k) {
                Some(m) => {
                    if k == c {
                        assert(m == j);
                        assert(node_at(n2, p) == node_at(c2, p.drop_first()));
                        assert(node_at(n1, p) == node_at(c1, p.drop_first()));
                        assert(node_word(n2, p) == node_word(c2, p.drop_first()));
                        assert(node_word(n1, p) == node_word(c1, p.drop_first()));
                    } else {
                        assert(m != j);
                        assert(n2.children@[m] == n1.children@[m]);
                        assert(node_at(n2, p) == node_at(n1, p));
                    }
                },
                None => {},
            }
        }
    }
}

/// Appending a child edge for a fresh character adds exactly the patterns
/// routed through that edge.
proof fn lemma_push_child(n1: TrieNode, n2: TrieNode, c: char, c2: TrieNode, tail: Seq<char>)
    requires
        key_index(n1.children@, c) is None,
        n2.children@ == n1.children@.push((c, c2)),
        n2.is_end_of_word == n1.is_end_of_word,
        forall|q: Seq<char>| #[trigger] node_word(c2, q) <==> q == tail,
    ensures
        forall|p: Seq<char>|
            #[trigger] node_word(n2, p) <==> node_word(n1, p) || p == seq![c] + tail,
{
    lemma_key_index(n1.children@, c);
    assert forall|p: Seq<char>|
        #[trigger] node_word(n2, p) <==> node_word(n1, p) || p == seq![c] + tail by {
        lemma_cons_eq(p, c, tail);
        if p.len() == 0 {
        } else {
            let k = p[0];
            lemma_key_index_push(n1.children@, (c, c2), k);
            lemma_key_index(n1.children@, k);
            match key_index(n1.children@, k) {
                Some(m) => {
                    assert(n2.children@[m] == n1.children@[m]);
                    assert(node_at(n2, p) == node_at(n1, p));
                },
                None => {
                    if k == c {
                        assert(n2.children@[n1.children@.len() as int] == (c, c2));
                        assert(node_at(n2, p) == node_at(c2, p.drop_first()));
                        assert(node_word(n2, p) == node_word(c2, p.drop_first()));
                        assert(node_at(n1, p) is None);
                    }
                },
            }
        }
    }
}

/// One step of the prefix walk: a stored pattern prefixes `s` exactly when
/// one ends here, or one stored under the matching child prefixes the rest.
proof fn lemma_node_prefix_step(n: TrieNode, s: Seq<char>)
    requires
        s.len() > 0,
    ensures
        node_prefix(n, s) == (n.is_end_of_word || match key_index(n.children@, s[0]) {
            Some(j) => node_prefix(n.children@[j].1, s.drop_first()),
            None => false,
        }),
{
    if node_prefix(n, s) {
        let k = choose|k: int| 0 <= k <= s.len() && node_word(n, #[trigger] s.take(k));
        if k == 0 {
            assert(s.take(0) =~= Seq::<char>::empty());
        } else {
            assert(s.take(k)[0] == s[0]);
            lemma_take_drop(s, k);
            match key_index(n.children@, s[0]) {
                Some(j) => {
                    assert(node_word(n.children@[j].1, s.drop_first().take(k - 1)));
                    assert(node_prefix(n.children@[j].1, s.drop_first()));
                },
                None => {},
            }
        }
    }
    if n.is_end_of_word {
        assert(s.take(0) =~= Seq::<char>::empty());
        assert(node_word(n, s.take(0)));
        assert(node_prefix(n, s));
    }
    match key_index(n.children@, s[0]) {
        Some(j) => {
            if node_prefix(n.children@[j].1, s.drop_first()) {
                let k = choose|k: int|
                    0 <= k <= s.drop_first().len() && node_word(
                        n.children@[j].1,
                        #[trigger] s.drop_first().take(k),
                    );
                lemma_take_drop(s, k + 1);
                assert(s.take(k + 1)[0] == s[0]);
                assert(node_word(n, s.take(k + 1)));
                assert(node_prefix(n, s));
            }
        },
        None => {},
    }
}

/// Every pattern stored in a trie matches, as a prefix, any text that starts
/// with it.
pub proof fn lemma_inserted_prefix_matches(t: Trie, p: Seq<char>, text: Seq<char>)
    requires
        t.contains_word(p),
        is_prefix_of(p, text),
    ensures
        t.spec_contains_prefix(text),
{
    assert(0 <= p.len() <= text.len() && node_word(t.root, text.take(p.len() as int)));
}

/// Querying the empty text matches exactly when the empty pattern was
/// inserted.
pub proof fn lemma_empty_text(t: Trie)
    ensures
        t.spec_contains_prefix(Seq::<char>::empty()) <==> t.contains_word(Seq::<char>::empty()),
{
    if t.spec_contains_prefix(Seq::<char>::empty()) {
        let k = choose|k: int|
            0 <= k <= Seq::<char>::empty().len() && node_word(
                t.root,
                #[trigger] Seq::<char>::empty().take(k),
            );
        assert(Seq::<char>::empty().take(k) =~= Seq::<char>::empty());
    }
    if t.contains_word(Seq::<char>::empty()) {
        assert(Seq::<char>::empty().take(0) =~= Seq::<char>::empty());
        assert(node_word(t.root, Seq::<char>::empty().take(0)));
    }
}

/// A text that starts with no stored pattern does not match.
pub proof fn lemma_no_inserted_prefix(t: Trie, text: Seq<char>)
    requires
        forall|p: Seq<char>| t.contains_word(p) ==> !is_prefix_of(p, text),
    ensures
        !t.spec_contains_prefix(text),
{
    assert forall|k: int| 0 <= k <= text.len() implies !node_word(t.root, #[trigger] text.take(k)) by {
        if node_word(t.root, text.take(k)) {
            assert(t.contains_word(text.take(k)));
            assert(is_prefix_of(text.take(k), text));
        }
    }
}

/// Tries storing the same patterns answer every prefix query alike; with
/// `insert`'s postcondition this says that re-inserting a stored pattern
/// changes no observable behaviour.
pub proof fn lemma_same_words_same_prefixes(a: Trie, b: Trie, text: Seq<char>)
    requires
        forall|w: Seq<char>| a.contains_word(w) <==> b.contains_word(w),
    ensures
        a.spec_contains_prefix(text) == b.spec_contains_prefix(text),
{
    assert forall|k: int|
        0 <= k <= text.len() implies (node_word(a.root, #[trigger] text.take(k)) <==> node_word(
        b.root,
        text.take(k),
    )) by {
        assert(a.contains_word(text.take(k)) <==> b.contains_word(text.take(k)));
    }
}

/// Inserting a pattern that a trie already stores yields a trie that answers
/// every prefix query exactly as before.
pub proof fn lemma_insert_idempotent(a: Trie, b: Trie, p: Seq<char>, text: Seq<char>)
    requires
        a.contains_word(p),
        forall|w: Seq<char>| b.contains_word(w) <==> a.contains_word(w) || w == p,
    ensures
        a.spec_contains_prefix(text) == b.spec_contains_prefix(text),
{
    lemma_same_words_same_prefixes(a, b, text);
}

/// The views of the strings in a pattern list.
pub open spec fn patterns_view(pats: Seq<&str>) -> Seq<Seq<char>> {
    pats.map_values(|p: &str| p@)
}

/// Whether some pattern in the list is a literal prefix of `text`.
pub open spec fn list_prefix_match(pats: Seq<Seq<char>>, text: Seq<char>) -> bool {
    exists|i: int| 0 <= i < pats.len() && is_prefix_of(#[trigger] pats[i], text)
}

/// Whether `t` stores exactly the patterns listed in `pats`.
pub open spec fn trie_stores(t: Trie, pats: Seq<&str>) -> bool {
    forall|w: Seq<char>|
        #[trigger] t.contains_word(w) <==> exists|i: int|
            0 <= i < pats.len() && w == (#[trigger] pats[i])@
}

/// Build a trie storing exactly the given patterns.
pub fn trie_from_patterns(patterns: &Vec<&str>) -> (t: Trie)
    ensures
        trie_stores(t, patterns@),
        t.wf(),
{
    let mut t = Trie::new();
    for k in iter: 0..patterns.len()
        invariant
            t.wf(),
            forall|w: Seq<char>|
                #[trigger] t.contains_word(w) <==> exists|i: int|
                    0 <= i < k && w == (#[trigger] patterns@[i])@,
    {
        t.insert(patterns[k]);
    }
    t
}

/// A trie storing exactly the patterns in a list matches a text exactly when
/// some listed pattern is a prefix of it.
pub proof fn lemma_list_trie_prefix(t: Trie, patterns: Seq<&str>, text: Seq<char>)
    requires
        trie_stores(t, patterns),
    ensures
        t.spec_contains_prefix(text) <==> exists|i: int|
            0 <= i < patterns.len() && is_prefix_of((#[trigger] patterns[i])@, text),
{
    if t.spec_contains_prefix(text) {
        let k = choose|k: int| 0 <= k <= text.len() && node_word(t.root, #[trigger] text.take(k));
        assert(t.contains_word(text.take(k)));
        let i = choose|i: int| 0 <= i < patterns.len() && text.take(k) == (#[trigger] patterns[i])@;
        assert(is_prefix_of(patterns[i]@, text));
    }
    if exists|i: int| 0 <= i < patterns.len() && is_prefix_of((#[trigger] patterns[i])@, text) {
        let i = choose|i: int| 0 <= i < patterns.len() && is_prefix_of((#[trigger] patterns[i])@, text);
        let p = patterns[i]@;
        assert(t.contains_word(text.take(p.len() as int)));
        assert(node_word(t.root, text.take(p.len() as int)));
        assert(t.spec_contains_prefix(text));
    }
}

/// The same, phrased over the pattern views: a trie storing a list matches a
/// text exactly when some view in the list prefixes it.
pub proof fn lemma_trie_list_prefix_view(t: Trie, pats: Seq<&str>, text: Seq<char>)
    requires
        trie_stores(t, pats),
    ensures
        t.spec_contains_prefix(text) <==> list_prefix_match(patterns_view(pats), text),
{
    lemma_list_trie_prefix(t, pats, text);
    if exists|i: int| 0 <= i < pats.len() && is_prefix_of((#[trigger] pats[i])@, text) {
        let i = choose|i: int| 0 <= i < pats.len() && is_prefix_of((#[trigger] pats[i])@, text);
        assert(patterns_view(pats)[i] == pats[i]@);
        assert(is_prefix_of(patterns_view(pats)[i], text));
    }
    if list_prefix_match(patterns_view(pats), text) {
        let i = choose|i: int|
            0 <= i < patterns_view(pats).len() && is_prefix_of(#[trigger] patterns_view(pats)[i], text);
        assert(patterns_view(pats)[i] == pats[i]@);
        assert(is_prefix_of(pats[i]@, text));
    }
}


} // verus!
