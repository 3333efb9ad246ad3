//! Cache of filter results keyed by query string.
//!
//! Stores every query whose evaluation produced a useful result, supports an
//! exact lookup, and a longest-prefix lookup that keeps the view showing
//! something sensible while the user is in the middle of typing a query.

use vstd::prelude::*;

use crate::strutil::{is_prefix, is_prefix_of};

verus! {

/// Maps filter queries to the result each one produced, where a result is the
/// sequence of the canonical texts of the produced JSON values.
pub struct FilterTrie {
    pub keys: Vec<String>,
    pub vals: Vec<Vec<String>>,
}

impl FilterTrie {
    /// Keys are stored at most once, and each key has a value.
    pub open spec fn wf(self) -> bool {
        &&& self.keys@.len() == self.vals@.len()
        &&& forall|i: int, j: int|
            0 <= i < j < self.keys@.len() ==> self.keys@[i]@ != self.keys@[j]@
    }

    /// The stored keys.
    pub open spec fn keys_view(self) -> Seq<String> {
        self.keys@
    }

    /// Some stored key reads `q`.
    pub open spec fn has_key(self, q: Seq<char>) -> bool {
        exists|i: int| 0 <= i < self.keys@.len() && self.keys@[i]@ == q
    }

    /// Index of the stored key that reads `q`.
    pub open spec fn key_index(self, q: Seq<char>) -> int {
        choose|i: int| 0 <= i < self.keys@.len() && self.keys@[i]@ == q
    }

    /// What the exact lookup returns.
    pub open spec fn exact_spec(self, q: Seq<char>) -> Option<Seq<String>> {
        if self.has_key(q) {
            Some(self.vals@[self.key_index(q)]@)
        } else {
            None
        }
    }

    /// Some stored key is a prefix of `q`.
    pub open spec fn has_prefix_key(self, q: Seq<char>) -> bool {
        exists|i: int| 0 <= i < self.keys@.len() && is_prefix(#[trigger] self.keys@[i]@, q)
    }

    /// The key at `i` is a prefix of `q` and no stored prefix of `q` is longer.
    pub open spec fn is_deepest(self, q: Seq<char>, i: int) -> bool {
        &&& 0 <= i < self.keys@.len()
        &&& is_prefix(self.keys@[i]@, q)
        &&& forall|j: int|
            0 <= j < self.keys@.len() && is_prefix(#[trigger] self.keys@[j]@, q)
                ==> self.keys@[j]@.len() <= self.keys@[i]@.len()
    }

    /// Index of the longest stored key that is a prefix of `q`.
    pub open spec fn deepest_index(self, q: Seq<char>) -> int {
        choose|i: int| self.is_deepest(q, i)
    }

    /// What the longest-prefix lookup returns.
    pub open spec fn prefix_spec(self, q: Seq<char>) -> Option<Seq<String>> {
        if self.has_prefix_key(q) {
            Some(self.vals@[self.deepest_index(q)]@)
        } else {
            None
        }
    }

    /// Two deepest indices coincide: their keys are equally long prefixes of
    /// the same query, hence equal, and equal keys share one slot.
    proof fn lemma_deepest_unique(self, q: Seq<char>, i: int, j: int)
        requires
            self.wf(),
            self.is_deepest(q, i),
            self.is_deepest(q, j),
        ensures
            i == j,
    {
        assert(self.keys@[i]@.len() == self.keys@[j]@.len());
        assert(self.keys@[i]@ =~= self.keys@[j]@);
        if i != j {
            assert(self.keys@[i]@ != self.keys@[j]@);
        }
    }

    /// With a witness for `q` among the keys, the chosen index fits it.
    proof fn lemma_key_index(self, q: Seq<char>, i: int)
        requires
            self.wf(),
            0 <= i < self.keys@.len(),
            self.keys@[i]@ == q,
        ensures
            self.has_key(q),
            self.key_index(q) == i,
    {
        assert(self.has_key(q));
        let ki = self.key_index(q);
        assert(0 <= ki < self.keys@.len() && self.keys@[ki]@ == q);
        if ki != i {
            assert(self.keys@[ki]@ != self.keys@[i]@);
        }
    }

    pub fn new() -> (r: FilterTrie)
        ensures
            r.wf(),
            r.keys_view().len() == 0,
            forall|q: Seq<char>| r.exact_spec(q) is None,
            forall|q: Seq<char>| r.prefix_spec(q) is None,
    {
        FilterTrie { keys: Vec::new(), vals: Vec::new() }
    }

    /// Position of the stored key equal to `query`, if any.
    fn find(&self, query: &str) -> (r: Option<usize>)
        ensures
            match r {
                Some(i) => i < self.keys@.len() && self.keys@[i as int]@ == query@,
                None => !self.has_key(query@),
            },
    {
        let q = query.to_owned();
        let n = self.keys.len();
        let mut i: usize = 0;
        while i < n
            invariant
                i <= n,
                n == self.keys@.len(),
                q@ == query@,
                forall|j: int| 0 <= j < i ==> self.keys@[j]@ != query@,
            decreases n - i,
        {
            if self.keys[i] == q {
                return Some(i);
            }
            i += 1;
        }
        None
    }

    /// Stores `json_nodes` for `query`, replacing any earlier entry; every
    /// other entry is untouched, so a stored result stays retrievable for as
    /// long as the cache lives.
    pub fn insert(&mut self, query: &str, json_nodes: Vec<String>)
        requires
            old(self).wf(),
        ensures
            final(self).wf(),
            final(self).exact_spec(query@) == Some(json_nodes@),
            forall|k: Seq<char>|
                k != query@ ==> final(self).exact_spec(k) == old(self).exact_spec(k),
    {
        let ghost before = *self;
        match self.find(query) {
            Some(i) => {
                self.vals.set(i, json_nodes);
                proof {
                    assert(self.keys@ == before.keys@);
                    self.lemma_key_index(query@, i as int);
                    assert forall|k: Seq<char>| k != query@ implies
                        self.exact_spec(k) == before.exact_spec(k) by {
                        if before.has_key(k) {
                            let bi = before.key_index(k);
                            assert(0 <= bi < before.keys@.len() && before.keys@[bi]@ == k);
                            self.lemma_key_index(k, bi);
                            assert(bi != i as int);
                        }
                    }
                }
            },
            None => {
                let owned = query.to_owned();
                self.keys.push(owned);
                self.vals.push(json_nodes);
                proof {
                    let n = before.keys@.len() as int;
                    assert(self.keys@[n]@ == query@);
                    assert(self.wf()) by {
                        assert forall|a: int, b: int|
                            0 <= a < b < self.keys@.len() implies self.keys@[a]@ != self.keys@[b]@
                            by {
                            if b == n {
                                assert(self.keys@[a]@ == before.keys@[a]@);
                                if self.keys@[a]@ == query@ {
                                    assert(before.has_key(query@));
                                }
                            }
                        }
                    }
                    self.lemma_key_index(query@, n);
                    assert forall|k: Seq<char>| k != query@ implies
                        self.exact_spec(k) == before.exact_spec(k) by {
                        if before.has_key(k) {
                            let bi = before.key_index(k);
                            assert(0 <= bi < before.keys@.len() && before.keys@[bi]@ == k);
                            assert(self.keys@[bi]@ == k);
                            self.lemma_key_index(k, bi);
                        } else {
                            if self.has_key(k) {
                                let si = self.key_index(k);
                                assert(0 <= si < self.keys@.len() && self.keys@[si]@ == k);
                                if si < n {
                                    assert(before.keys@[si]@ == k);
                                    assert(before.has_key(k));
                                } else {
                                    assert(self.keys@[si]@ == query@);
                                }
                            }
                        }
                    }
                }
            },
        }
    }

    /// Returns the stored result for this exact query.
    pub fn exact_search(&self, query: &str) -> (r: Option<&Vec<String>>)
        requires
            self.wf(),
        ensures
            match r {
                Some(v) => self.exact_spec(query@) == Some(v@),
                None => self.exact_spec(query@) is None,
            },
    {
        match self.find(query) {
            Some(i) => {
                proof {
                    self.lemma_key_index(query@, i as int);
                }
                Some(&self.vals[i])
            },
            None => None,
        }
    }

    /// Returns the result stored at the longest key that is a prefix of
    /// `query`, or nothing when no stored key is a prefix.
    pub fn prefix_search(&self, query: &str) -> (r: Option<&Vec<String>>)
        requires
            self.wf(),
        ensures
            match r {
                Some(v) => self.prefix_spec(query@) == Some(v@),
                None => self.prefix_spec(query@) is None,
            },
    {
        let n = self.keys.len();
        let mut best: Option<usize> = None;
        let mut best_len: usize = 0;
        let mut i: usize = 0;
        while i < n
            invariant
                i <= n,
                n == self.keys@.len(),
                self.wf(),
                match best {
                    Some(b) => {
                        &&& (b as int) < i as int
                        &&& is_prefix(self.keys@[b as int]@, query@)
                        &&& best_len == self.keys@[b as int]@.len()
                        &&& forall|j: int|
                            0 <= j < i && is_prefix(#[trigger] self.keys@[j]@, query@)
                                ==> self.keys@[j]@.len() <= best_len
                    },
                    None => forall|j: int|
                        0 <= j < i ==> !is_prefix(#[trigger] self.keys@[j]@, query@),
                },
            decreases n - i,
    {
            if is_prefix_of(self.keys[i].as_str(), query) {
                let klen = self.keys[i].as_str().unicode_len();
                match best {
                    Some(_) => {
                        if klen > best_len {
                            best = Some(i);
                            best_len = klen;
                        }
                    },
                    None => {
                        best = Some(i);
                        best_len = klen;
                    },
                }
            }
            i += 1;
        }
        match best {
            Some(b) => {
                proof {
                    assert(self.is_deepest(query@, b as int));
                    assert(self.has_prefix_key(query@));
                    let di = self.deepest_index(query@);
                    assert(self.is_deepest(query@, di));
                    self.lemma_deepest_unique(query@, b as int, di);
                }
                Some(&self.vals[b])
            },
            None => None,
        }
    }

    /// The longest-prefix lookup finds the deepest stored ancestor of `q`:
    /// when it returns nothing, no stored key is a prefix of `q`; when it
    /// returns a result, that result is stored at a key that is a prefix of
    /// `q` at least as long as every other stored prefix of `q`.
    pub proof fn lemma_longest_prefix(self, q: Seq<char>)
        requires
            self.wf(),
        ensures
            self.prefix_spec(q) is None ==> forall|i: int|
                0 <= i < self.keys_view().len()
                    ==> !is_prefix(#[trigger] self.keys_view()[i]@, q),
            self.prefix_spec(q) is Some ==> {
                let d = self.deepest_index(q);
                &&& self.is_deepest(q, d)
                &&& self.prefix_spec(q) == Some(self.vals@[d]@)
            },
    {
        if self.has_prefix_key(q) {
            self.lemma_deepest_exists(q);
        }
    }

    /// The key at `i` lies below `m` and is a prefix of `q`.
    spec fn prefix_below(self, q: Seq<char>, m: int, i: int) -> bool {
        0 <= i < m && i < self.keys@.len() && is_prefix(self.keys@[i]@, q)
    }

    /// The key at `i` is a longest prefix of `q` among those below `m`.
    spec fn best_below(self, q: Seq<char>, m: int, i: int) -> bool {
        &&& self.prefix_below(q, m, i)
        &&& forall|j: int|
            #[trigger] self.prefix_below(q, m, j) ==> self.keys@[j]@.len()
                <= self.keys@[i]@.len()
    }

    /// Among the stored prefixes of `q` there is a longest one.
    proof fn lemma_deepest_exists(self, q: Seq<char>)
        requires
            self.wf(),
            self.has_prefix_key(q),
        ensures
            self.is_deepest(q, self.deepest_index(q)),
    {
        let n = self.keys@.len() as int;
        let w0 = choose|i: int|
            0 <= i < self.keys@.len() && is_prefix(#[trigger] self.keys@[i]@, q);
        assert(self.prefix_below(q, n, w0));
        self.lemma_deepest_exists_upto(q, n);
        let b = choose|i: int| #[trigger] self.best_below(q, n, i);
        assert(self.is_deepest(q, b)) by {
            assert forall|j: int|
                0 <= j < self.keys@.len() && is_prefix(#[trigger] self.keys@[j]@, q)
                    implies self.keys@[j]@.len() <= self.keys@[b]@.len() by {
                assert(self.prefix_below(q, n, j));
            }
        }
        assert(self.is_deepest(q, self.deepest_index(q)));
    }

    /// If some key below `m` is a prefix of `q`, a longest one below `m`
    /// exists.
    proof fn lemma_deepest_exists_upto(self, q: Seq<char>, m: int)
        requires
            self.wf(),
            0 <= m <= self.keys@.len(),
            exists|i: int| #[trigger] self.prefix_below(q, m, i),
        ensures
            exists|i: int| #[trigger] self.best_below(q, m, i),
        decreases m,
    {
        let w = choose|i: int| #[trigger] self.prefix_below(q, m, i);
        if exists|i: int| #[trigger] self.prefix_below(q, m - 1, i) {
            self.lemma_deepest_exists_upto(q, m - 1);
            let b = choose|i: int| #[trigger] self.best_below(q, m - 1, i);
            if self.prefix_below(q, m, m - 1)
                && self.keys@[m - 1]@.len() > self.keys@[b]@.len() {
                assert forall|j: int| #[trigger] self.prefix_below(q, m, j)
                    implies self.keys@[j]@.len() <= self.keys@[m - 1]@.len() by {
                    if j < m - 1 {
                        assert(self.prefix_below(q, m - 1, j));
                    }
                }
                assert(self.best_below(q, m, m - 1));
            } else {
                assert forall|j: int| #[trigger] self.prefix_below(q, m, j)
                    implies self.keys@[j]@.len() <= self.keys@[b]@.len() by {
                    if j < m - 1 {
                        assert(self.prefix_below(q, m - 1, j));
                    }
                }
                assert(self.prefix_below(q, m, b));
                assert(self.best_below(q, m, b));
            }
        } else {
            assert(w == m - 1) by {
                if w < m - 1 {
                    assert(self.prefix_below(q, m - 1, w));
                }
            }
            assert forall|j: int| #[trigger] self.prefix_below(q, m, j)
                implies self.keys@[j]@.len() <= self.keys@[w]@.len() by {
                if j < m - 1 {
                    assert(self.prefix_below(q, m - 1, j));
                }
            }
            assert(self.best_below(q, m, w));
        }
    }

    /// A cached exact hit is also what the longest-prefix lookup returns:
    /// the key `q` itself is the longest possible prefix of `q`.
    pub proof fn lemma_exact_implies_prefix(self, q: Seq<char>, r: Seq<String>)
        requires
            self.wf(),
            self.exact_spec(q) == Some(r),
        ensures
            self.prefix_spec(q) == Some(r),
    {
        let e = self.key_index(q);
        assert(0 <= e < self.keys@.len() && self.keys@[e]@ == q);
        assert(is_prefix(q, q)) by {
            assert(q.subrange(0, q.len() as int) =~= q);
        }
        assert(self.is_deepest(q, e));
        assert(self.has_prefix_key(q));
        let d = self.deepest_index(q);
        assert(self.is_deepest(q, d));
        self.lemma_deepest_unique(q, e, d);
    }
}

} // verus!
