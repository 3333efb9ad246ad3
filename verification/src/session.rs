//! The evaluation session: one loaded document stream, the filter cache, and
//! the content the viewer currently shows.
//!
//! A query is applied in one step: an exact cache hit rebuilds the viewer
//! from the cache; otherwise the filter engine runs, a useful result is shown
//! and cached, and a failing, empty or all-null result keeps the viewer on
//! the longest-prefix fallback while a hint explains what happened.

use vstd::prelude::*;

use crate::engine::{eval_stream, json_docs_of, parse_json_stream, run_filter};
use crate::strutil::clone_strings;
use crate::trie::FilterTrie;

verus! {

/// The hint a query application leaves behind.
#[derive(Clone, Copy, PartialEq, Eq, Structural, Debug)]
pub enum GuideKind {
    /// Plain success: no hint.
    Clear,
    /// The result came from the cache.
    CacheHit,
    /// The engine returned no values.
    NoResults,
    /// The engine returned only nulls, likely a typo.
    AllNull,
    /// The engine rejected the query or failed on a document.
    FilterFailed,
}

/// The canonical text of the JSON null value.
pub open spec fn null_text() -> Seq<char> {
    "null"@
}

/// Every produced value is the JSON null.
pub open spec fn all_null(vals: Seq<Seq<char>>) -> bool {
    forall|i: int| 0 <= i < vals.len() ==> vals[i] == null_text()
}

/// Checks whether every value of `vals` reads `null`.
pub fn all_null_exec(vals: &Vec<String>) -> (r: bool)
    ensures
        r == all_null(vals.deep_view()),
{
    let null_s = String::from_str("null");
    let n = vals.len();
    let mut i: usize = 0;
    while i < n
        invariant
            i <= n,
            n == vals@.len(),
            null_s@ == null_text(),
            forall|j: int| 0 <= j < i ==> vals@[j]@ == null_text(),
        decreases n - i,
    {
        if !(vals[i] == null_s) {
            proof {
                crate::strutil::lemma_deep_view_pointwise(*vals);
                assert(vals.deep_view()[i as int] == vals@[i as int]@);
            }
            return false;
        }
        i += 1;
    }
    proof {
        crate::strutil::lemma_deep_view_pointwise(*vals);
    }
    true
}

/// One evaluation session over a fixed document stream.
pub struct Session {
    /// The parsed input: the canonical text of each top-level JSON value.
    pub docs: Vec<String>,
    /// Cache of useful results, seeded with the identity query.
    pub trie: FilterTrie,
    /// What the result viewer currently shows.
    pub viewer: Vec<String>,
}

impl Session {
    pub open spec fn wf(self) -> bool {
        self.trie.wf()
    }

    /// Parses the input into a document stream, seeds the cache with the
    /// identity query mapped to the whole stream, and shows that stream.
    pub fn try_new(input: &str) -> (r: Result<Session, String>)
        ensures
            match r {
                Ok(s) => {
                    &&& s.wf()
                    &&& json_docs_of(input@) == Some(s.docs.deep_view())
                    &&& s.viewer@ == s.docs@
                    &&& s.trie.exact_spec("."@) == Some(s.docs@)
                },
                Err(_) => json_docs_of(input@) is None,
            },
    {
        match parse_json_stream(input) {
            Ok(docs) => {
                let mut trie = FilterTrie::new();
                let seed = clone_strings(&docs);
                trie.insert(".", seed);
                let viewer = clone_strings(&docs);
                Ok(Session { docs, trie, viewer })
            },
            Err(e) => Err(e),
        }
    }

    /// As `try_new`, but keeps at most `max_streams` of the parsed values
    /// when a limit is given.
    pub fn try_new_limited(input: &str, max_streams: Option<usize>) -> (r: Result<
        Session,
        String,
    >)
        ensures
            match r {
                Ok(s) => {
                    &&& s.wf()
                    &&& json_docs_of(input@) is Some
                    &&& s.docs.deep_view() == ({
                        let ds = json_docs_of(input@)->0;
                        match max_streams {
                            Some(l) => ds.subrange(
                                0,
                                if l <= ds.len() {
                                    l as int
                                } else {
                                    ds.len() as int
                                },
                            ),
                            None => ds,
                        }
                    })
                    &&& s.viewer@ == s.docs@
                    &&& s.trie.exact_spec("."@) == Some(s.docs@)
                },
                Err(_) => json_docs_of(input@) is None,
            },
    {
        match parse_json_stream(input) {
            Ok(docs) => {
                let ghost parsed = docs;
                let mut docs = docs;
                match max_streams {
                    Some(l) => {
                        docs.truncate(l);
                        proof {
                            crate::strutil::lemma_deep_view_pointwise(parsed);
                            crate::strutil::lemma_deep_view_pointwise(docs);
                            let ds = parsed.deep_view();
                            let t: int = if l <= ds.len() {
                                l as int
                            } else {
                                ds.len() as int
                            };
                            assert(docs@ =~= parsed@.subrange(0, t));
                            assert forall|j: int| 0 <= j < t implies docs.deep_view()[j]
                                == ds.subrange(0, t)[j] by {
                                assert(docs.deep_view()[j] == docs@[j]@);
                                assert(docs@[j] == parsed@[j]);
                            }
                            assert(docs.deep_view() =~= ds.subrange(0, t));
                        }
                    },
                    None => {},
                }
                let mut trie = FilterTrie::new();
                let seed = clone_strings(&docs);
                trie.insert(".", seed);
                let viewer = clone_strings(&docs);
                Ok(Session { docs, trie, viewer })
            },
            Err(e) => Err(e),
        }
    }

    /// Rebuilds the viewer from the deepest cached ancestor of `query`, when
    /// one exists; otherwise leaves the viewer as it is.
    fn apply_fallback(&mut self, query: &str)
        requires
            old(self).wf(),
        ensures
            final(self).wf(),
            final(self).docs == old(self).docs,
            final(self).trie == old(self).trie,
            match old(self).trie.prefix_spec(query@) {
                Some(p) => final(self).viewer@ == p,
                None => final(self).viewer == old(self).viewer,
            },
    {
        let found = self.trie.prefix_search(query);
        match found {
            Some(p) => {
                let shown = clone_strings(p);
                self.viewer = shown;
            },
            None => {},
        }
    }

    /// Applies one query: the exclusive caller of the filter engine.
    ///
    /// An exact cache hit rebuilds the viewer from the cache.  Otherwise the
    /// engine runs over the whole document stream: a failing query, an empty
    /// result and an all-null result each leave their own hint, keep the
    /// cache unchanged, and fall back to the deepest cached ancestor; any
    /// other result is shown and cached under this query.
    pub fn apply_query(&mut self, query: &str) -> (g: GuideKind)
        requires
            old(self).wf(),
        ensures
            final(self).wf(),
            final(self).docs == old(self).docs,
            match old(self).trie.exact_spec(query@) {
                Some(r) => {
                    &&& g == GuideKind::CacheHit
                    &&& final(self).viewer@ == r
                    &&& final(self).trie == old(self).trie
                },
                None => match eval_stream(query@, old(self).docs.deep_view()) {
                    None => {
                        &&& g == GuideKind::FilterFailed
                        &&& final(self).trie == old(self).trie
                        &&& match old(self).trie.prefix_spec(query@) {
                            Some(p) => final(self).viewer@ == p,
                            None => final(self).viewer == old(self).viewer,
                        }
                    },
                    Some(vals) => {
                        &&& (vals.len() == 0 ==> {
                            &&& g == GuideKind::NoResults
                            &&& final(self).trie == old(self).trie
                            &&& match old(self).trie.prefix_spec(query@) {
                                Some(p) => final(self).viewer@ == p,
                                None => final(self).viewer == old(self).viewer,
                            }
                        })
                        &&& (vals.len() > 0 && all_null(vals) ==> {
                            &&& g == GuideKind::AllNull
                            &&& final(self).trie == old(self).trie
                            &&& match old(self).trie.prefix_spec(query@) {
                                Some(p) => final(self).viewer@ == p,
                                None => final(self).viewer == old(self).viewer,
                            }
                        })
                        &&& (vals.len() > 0 && !all_null(vals) ==> {
                            &&& g == GuideKind::Clear
                            &&& final(self).viewer.deep_view() == vals
                            &&& final(self).trie.exact_spec(query@) == Some(
                                final(self).viewer@,
                            )
                            &&& forall|k: Seq<char>|
                                k != query@ ==> final(self).trie.exact_spec(k) == old(
                                    self,
                                ).trie.exact_spec(k)
                        })
                    },
                },
            },
    {
        let hit = self.trie.exact_search(query);
        match hit {
            Some(r) => {
                let shown = clone_strings(r);
                self.viewer = shown;
                GuideKind::CacheHit
            },
            None => {
                match run_filter(query, &self.docs) {
                    Err(_) => {
                        self.apply_fallback(query);
                        GuideKind::FilterFailed
                    },
                    Ok(vals) => {
                        if vals.len() == 0 {
                            self.apply_fallback(query);
                            GuideKind::NoResults
                        } else if all_null_exec(&vals) {
                            self.apply_fallback(query);
                            GuideKind::AllNull
                        } else {
                            let ghost vals_copy = vals;
                            let shown = clone_strings(&vals);
                            self.trie.insert(query, vals);
                            self.viewer = shown;
                            proof {
                                crate::strutil::lemma_deep_view_pointwise(self.viewer);
                                crate::strutil::lemma_deep_view_pointwise(vals_copy);
                                assert(self.viewer@ == vals_copy@);
                                assert(self.viewer.deep_view() =~= vals_copy.deep_view());
                            }
                            GuideKind::Clear
                        }
                    },
                }
            },
        }
    }

    /// The viewer content as one text, one value per line, for the clipboard.
    pub fn content_to_copy(&self) -> (r: String)
        ensures
            r@ == join_lines(self.viewer.deep_view()),
    {
        join_lines_exec(&self.viewer)
    }
}

/// The given texts joined with a newline after each one.
pub open spec fn join_lines(vals: Seq<Seq<char>>) -> Seq<char>
    decreases vals.len(),
{
    if vals.len() == 0 {
        Seq::empty()
    } else {
        vals[0] + seq!['\n'] + join_lines(vals.drop_first())
    }
}

/// Joins the given texts, one per line.
pub fn join_lines_exec(vals: &Vec<String>) -> (r: String)
    ensures
        r@ == join_lines(vals.deep_view()),
{
    let n = vals.len();
    let mut out = String::new();
    let mut i: usize = 0;
    proof {
        crate::strutil::lemma_deep_view_pointwise(*vals);
        let dv = vals.deep_view();
        assert(dv.subrange(0, n as int) =~= dv);
        assert(out@ + join_lines(dv) =~= join_lines(dv));
    }
    while i < n
        invariant
            i <= n,
            n == vals@.len(),
            vals.deep_view().len() == n,
            forall|j: int| 0 <= j < n ==> vals.deep_view()[j] == vals@[j]@,
            join_lines(vals.deep_view()) == out@ + join_lines(
                vals.deep_view().subrange(i as int, n as int),
            ),
        decreases n - i,
    {
        out.append(vals[i].as_str());
        out.append("\n");
        proof {
            let dv = vals.deep_view();
            let tail = dv.subrange(i as int, n as int);
            assert(tail.len() > 0);
            assert(tail[0] == dv[i as int]);
            assert(tail.drop_first() =~= dv.subrange(i as int + 1, n as int));
            assert("\n"@ =~= seq!['\n']) by {
                reveal_strlit("\n");
            }
            assert(join_lines(tail) == tail[0] + seq!['\n'] + join_lines(tail.drop_first()));
            assert(out@ + join_lines(dv.subrange(i as int + 1, n as int)) =~= join_lines(dv));
        }
        i += 1;
    }
    proof {
        let dv = vals.deep_view();
        assert(join_lines(dv.subrange(n as int, n as int)) == Seq::<char>::empty());
        assert(out@ + Seq::<char>::empty() =~= out@);
    }
    out
}

/// The hint text for one outcome, naming the query.
pub open spec fn guide_message_spec(kind: GuideKind, q: Seq<char>) -> Seq<char> {
    match kind {
        GuideKind::Clear => Seq::empty(),
        GuideKind::CacheHit => "JSON query ('"@ + q
            + "') was already executed. Result was retrieved from cache."@,
        GuideKind::NoResults => "JSON query ('"@ + q
            + "') was executed, but no results were returned."@,
        GuideKind::AllNull =>
            "JSON query resulted in 'null', which may indicate a typo or incorrect query: '"@ + q
            + "'"@,
        GuideKind::FilterFailed => "Failed to execute jq query '"@ + q + "'"@,
    }
}

/// The colour each hint is shown in.
pub open spec fn guide_color_spec(kind: GuideKind) -> Option<crate::config::Color> {
    match kind {
        GuideKind::Clear => None,
        GuideKind::CacheHit => Some(crate::config::Color::DarkGrey),
        GuideKind::NoResults => Some(crate::config::Color::Red),
        GuideKind::AllNull => Some(crate::config::Color::Yellow),
        GuideKind::FilterFailed => Some(crate::config::Color::Red),
    }
}

/// Builds the hint text for one outcome.
pub fn guide_message(kind: GuideKind, query: &str) -> (r: String)
    ensures
        r@ == guide_message_spec(kind, query@),
{
    match kind {
        GuideKind::Clear => String::new(),
        GuideKind::CacheHit => String::from_str("JSON query ('").concat(query).concat(
            "') was already executed. Result was retrieved from cache.",
        ),
        GuideKind::NoResults => String::from_str("JSON query ('").concat(query).concat(
            "') was executed, but no results were returned.",
        ),
        GuideKind::AllNull => String::from_str(
            "JSON query resulted in 'null', which may indicate a typo or incorrect query: '",
        ).concat(query).concat("'"),
        GuideKind::FilterFailed => String::from_str("Failed to execute jq query '").concat(
            query,
        ).concat("'"),
    }
}

/// The colour for one outcome's hint.
pub fn guide_color(kind: GuideKind) -> (r: Option<crate::config::Color>)
    ensures
        r == guide_color_spec(kind),
{
    match kind {
        GuideKind::Clear => None,
        GuideKind::CacheHit => Some(crate::config::Color::DarkGrey),
        GuideKind::NoResults => Some(crate::config::Color::Red),
        GuideKind::AllNull => Some(crate::config::Color::Yellow),
        GuideKind::FilterFailed => Some(crate::config::Color::Red),
    }
}

} // verus!
