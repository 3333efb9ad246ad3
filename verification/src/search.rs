//! Incremental path searcher.
//!
//! Owns the ordered set of JSON paths found in the input document, a load
//! state that grows as the background enumeration proceeds, and the window
//! of suggestions currently offered for the prefix being completed.

use vstd::prelude::*;

use crate::render::Pane;
use crate::strutil::{is_prefix, is_prefix_of, lex_lt, str_lt};

verus! {

/// Supplies the items to be searched, derived from the input document.
pub trait SearchProvider {
    fn provide(&mut self, item: &str) -> Result<Vec<String>, String>;
}

/// Progress of the background load of searchable items.
#[derive(Clone, Copy)]
pub struct LoadState {
    pub loaded: bool,
    pub loaded_item_len: usize,
}

/// What starting a search reports: the first suggestion, if any, and a
/// snapshot of the load progress.
pub struct StartSearchResult {
    pub head_item: Option<String>,
    pub load_state: LoadState,
}

/// The searcher: an ordered set of items, the load state, and the current
/// suggestion window with its cursor and the not-yet-displayed tail.
pub struct IncrementalSearcher {
    pub items: Vec<String>,
    pub load_state: LoadState,
    pub window: Vec<String>,
    pub cursor: usize,
    pub lines: usize,
    pub search_result_chunk_size: usize,
    pub search_chunk_remaining: Vec<String>,
}

impl IncrementalSearcher {
    /// Items are kept sorted and unique, and the window cursor stays in
    /// bounds whenever the window is non-empty.
    pub open spec fn wf(self) -> bool {
        &&& forall|i: int, j: int|
            0 <= i < j < self.items@.len() ==> lex_lt(
                #[trigger] self.items@[i]@,
                #[trigger] self.items@[j]@,
            )
        &&& (self.window@.len() == 0 ==> self.cursor == 0)
        &&& (self.window@.len() > 0 ==> self.cursor < self.window@.len())
    }

    /// Some stored item reads `s`.
    pub open spec fn contains_item(self, s: Seq<char>) -> bool {
        exists|i: int| 0 <= i < self.items@.len() && self.items@[i]@ == s
    }

    /// What one forward walk does: the cursor advances by one, stopping at
    /// the window's end, and when fewer than the visible lines remain
    /// beyond it, up to one chunk moves from the tail buffer's front to the
    /// window's end, in order.  The result is the new window, the new tail
    /// and the new cursor.
    pub open spec fn down_with_load_model(self) -> (Seq<String>, Seq<String>, int) {
        let len0 = self.window@.len() as int;
        let cur1: int = if self.cursor + 1 < len0 {
            self.cursor + 1
        } else {
            self.cursor as int
        };
        let wanted: int = if self.lines > 0 {
            self.lines as int
        } else {
            1
        };
        let rem = self.search_chunk_remaining@.len() as int;
        let moved: int = if len0 - cur1 < wanted {
            if self.search_result_chunk_size <= rem {
                self.search_result_chunk_size as int
            } else {
                rem
            }
        } else {
            0
        };
        (
            self.window@ + self.search_chunk_remaining@.subrange(0, moved),
            self.search_chunk_remaining@.subrange(moved, rem),
            cur1,
        )
    }

    pub fn new(lines: usize, search_result_chunk_size: usize) -> (r: IncrementalSearcher)
        ensures
            r.wf(),
            r.items@.len() == 0,
            r.window@.len() == 0,
            r.search_chunk_remaining@.len() == 0,
            r.load_state.loaded == false,
            r.load_state.loaded_item_len == 0,
            r.lines == lines,
            r.search_result_chunk_size == search_result_chunk_size,
    {
        IncrementalSearcher {
            items: Vec::new(),
            load_state: LoadState { loaded: false, loaded_item_len: 0 },
            window: Vec::new(),
            cursor: 0,
            lines,
            search_result_chunk_size,
            search_chunk_remaining: Vec::new(),
        }
    }

    /// Inserts one item into the ordered set, keeping it sorted and unique.
    fn insert_item(&mut self, item: String)
        requires
            old(self).wf(),
        ensures
            final(self).wf(),
            final(self).contains_item(item@),
            forall|s: Seq<char>|
                s != item@ ==> final(self).contains_item(s) == old(self).contains_item(s),
            final(self).window == old(self).window,
            final(self).cursor == old(self).cursor,
            final(self).lines == old(self).lines,
            final(self).search_result_chunk_size == old(self).search_result_chunk_size,
            final(self).search_chunk_remaining == old(self).search_chunk_remaining,
            final(self).load_state == old(self).load_state,
            final(self).items@.len() <= old(self).items@.len() + 1,
    {
        let ghost before = *self;
        let n = self.items.len();
        let mut p: usize = 0;
        loop
            invariant
                p <= n,
                n == self.items@.len(),
                *self == before,
                forall|j: int| 0 <= j < p ==> lex_lt(#[trigger] self.items@[j]@, item@),
            ensures
                p <= n,
                forall|j: int| 0 <= j < p ==> lex_lt(#[trigger] self.items@[j]@, item@),
                p < n ==> !lex_lt(self.items@[p as int]@, item@),
            decreases n - p,
        {
            if p >= n {
                break ;
            }
            if !str_lt(self.items[p].as_str(), item.as_str()) {
                break ;
            }
            p += 1;
        }
        if p < n {
            let same = self.items[p] == item;
            if same {
                proof {
                    assert(self.contains_item(item@));
                }
                return ;
            }
        }
        proof {
            if p < n {
                crate::strutil::lemma_lex_connected(self.items@[p as int]@, item@);
            }
        }
        self.items.insert(p, item);
        proof {
            let items = self.items@;
            let old_items = before.items@;
            assert forall|i: int, j: int| 0 <= i < j < items.len() implies lex_lt(
                items[i]@,
                items[j]@,
            ) by {
                let pi = p as int;
                if i < pi && j == pi {
                    assert(items[i]@ == old_items[i]@);
                } else if i == pi && j > pi {
                    assert(items[j]@ == old_items[j - 1]@);
                    if j - 1 >= pi {
                        if pi < old_items.len() {
                            if j - 1 == pi {
                                assert(lex_lt(item@, old_items[pi]@));
                            } else {
                                assert(lex_lt(old_items[pi]@, old_items[j - 1]@));
                                crate::strutil::lemma_lex_trans(
                                    item@,
                                    old_items[pi]@,
                                    old_items[j - 1]@,
                                );
                            }
                        }
                    }
                } else if i < pi && j > pi {
                    assert(items[i]@ == old_items[i]@);
                    assert(items[j]@ == old_items[j - 1]@);
                    if j - 1 == i {
                        assert(false);
                    }
                } else if i > pi {
                    assert(items[i]@ == old_items[i - 1]@);
                    assert(items[j]@ == old_items[j - 1]@);
                } else if j < pi {
                    assert(items[i]@ == old_items[i]@);
                    assert(items[j]@ == old_items[j]@);
                }
            }
            assert(self.contains_item(item@)) by {
                assert(self.items@[p as int]@ == item@);
            }
            assert forall|s: Seq<char>| s != item@ implies self.contains_item(s)
                == before.contains_item(s) by {
                if before.contains_item(s) {
                    let bi = choose|i: int|
                        0 <= i < old_items.len() && old_items[i]@ == s;
                    if bi < p as int {
                        assert(self.items@[bi]@ == s);
                    } else {
                        assert(self.items@[bi + 1]@ == s);
                    }
                }
                if self.contains_item(s) {
                    let si = choose|i: int|
                        0 <= i < self.items@.len() && self.items@[i]@ == s;
                    if si < p as int {
                        assert(old_items[si]@ == s);
                        assert(before.contains_item(s));
                    } else if si > p as int {
                        assert(old_items[si - 1]@ == s);
                        assert(before.contains_item(s));
                    }
                }
            }
        }
    }

    /// Absorbs one batch of enumerated items into the set and counts it.
    /// The count never decreases, and a finished load never reverts.
    pub fn absorb_chunk(&mut self, batch: Vec<String>)
        requires
            old(self).wf(),
            old(self).load_state.loaded_item_len + batch@.len() <= usize::MAX,
        ensures
            final(self).wf(),
            final(self).load_state.loaded == old(self).load_state.loaded,
            final(self).load_state.loaded_item_len == old(self).load_state.loaded_item_len
                + batch@.len(),
            forall|i: int|
                0 <= i < batch@.len() ==> final(self).contains_item(#[trigger] batch@[i]@),
            forall|s: Seq<char>|
                final(self).contains_item(s) ==> old(self).contains_item(s) || exists|i: int|
                    0 <= i < batch@.len() && #[trigger] batch@[i]@ == s,
            forall|s: Seq<char>|
                old(self).contains_item(s) ==> #[trigger] final(self).contains_item(s),
            final(self).window == old(self).window,
            final(self).cursor == old(self).cursor,
            final(self).search_chunk_remaining == old(self).search_chunk_remaining,
            final(self).lines == old(self).lines,
            final(self).search_result_chunk_size == old(self).search_result_chunk_size,
    {
        let ghost start = *self;
        let counted = self.load_state.loaded_item_len + batch.len();
        self.load_state = LoadState { loaded: self.load_state.loaded, loaded_item_len: counted };
        let ghost start2 = *self;
        proof {
            assert(self.items == start.items);
            assert forall|s: Seq<char>| start.contains_item(s) implies #[trigger] self.contains_item(
                s,
            ) by {
                let wi = choose|w: int|
                    0 <= w < start.items@.len() && start.items@[w]@ == s;
                assert(self.items@[wi]@ == s);
            }
        }
        let n = batch.len();
        let mut k: usize = 0;
        while k < n
            invariant
                k <= n,
                n == batch@.len(),
                self.wf(),
                forall|i: int| 0 <= i < k ==> self.contains_item(#[trigger] batch@[i]@),
                forall|s: Seq<char>|
                    self.contains_item(s) ==> start.contains_item(s) || exists|i: int|
                        0 <= i < k && #[trigger] batch@[i]@ == s,
                forall|s: Seq<char>|
                    start.contains_item(s) ==> #[trigger] self.contains_item(s),
                self.window == start.window,
                self.cursor == start.cursor,
                self.search_chunk_remaining == start.search_chunk_remaining,
                self.lines == start.lines,
                self.search_result_chunk_size == start.search_result_chunk_size,
                self.load_state == start2.load_state,
            decreases n - k,
        {
            let ghost mid = *self;
            let item = batch[k].clone();
            proof {
                assert(item@ == batch@[k as int]@);
            }
            self.insert_item(item);
            proof {
                assert forall|i: int| 0 <= i < k + 1 implies self.contains_item(
                    #[trigger] batch@[i]@,
                ) by {
                    if i < k {
                        if batch@[i]@ == batch@[k as int]@ {
                        } else {
                            assert(mid.contains_item(batch@[i]@));
                        }
                    }
                }
            }
            k += 1;
        }
    }

    /// Absorbs the last batch and marks the load finished: from here on the
    /// count equals the total number of items the enumerator produced.
    pub fn finish_load(&mut self, batch: Vec<String>)
        requires
            old(self).wf(),
            old(self).load_state.loaded_item_len + batch@.len() <= usize::MAX,
        ensures
            final(self).wf(),
            final(self).load_state.loaded == true,
            final(self).load_state.loaded_item_len == old(self).load_state.loaded_item_len
                + batch@.len(),
            forall|i: int|
                0 <= i < batch@.len() ==> final(self).contains_item(#[trigger] batch@[i]@),
            forall|s: Seq<char>|
                old(self).contains_item(s) ==> #[trigger] final(self).contains_item(s),
            forall|s: Seq<char>|
                final(self).contains_item(s) ==> old(self).contains_item(s) || exists|i: int|
                    0 <= i < batch@.len() && #[trigger] batch@[i]@ == s,
            final(self).window == old(self).window,
            final(self).cursor == old(self).cursor,
            final(self).search_chunk_remaining == old(self).search_chunk_remaining,
    {
        self.absorb_chunk(batch);
        let ghost mid = *self;
        self.load_state = LoadState { loaded: true, loaded_item_len: self.load_state.loaded_item_len };
        proof {
            assert(self.items == mid.items);
            assert forall|s: Seq<char>| mid.contains_item(s) implies #[trigger] self.contains_item(
                s,
            ) by {
                let wi = choose|w: int| 0 <= w < mid.items@.len() && mid.items@[w]@ == s;
                assert(self.items@[wi]@ == s);
            }
            assert forall|s: Seq<char>| self.contains_item(s) implies mid.contains_item(s) by {
                let wi = choose|w: int| 0 <= w < self.items@.len() && self.items@[w]@ == s;
                assert(mid.items@[wi]@ == s);
            }
            assert forall|i: int| 0 <= i < batch@.len() implies self.contains_item(
                #[trigger] batch@[i]@,
            ) by {
                assert(mid.contains_item(batch@[i]@));
            }
        }
    }

    /// Moves the window cursor back one, stopping at the first item.
    pub fn up(&mut self)
        requires
            old(self).wf(),
        ensures
            final(self).wf(),
            old(self).cursor > 0 ==> final(self).cursor == old(self).cursor - 1,
            old(self).cursor == 0 ==> final(self).cursor == 0,
            final(self).window == old(self).window,
            final(self).items == old(self).items,
            final(self).load_state == old(self).load_state,
            final(self).search_chunk_remaining == old(self).search_chunk_remaining,
    {
        if self.cursor > 0 {
            self.cursor = self.cursor - 1;
        }
    }

    /// Moves the cursor forward one; when fewer than `lines` items remain
    /// beyond the cursor, moves up to one chunk from the tail buffer into
    /// the window.
    pub fn down_with_load(&mut self)
        requires
            old(self).wf(),
            old(self).window@.len() + old(self).search_chunk_remaining@.len() <= usize::MAX,
        ensures
            final(self).wf(),
            final(self).items == old(self).items,
            final(self).load_state == old(self).load_state,
            final(self).lines == old(self).lines,
            final(self).search_result_chunk_size == old(self).search_result_chunk_size,
            (final(self).window@, final(self).search_chunk_remaining@, final(self).cursor as int)
                == old(self).down_with_load_model(),
    {
        if self.cursor + 1 < self.window.len() {
            self.cursor = self.cursor + 1;
        }
        let len = self.window.len();
        let gap = if len >= self.cursor { len - self.cursor } else { 0 };
        let wanted = if self.lines > 0 { self.lines } else { 1 };
        if gap < wanted {
            self.load_more();
        }
    }

    /// Moves up to one chunk from the tail buffer to the window's end.
    fn load_more(&mut self)
        requires
            old(self).wf(),
            old(self).window@.len() + old(self).search_chunk_remaining@.len() <= usize::MAX,
        ensures
            final(self).wf(),
            final(self).items == old(self).items,
            final(self).load_state == old(self).load_state,
            final(self).cursor == old(self).cursor,
            final(self).lines == old(self).lines,
            final(self).search_result_chunk_size == old(self).search_result_chunk_size,
            ({
                let rem = old(self).search_chunk_remaining@.len() as int;
                let moved: int = if old(self).search_result_chunk_size <= rem {
                    old(self).search_result_chunk_size as int
                } else {
                    rem
                };
                &&& final(self).window@ == old(self).window@ + old(
                    self,
                ).search_chunk_remaining@.subrange(0, moved)
                &&& final(self).search_chunk_remaining@ == old(
                    self,
                ).search_chunk_remaining@.subrange(moved, rem)
            }),
    {
        if self.search_chunk_remaining.len() == 0 {
            proof {
                let rem = self.search_chunk_remaining@.len() as int;
                assert(self.window@ + self.search_chunk_remaining@.subrange(0, 0) =~= self.window@);
                assert(self.search_chunk_remaining@.subrange(0, rem)
                    =~= self.search_chunk_remaining@);
            }
            return ;
        }
        let take = if self.search_result_chunk_size < self.search_chunk_remaining.len() {
            self.search_result_chunk_size
        } else {
            self.search_chunk_remaining.len()
        };
        let ghost start = *self;
        let mut moved: usize = 0;
        while moved < take
            invariant
                moved <= take,
                take <= start.search_chunk_remaining@.len(),
                self.search_chunk_remaining@ == start.search_chunk_remaining@.subrange(
                    moved as int,
                    start.search_chunk_remaining@.len() as int,
                ),
                self.window@ == start.window@ + start.search_chunk_remaining@.subrange(
                    0,
                    moved as int,
                ),
                self.cursor == start.cursor,
                self.items == start.items,
                self.load_state == start.load_state,
                self.lines == start.lines,
                self.search_result_chunk_size == start.search_result_chunk_size,
                start.wf(),
                self.window@.len() + self.search_chunk_remaining@.len() == start.window@.len()
                    + start.search_chunk_remaining@.len(),
            decreases take - moved,
        {
            let next = self.search_chunk_remaining.remove(0);
            self.window.push(next);
            moved += 1;
            proof {
                assert(self.search_chunk_remaining@ =~= start.search_chunk_remaining@.subrange(
                    moved as int,
                    start.search_chunk_remaining@.len() as int,
                ));
                assert(self.window@ =~= start.window@
                    + start.search_chunk_remaining@.subrange(0, moved as int));
            }
        }
        proof {
            assert(self.wf()) by {
                assert(forall|i: int, j: int|
                    0 <= i < j < self.items@.len() ==> lex_lt(
                        #[trigger] self.items@[i]@,
                        #[trigger] self.items@[j]@,
                    ));
            }
        }
    }

    /// The suggestion under the cursor; empty when the window is empty.
    pub fn get_current_item(&self) -> (r: String)
        requires
            self.wf(),
        ensures
            self.window@.len() > 0 ==> r == self.window@[self.cursor as int],
            self.window@.len() == 0 ==> r@.len() == 0,
    {
        if self.window.len() > 0 {
            self.window[self.cursor].clone()
        } else {
            String::new()
        }
    }

    /// The visible slice of the window as a pane: at most `lines` rows
    /// starting at the cursor.
    pub fn create_pane(&self) -> (r: Pane)
        requires
            self.wf(),
        ensures
            r.rows@.len() + self.cursor <= self.window@.len() || self.window@.len() == 0,
            self.window@.len() == 0 ==> r.rows@.len() == 0,
            self.window@.len() > 0 ==> r.rows@.len() == ({
                let wanted: int = if self.lines > 0 { self.lines as int } else { 1 };
                let rest: int = self.window@.len() - self.cursor;
                if wanted <= rest { wanted } else { rest }
            }),
            forall|i: int|
                0 <= i < r.rows@.len() ==> r.rows@[i] == self.window@[self.cursor + i],
    {
        let mut rows: Vec<String> = Vec::new();
        if self.window.len() == 0 {
            return Pane { rows };
        }
        let wanted = if self.lines > 0 { self.lines } else { 1 };
        let mut i: usize = self.cursor;
        while i < self.window.len() && rows.len() < wanted
            invariant
                self.window@.len() > 0,
                self.cursor <= i <= self.window@.len(),
                self.wf(),
                rows@.len() == i - self.cursor,
                rows@.len() <= wanted,
                wanted == if self.lines > 0 { self.lines as int } else { 1 },
                forall|j: int|
                    0 <= j < rows@.len() ==> rows@[j] == self.window@[self.cursor + j],
            decreases self.window@.len() - i,
        {
            rows.push(self.window[i].clone());
            i += 1;
        }
        Pane { rows }
    }

    /// Empties the suggestion window and the tail buffer.
    pub fn leave_search(&mut self)
        requires
            old(self).wf(),
        ensures
            final(self).wf(),
            final(self).window@.len() == 0,
            final(self).search_chunk_remaining@.len() == 0,
            final(self).cursor == 0,
            final(self).items == old(self).items,
            final(self).load_state == old(self).load_state,
            final(self).lines == old(self).lines,
            final(self).search_result_chunk_size == old(self).search_result_chunk_size,
    {
        self.window = Vec::new();
        self.cursor = 0;
        self.search_chunk_remaining = Vec::new();
    }

    /// Collects the stored items that start with `prefix`, fills the window
    /// with the first chunk of them in stored order, keeps the remaining
    /// matches as the tail buffer in order, and reports the first match
    /// with a snapshot of the load state.  When nothing matches, the window
    /// and tail are left as they were.
    pub fn start_search(&mut self, prefix: &str) -> (r: StartSearchResult)
        requires
            old(self).wf(),
        ensures
            final(self).wf(),
            final(self).items == old(self).items,
            final(self).load_state == old(self).load_state,
            r.load_state == old(self).load_state,
            match r.head_item {
                Some(head) => ({
                    let ms = matching_items(old(self).items@, prefix@);
                    let t: int = if old(self).search_result_chunk_size == 0 {
                        1
                    } else if old(self).search_result_chunk_size <= ms.len() {
                        old(self).search_result_chunk_size as int
                    } else {
                        ms.len() as int
                    };
                    &&& ms.len() > 0
                    &&& head == ms[0]
                    &&& final(self).window@ == ms.subrange(0, t)
                    &&& final(self).search_chunk_remaining@ == ms.subrange(t, ms.len() as int)
                    &&& final(self).cursor == 0
                    &&& is_prefix(prefix@, head@)
                    &&& final(self).contains_item(head@)
                }),
                None => {
                    &&& matching_items(old(self).items@, prefix@).len() == 0
                    &&& final(self).window == old(self).window
                    &&& final(self).cursor == old(self).cursor
                    &&& final(self).search_chunk_remaining == old(self).search_chunk_remaining
                    &&& forall|s: Seq<char>|
                        final(self).contains_item(s) ==> !is_prefix(prefix@, s)
                },
            },
    {
        let n = self.items.len();
        let mut matches: Vec<String> = Vec::new();
        let mut i: usize = 0;
        proof {
            assert(Seq::<String>::empty() + matching_from(self.items@, prefix@, 0)
                =~= matching_from(self.items@, prefix@, 0));
        }
        while i < n
            invariant
                i <= n,
                n == self.items@.len(),
                self.wf(),
                matching_from(self.items@, prefix@, 0) == matches@ + matching_from(
                    self.items@,
                    prefix@,
                    i as int,
                ),
                forall|j: int|
                    0 <= j < matches@.len() ==> self.contains_item(#[trigger] matches@[j]@)
                        && is_prefix(prefix@, matches@[j]@),
                matches@.len() == 0 ==> forall|j: int|
                    0 <= j < i ==> !is_prefix(prefix@, #[trigger] self.items@[j]@),
            decreases n - i,
        {
            let ghost before = matches@;
            if is_prefix_of(prefix, self.items[i].as_str()) {
                let m = self.items[i].clone();
                proof {
                    assert(self.contains_item(m@));
                    assert(matching_from(self.items@, prefix@, i as int) == seq![
                        self.items@[i as int],
                    ] + matching_from(self.items@, prefix@, i as int + 1));
                }
                matches.push(m);
                proof {
                    assert(matches@ =~= before + seq![self.items@[i as int]]);
                    assert(matches@ + matching_from(self.items@, prefix@, i as int + 1) =~= before
                        + (seq![self.items@[i as int]] + matching_from(
                        self.items@,
                        prefix@,
                        i as int + 1,
                    )));
                }
            } else {
                proof {
                    assert(matching_from(self.items@, prefix@, i as int) == matching_from(
                        self.items@,
                        prefix@,
                        i as int + 1,
                    ));
                }
            }
            i += 1;
        }
        proof {
            assert(matching_from(self.items@, prefix@, n as int).len() == 0);
            assert(matches@ + matching_from(self.items@, prefix@, n as int) =~= matches@);
        }
        if matches.len() == 0 {
            proof {
                assert forall|s: Seq<char>|
                    self.contains_item(s) implies !is_prefix(prefix@, s) by {
                    let wi = choose|j: int|
                        0 <= j < self.items@.len() && self.items@[j]@ == s;
                    assert(!is_prefix(prefix@, self.items@[wi]@));
                }
            }
            return StartSearchResult { head_item: None, load_state: self.load_state };
        }
        let take = if self.search_result_chunk_size < matches.len() {
            self.search_result_chunk_size
        } else {
            matches.len()
        };
        let take = if take == 0 { 1 } else { take };
        let mut used: Vec<String> = Vec::new();
        let mut k: usize = 0;
        while k < take
            invariant
                k <= take,
                take <= matches@.len(),
                take >= 1,
                used@ == matches@.subrange(0, k as int),
                self.wf(),
                forall|j: int|
                    0 <= j < matches@.len() ==> self.contains_item(#[trigger] matches@[j]@)
                        && is_prefix(prefix@, matches@[j]@),
            decreases take - k,
        {
            used.push(matches[k].clone());
            proof {
                assert(used@ =~= matches@.subrange(0, k as int + 1));
            }
            k += 1;
        }
        let mut rest: Vec<String> = Vec::new();
        let mut k2: usize = take;
        while k2 < matches.len()
            invariant
                take <= k2 <= matches@.len(),
                rest@ == matches@.subrange(take as int, k2 as int),
                self.wf(),
            decreases matches@.len() - k2,
        {
            rest.push(matches[k2].clone());
            proof {
                assert(rest@ =~= matches@.subrange(take as int, k2 as int + 1));
            }
            k2 += 1;
        }
        let head = used[0].clone();
        proof {
            assert(used@[0] == matches@.subrange(0, take as int)[0]);
            assert(matches@[0]@ == head@);
            assert(matches@ == matching_items(self.items@, prefix@));
            assert(rest@ == matches@.subrange(take as int, matches@.len() as int));
        }
        let ghost pre = *self;
        self.window = used;
        self.cursor = 0;
        self.search_chunk_remaining = rest;
        proof {
            assert(self.items@ == pre.items@);
            assert(self.contains_item(head@)) by {
                assert(pre.contains_item(matches@[0]@));
                let wi = choose|i: int|
                    0 <= i < pre.items@.len() && pre.items@[i]@ == matches@[0]@;
                assert(self.items@[wi]@ == head@);
            }
        }
        StartSearchResult { head_item: Some(head), load_state: self.load_state }
    }
}

/// The stored items that start with `prefix`, in stored order, from `i` on.
pub open spec fn matching_from(items: Seq<String>, prefix: Seq<char>, i: int) -> Seq<String>
    decreases items.len() - i,
{
    if i < 0 || i >= items.len() {
        Seq::empty()
    } else if is_prefix(prefix, items[i]@) {
        seq![items[i]] + matching_from(items, prefix, i + 1)
    } else {
        matching_from(items, prefix, i + 1)
    }
}

/// The stored items that start with `prefix`, in stored order.
pub open spec fn matching_items(items: Seq<String>, prefix: Seq<char>) -> Seq<String> {
    matching_from(items, prefix, 0)
}

/// Derives searchable items from the input text through the path
/// enumerator.
pub struct JsonPathProvider;

impl SearchProvider for JsonPathProvider {
    fn provide(&mut self, item: &str) -> Result<Vec<String>, String> {
        crate::engine::enumerate_paths(item)
    }
}

impl IncrementalSearcher {
    /// Runs the whole load: absorbs `paths` in batches of `chunk_size` and
    /// marks the load finished.  Afterwards the count equals exactly the
    /// number of items the enumerator produced, every enumerated item is
    /// searchable, and the load is flagged complete.
    pub fn load_all(&mut self, paths: Vec<String>, chunk_size: usize)
        requires
            old(self).wf(),
            old(self).load_state.loaded_item_len + paths@.len() <= usize::MAX,
            chunk_size > 0,
        ensures
            final(self).wf(),
            final(self).load_state.loaded == true,
            final(self).load_state.loaded_item_len == old(self).load_state.loaded_item_len
                + paths@.len(),
            forall|i: int|
                0 <= i < paths@.len() ==> final(self).contains_item(#[trigger] paths@[i]@),
            forall|s: Seq<char>|
                final(self).contains_item(s) ==> old(self).contains_item(s) || exists|i: int|
                    0 <= i < paths@.len() && #[trigger] paths@[i]@ == s,
            final(self).window == old(self).window,
            final(self).cursor == old(self).cursor,
            final(self).search_chunk_remaining == old(self).search_chunk_remaining,
    {
        let ghost start = *self;
        let n = paths.len();
        let mut taken: usize = 0;
        let mut batch: Vec<String> = Vec::new();
        let mut k: usize = 0;
        while k < n
            invariant
                k <= n,
                n == paths@.len(),
                self.wf(),
                taken + batch@.len() == k,
                self.load_state.loaded == start.load_state.loaded,
                self.load_state.loaded_item_len == start.load_state.loaded_item_len + taken,
                start.load_state.loaded_item_len + n <= usize::MAX,
                forall|i: int|
                    0 <= i < taken ==> self.contains_item(#[trigger] paths@[i]@),
                forall|s: Seq<char>|
                    self.contains_item(s) ==> start.contains_item(s) || exists|i: int|
                        0 <= i < taken && #[trigger] paths@[i]@ == s,
                forall|i: int|
                    0 <= i < batch@.len() ==> batch@[i] == paths@[taken + i],
                self.window == start.window,
                self.cursor == start.cursor,
                self.search_chunk_remaining == start.search_chunk_remaining,
                chunk_size > 0,
                batch@.len() <= chunk_size,
            decreases n - k,
        {
            batch.push(paths[k].clone());
            k += 1;
            if batch.len() >= chunk_size {
                let ghost before = *self;
                let ghost moved = batch@;
                let full = batch;
                let blen = full.len();
                batch = Vec::new();
                self.absorb_chunk(full);
                proof {
                    assert forall|i: int| 0 <= i < taken + blen implies self.contains_item(
                        #[trigger] paths@[i]@,
                    ) by {
                        if i < taken {
                            assert(before.contains_item(paths@[i]@));
                        } else {
                            assert(moved[i - taken] == paths@[i]);
                        }
                    }
                    assert forall|s: Seq<char>| self.contains_item(s) implies start.contains_item(
                        s,
                    ) || exists|i: int| 0 <= i < taken + blen && #[trigger] paths@[i]@ == s by {
                        if !before.contains_item(s) {
                            let wi = choose|i: int|
                                0 <= i < moved.len() && #[trigger] moved[i]@ == s;
                            assert(paths@[taken + wi]@ == s);
                        }
                    }
                }
                taken = taken + blen;
            }
        }
        let ghost before = *self;
        let ghost moved = batch@;
        let blen = batch.len();
        self.finish_load(batch);
        proof {
            assert forall|i: int| 0 <= i < paths@.len() implies self.contains_item(
                #[trigger] paths@[i]@,
            ) by {
                if i < taken {
                    assert(before.contains_item(paths@[i]@));
                } else {
                    assert(moved[i - taken] == paths@[i]);
                }
            }
            assert forall|s: Seq<char>| self.contains_item(s) implies start.contains_item(s)
                || exists|i: int| 0 <= i < paths@.len() && #[trigger] paths@[i]@ == s by {
                if !before.contains_item(s) {
                    let wi = choose|i: int| 0 <= i < moved.len() && #[trigger] moved[i]@ == s;
                    assert(paths@[taken + wi]@ == s);
                }
            }
        }
    }
}

/// The count after absorbing a run of batches, by their sizes.
pub open spec fn count_after(initial: nat, sizes: Seq<nat>) -> nat
    decreases sizes.len(),
{
    if sizes.len() == 0 {
        initial
    } else {
        count_after(initial + sizes[0], sizes.drop_first())
    }
}

/// The loaded-item count never decreases: after any further run of load
/// steps the count is at least what it was.
pub proof fn lemma_load_count_monotone(initial: nat, sizes: Seq<nat>)
    ensures
        count_after(initial, sizes) >= initial,
    decreases sizes.len(),
{
    if sizes.len() > 0 {
        lemma_load_count_monotone(initial + sizes[0], sizes.drop_first());
    }
}

} // verus!
