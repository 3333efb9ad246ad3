//! The filter editor's text buffer: a line of characters and a cursor that
//! may rest on any character or one place past the end.  Word-wise motions
//! and erasures stop at the configured word-break characters.

use vstd::prelude::*;

use crate::strutil::{chars_to_string, string_to_chars};

verus! {

/// `c` is one of the configured word-break characters.
pub open spec fn is_break(breaks: Seq<char>, c: char) -> bool {
    exists|i: int| 0 <= i < breaks.len() && breaks[i] == c
}

/// Where a backward word motion from just before `i + 2` stops: one past the
/// nearest break character at or below `i`, or the start of the line.
pub open spec fn prev_break_idx_from(chars: Seq<char>, breaks: Seq<char>, i: int) -> int
    decreases i + 1,
{
    if i < 0 || i >= chars.len() {
        0
    } else if is_break(breaks, chars[i]) {
        i + 1
    } else {
        prev_break_idx_from(chars, breaks, i - 1)
    }
}

/// Where a backward word motion from `pos` stops.
pub open spec fn prev_break_idx(chars: Seq<char>, breaks: Seq<char>, pos: int) -> int {
    prev_break_idx_from(chars, breaks, pos - 2)
}

/// Where a forward word motion scanning from `i` stops: one past the nearest
/// break character at or above `i`, or the end of the line.
pub open spec fn next_break_idx_from(chars: Seq<char>, breaks: Seq<char>, i: int) -> int
    decreases chars.len() - i,
{
    if i < 0 || i >= chars.len() {
        chars.len() as int
    } else if is_break(breaks, chars[i]) {
        i + 1
    } else {
        next_break_idx_from(chars, breaks, i + 1)
    }
}

/// Where a forward word motion from `pos` stops.
pub open spec fn next_break_idx(chars: Seq<char>, breaks: Seq<char>, pos: int) -> int {
    next_break_idx_from(chars, breaks, pos + 1)
}

/// The backward stop never passes the cursor.
pub proof fn lemma_prev_break_bounds(chars: Seq<char>, breaks: Seq<char>, i: int)
    ensures
        0 <= prev_break_idx_from(chars, breaks, i),
        i >= 0 ==> prev_break_idx_from(chars, breaks, i) <= i + 1,
        i < 0 ==> prev_break_idx_from(chars, breaks, i) == 0,
    decreases i + 1,
{
    if !(i < 0 || i >= chars.len()) && !is_break(breaks, chars[i]) {
        lemma_prev_break_bounds(chars, breaks, i - 1);
    }
}

/// The forward stop stays between the scan start and the end of the line.
pub proof fn lemma_next_break_bounds(chars: Seq<char>, breaks: Seq<char>, i: int)
    requires
        0 <= i,
    ensures
        next_break_idx_from(chars, breaks, i) <= chars.len(),
        i <= chars.len() ==> i <= next_break_idx_from(chars, breaks, i),
    decreases chars.len() - i,
{
    if !(i < 0 || i >= chars.len()) && !is_break(breaks, chars[i]) {
        lemma_next_break_bounds(chars, breaks, i + 1);
    }
}

/// Tests whether `c` is a word-break character.
fn is_break_exec(breaks: &Vec<char>, c: char) -> (r: bool)
    ensures
        r == is_break(breaks@, c),
{
    let n = breaks.len();
    let mut i: usize = 0;
    while i < n
        invariant
            i <= n,
            n == breaks@.len(),
            forall|j: int| 0 <= j < i ==> breaks@[j] != c,
        decreases n - i,
    {
        if breaks[i] == c {
            return true;
        }
        i += 1;
    }
    false
}

/// A line of text with a cursor in `0 ..= len`.
pub struct TextBuffer {
    pub chars: Vec<char>,
    pub pos: usize,
}

impl TextBuffer {
    pub open spec fn wf(self) -> bool {
        self.pos <= self.chars@.len()
    }

    pub fn new() -> (r: TextBuffer)
        ensures
            r.wf(),
            r.chars@.len() == 0,
            r.pos == 0,
    {
        TextBuffer { chars: Vec::new(), pos: 0 }
    }

    /// The buffer content as text.
    pub fn text(&self) -> (r: String)
        ensures
            r@ == self.chars@,
    {
        chars_to_string(&self.chars)
    }

    /// Replaces the whole content and puts the cursor at the end.
    pub fn replace(&mut self, new: &str)
        ensures
            final(self).wf(),
            final(self).chars@ == new@,
            final(self).pos == new@.len(),
    {
        let chars = string_to_chars(new);
        let pos = chars.len();
        self.chars = chars;
        self.pos = pos;
    }

    /// Inserts a character at the cursor and advances it.
    pub fn insert(&mut self, ch: char)
        requires
            old(self).wf(),
            old(self).chars@.len() < usize::MAX,
        ensures
            final(self).wf(),
            final(self).chars@ == old(self).chars@.insert(old(self).pos as int, ch),
            final(self).pos == old(self).pos + 1,
    {
        self.chars.insert(self.pos, ch);
        self.pos = self.pos + 1;
    }

    /// Overwrites the character at the cursor and advances; at the end of the
    /// line it inserts instead.
    pub fn overwrite(&mut self, ch: char)
        requires
            old(self).wf(),
            old(self).chars@.len() < usize::MAX,
        ensures
            final(self).wf(),
            old(self).pos == old(self).chars@.len() ==> final(self).chars@ == old(
                self,
            ).chars@.insert(old(self).pos as int, ch),
            old(self).pos < old(self).chars@.len() ==> final(self).chars@ == old(
                self,
            ).chars@.update(old(self).pos as int, ch),
            final(self).pos == old(self).pos + 1,
    {
        if self.pos == self.chars.len() {
            self.chars.insert(self.pos, ch);
        } else {
            self.chars.set(self.pos, ch);
        }
        self.pos = self.pos + 1;
    }

    /// Erases the character before the cursor, when there is one.
    pub fn erase(&mut self)
        requires
            old(self).wf(),
        ensures
            final(self).wf(),
            old(self).pos > 0 ==> {
                &&& final(self).chars@ == old(self).chars@.remove(old(self).pos - 1)
                &&& final(self).pos == old(self).pos - 1
            },
            old(self).pos == 0 ==> *final(self) == *old(self),
    {
        if self.pos > 0 {
            self.pos = self.pos - 1;
            self.chars.remove(self.pos);
        }
    }

    /// Clears the line.
    pub fn erase_all(&mut self)
        ensures
            final(self).wf(),
            final(self).chars@.len() == 0,
            final(self).pos == 0,
    {
        self.chars = Vec::new();
        self.pos = 0;
    }

    /// Moves the cursor one place left, stopping at the start.
    pub fn backward(&mut self)
        requires
            old(self).wf(),
        ensures
            final(self).wf(),
            final(self).chars == old(self).chars,
            old(self).pos > 0 ==> final(self).pos == old(self).pos - 1,
            old(self).pos == 0 ==> final(self).pos == 0,
    {
        if self.pos > 0 {
            self.pos = self.pos - 1;
        }
    }

    /// Moves the cursor one place right, stopping one past the end.
    pub fn forward(&mut self)
        requires
            old(self).wf(),
        ensures
            final(self).wf(),
            final(self).chars == old(self).chars,
            old(self).pos < old(self).chars@.len() ==> final(self).pos == old(self).pos + 1,
            old(self).pos == old(self).chars@.len() ==> final(self).pos == old(self).pos,
    {
        if self.pos < self.chars.len() {
            self.pos = self.pos + 1;
        }
    }

    pub fn move_to_head(&mut self)
        ensures
            final(self).wf(),
            final(self).chars == old(self).chars,
            final(self).pos == 0,
    {
        self.pos = 0;
    }

    pub fn move_to_tail(&mut self)
        ensures
            final(self).wf(),
            final(self).chars == old(self).chars,
            final(self).pos == old(self).chars@.len(),
    {
        self.pos = self.chars.len();
    }

    /// Where a backward word motion from the cursor stops.
    fn find_previous_nearest(&self, breaks: &Vec<char>) -> (r: usize)
        requires
            self.wf(),
        ensures
            r == prev_break_idx(self.chars@, breaks@, self.pos as int),
            r <= self.pos,
    {
        proof {
            lemma_prev_break_bounds(self.chars@, breaks@, self.pos as int - 2);
        }
        if self.pos < 2 {
            return 0;
        }
        let mut i: usize = self.pos - 2;
        loop
            invariant
                self.wf(),
                i < self.chars@.len(),
                i <= self.pos - 2,
                prev_break_idx(self.chars@, breaks@, self.pos as int) == prev_break_idx_from(
                    self.chars@,
                    breaks@,
                    i as int,
                ),
            ensures
                prev_break_idx(self.chars@, breaks@, self.pos as int) == prev_break_idx_from(
                    self.chars@,
                    breaks@,
                    i as int,
                ),
                is_break(breaks@, self.chars@[i as int]) || i == 0,
                is_break(breaks@, self.chars@[i as int]) || prev_break_idx_from(
                    self.chars@,
                    breaks@,
                    i as int,
                ) == 0,
            decreases i,
        {
            if is_break_exec(breaks, self.chars[i]) {
                break ;
            }
            if i == 0 {
                proof {
                    assert(prev_break_idx_from(self.chars@, breaks@, -1) == 0);
                }
                break ;
            }
            i -= 1;
        }
        if is_break_exec(breaks, self.chars[i]) {
            i + 1
        } else {
            0
        }
    }

    /// Where a forward word motion from the cursor stops.
    fn find_next_nearest(&self, breaks: &Vec<char>) -> (r: usize)
        requires
            self.wf(),
        ensures
            r == next_break_idx(self.chars@, breaks@, self.pos as int),
            self.pos <= r <= self.chars@.len(),
    {
        proof {
            lemma_next_break_bounds(self.chars@, breaks@, self.pos as int + 1);
        }
        let n = self.chars.len();
        if self.pos >= n {
            return n;
        }
        let mut i: usize = self.pos + 1;
        while i < n
            invariant
                self.wf(),
                self.pos + 1 <= i,
                i <= n,
                n == self.chars@.len(),
                next_break_idx(self.chars@, breaks@, self.pos as int) == next_break_idx_from(
                    self.chars@,
                    breaks@,
                    i as int,
                ),
            decreases n - i,
        {
            if is_break_exec(breaks, self.chars[i]) {
                return i + 1;
            }
            i += 1;
        }
        n
    }

    /// Moves the cursor to the previous word boundary.
    pub fn move_to_previous_nearest(&mut self, breaks: &Vec<char>)
        requires
            old(self).wf(),
        ensures
            final(self).wf(),
            final(self).chars == old(self).chars,
            final(self).pos == prev_break_idx(old(self).chars@, breaks@, old(self).pos as int),
    {
        let idx = self.find_previous_nearest(breaks);
        self.pos = idx;
    }

    /// Moves the cursor to the next word boundary.
    pub fn move_to_next_nearest(&mut self, breaks: &Vec<char>)
        requires
            old(self).wf(),
        ensures
            final(self).wf(),
            final(self).chars == old(self).chars,
            final(self).pos == next_break_idx(old(self).chars@, breaks@, old(self).pos as int),
    {
        let idx = self.find_next_nearest(breaks);
        self.pos = idx;
    }

    /// Removes the characters between `from` and the cursor and puts the
    /// cursor at `from`.
    fn erase_range_before(&mut self, from: usize)
        requires
            old(self).wf(),
            from <= old(self).pos,
        ensures
            final(self).wf(),
            final(self).chars@ == old(self).chars@.subrange(0, from as int) + old(
                self,
            ).chars@.subrange(old(self).pos as int, old(self).chars@.len() as int),
            final(self).pos == from,
    {
        let ghost orig = self.chars@;
        let ghost opos = self.pos as int;
        let mut removed: usize = 0;
        let count = self.pos - from;
        while removed < count
            invariant
                self.wf(),
                removed <= count,
                count == opos - from,
                from <= self.pos,
                self.pos == opos - removed,
                self.chars@ == orig.subrange(0, self.pos - from + from as int).add(
                    orig.subrange(opos, orig.len() as int),
                ),
                from + count <= orig.len(),
            decreases count - removed,
        {
            proof {
                assert(orig.subrange(0, opos - removed) =~= orig.subrange(
                    0,
                    self.pos - from + from as int,
                ));
            }
            self.pos = self.pos - 1;
            self.chars.remove(self.pos);
            removed += 1;
            proof {
                let keep = opos - removed;
                assert(self.chars@ =~= orig.subrange(0, keep).add(
                    orig.subrange(opos, orig.len() as int),
                ));
                assert(orig.subrange(0, keep) =~= orig.subrange(
                    0,
                    self.pos - from + from as int,
                ));
            }
        }
        proof {
            assert(self.chars@ =~= orig.subrange(0, from as int).add(
                orig.subrange(opos, orig.len() as int),
            ));
        }
    }

    /// Removes the characters between the cursor and `to`, leaving the
    /// cursor in place.
    fn erase_range_after(&mut self, to: usize)
        requires
            old(self).wf(),
            old(self).pos <= to <= old(self).chars@.len(),
        ensures
            final(self).wf(),
            final(self).chars@ == old(self).chars@.subrange(0, old(self).pos as int) + old(
                self,
            ).chars@.subrange(to as int, old(self).chars@.len() as int),
            final(self).pos == old(self).pos,
    {
        let ghost orig = self.chars@;
        let ghost opos = self.pos as int;
        let mut removed: usize = 0;
        let count = to - self.pos;
        while removed < count
            invariant
                self.wf(),
                removed <= count,
                count == to - opos,
                self.pos == opos,
                to <= orig.len(),
                self.chars@ == orig.subrange(0, opos).add(
                    orig.subrange(opos + removed, orig.len() as int),
                ),
            decreases count - removed,
        {
            self.chars.remove(self.pos);
            removed += 1;
            proof {
                assert(self.chars@ =~= orig.subrange(0, opos).add(
                    orig.subrange(opos + removed, orig.len() as int),
                ));
            }
        }
        proof {
            assert(self.chars@ =~= orig.subrange(0, opos).add(
                orig.subrange(to as int, orig.len() as int),
            ));
        }
    }

    /// Erases from the previous word boundary to the cursor.
    pub fn erase_to_previous_nearest(&mut self, breaks: &Vec<char>)
        requires
            old(self).wf(),
        ensures
            final(self).wf(),
            ({
                let idx = prev_break_idx(old(self).chars@, breaks@, old(self).pos as int);
                &&& final(self).chars@ == old(self).chars@.subrange(0, idx) + old(
                    self,
                ).chars@.subrange(old(self).pos as int, old(self).chars@.len() as int)
                &&& final(self).pos == idx
            }),
    {
        let idx = self.find_previous_nearest(breaks);
        self.erase_range_before(idx);
    }

    /// Erases from the cursor to the next word boundary.
    pub fn erase_to_next_nearest(&mut self, breaks: &Vec<char>)
        requires
            old(self).wf(),
        ensures
            final(self).wf(),
            ({
                let idx = next_break_idx(old(self).chars@, breaks@, old(self).pos as int);
                &&& final(self).chars@ == old(self).chars@.subrange(0, old(self).pos as int)
                    + old(self).chars@.subrange(idx, old(self).chars@.len() as int)
                &&& final(self).pos == old(self).pos
            }),
    {
        let idx = self.find_next_nearest(breaks);
        self.erase_range_after(idx);
    }
}

} // verus!
