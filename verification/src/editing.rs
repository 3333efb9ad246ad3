//! Stepping the array index nearest to the cursor.
//!
//! The query is scanned for bracketed indices like `[3]` or `[-1]`; the one
//! nearest to the cursor is stepped up or down, cycling within the bounds of
//! the array that the filter prefix before the bracket selects.

use vstd::prelude::*;

use crate::buffer::TextBuffer;
use crate::engine::{eval_stream, run_filter};
use crate::strutil::{chars_to_string, dec_str};

verus! {

/// A decimal digit.
pub open spec fn is_digit(c: char) -> bool {
    48 <= (c as u32) <= 57
}

/// Its value.
pub open spec fn digit_of(c: char) -> int {
    (c as u32) - 48
}

/// The first index at or after `i` holding `[`.
pub open spec fn bracket_from(q: Seq<char>, i: int) -> int
    decreases q.len() - i,
{
    if i < 0 || i >= q.len() {
        q.len() as int
    } else if q[i] == '[' {
        i
    } else {
        bracket_from(q, i + 1)
    }
}

/// The first index at or after `i` holding a non-digit.
pub open spec fn skip_digits(q: Seq<char>, i: int) -> int
    decreases q.len() - i,
{
    if i < 0 || i >= q.len() {
        q.len() as int
    } else if is_digit(q[i]) {
        skip_digits(q, i + 1)
    } else {
        i
    }
}

/// Where the scan from `start` finds a bracketed index: the positions of the
/// `[` and of the `]` closing an optional minus, one arbitrary character and
/// a run of digits.
pub open spec fn find_array_index_spec(q: Seq<char>, start: int) -> Option<(int, int)> {
    let b = bracket_from(q, start);
    if b >= q.len() {
        None
    } else {
        let j = if b + 1 < q.len() && q[b + 1] == '-' {
            b + 2
        } else {
            b + 1
        };
        if j >= q.len() {
            None
        } else {
            let k = skip_digits(q, j + 1);
            if k < q.len() && q[k] == ']' {
                Some((b, k))
            } else {
                None
            }
        }
    }
}

/// Bounds of the scan's spec: both ends lie in the text and in order, and
/// a found position holds the opening bracket.
pub proof fn lemma_bracket_from_bounds(q: Seq<char>, i: int)
    requires
        0 <= i,
    ensures
        i <= bracket_from(q, i) || bracket_from(q, i) == q.len(),
        bracket_from(q, i) <= q.len(),
        bracket_from(q, i) < q.len() ==> q[bracket_from(q, i)] == '[',
    decreases q.len() - i,
{
    if !(i < 0 || i >= q.len()) && q[i] != '[' {
        lemma_bracket_from_bounds(q, i + 1);
    }
}

/// Same for the digit run.
pub proof fn lemma_skip_digits_bounds(q: Seq<char>, i: int)
    requires
        0 <= i,
    ensures
        skip_digits(q, i) <= q.len(),
        i <= q.len() ==> i <= skip_digits(q, i),
    decreases q.len() - i,
{
    if !(i < 0 || i >= q.len()) && is_digit(q[i]) {
        lemma_skip_digits_bounds(q, i + 1);
    }
}

/// Finds the first bracketed index at or after `start`, as the scan spec
/// says: the `[` position and the `]` position.
pub fn find_array_index(query: &Vec<char>, start: usize) -> (r: Option<(usize, usize)>)
    ensures
        match r {
            Some(p) => {
                &&& find_array_index_spec(query@, start as int) == Some((p.0 as int, p.1 as int))
                &&& start <= p.0 < p.1 < query@.len()
                &&& query@[p.0 as int] == '['
                &&& query@[p.1 as int] == ']'
            },
            None => find_array_index_spec(query@, start as int) is None,
        },
{
    let n = query.len();
    let mut b: usize = start;
    while b < n && query[b] != '['
        invariant
            start <= b,
            b <= n || (start > n && b == start),
            n == query@.len(),
            bracket_from(query@, start as int) == bracket_from(query@, b as int),
        decreases n - b,
    {
        b += 1;
    }
    proof {
        lemma_bracket_from_bounds(query@, b as int);
    }
    if b >= n {
        return None;
    }
    let j = if b + 1 < n && query[b + 1] == '-' {
        b + 2
    } else {
        b + 1
    };
    if j >= n {
        return None;
    }
    let mut k: usize = j + 1;
    while k < n && query[k] as u32 >= 48 && query[k] as u32 <= 57
        invariant
            j + 1 <= k,
            k <= n,
            n == query@.len(),
            skip_digits(query@, j as int + 1) == skip_digits(query@, k as int),
        decreases n - k,
    {
        k += 1;
    }
    proof {
        lemma_skip_digits_bounds(query@, k as int);
    }
    if k < n && query[k] == ']' {
        Some((b, k))
    } else {
        None
    }
}

/// A found group lies within the text, after the scan start, with its
/// brackets in place.
pub proof fn lemma_find_bounds(q: Seq<char>, pos: int)
    requires
        0 <= pos,
    ensures
        find_array_index_spec(q, pos) matches Some(g) ==> {
            &&& pos <= g.0 < g.1 < q.len()
            &&& q[g.0] == '['
            &&& q[g.1] == ']'
        },
{
    lemma_bracket_from_bounds(q, pos);
    let b = bracket_from(q, pos);
    if b < q.len() {
        let j = if b + 1 < q.len() && q[b + 1] == '-' {
            b + 2
        } else {
            b + 1
        };
        if j < q.len() {
            lemma_skip_digits_bounds(q, j + 1);
        }
    }
}

/// The bracket groups of the query, left to right: each found by the scan
/// starting one past the previous group's closing bracket.
pub open spec fn array_groups_from(q: Seq<char>, pos: int) -> Seq<(int, int)>
    decreases q.len() - pos,
        when 0 <= pos
        via array_groups_from_decreases
{
    match find_array_index_spec(q, pos) {
        Some(g) => seq![g] + array_groups_from(q, g.1 + 1),
        None => Seq::empty(),
    }
}

#[via_fn]
proof fn array_groups_from_decreases(q: Seq<char>, pos: int) {
    lemma_find_bounds(q, pos);
}

/// How far the cursor is from the bracket segment: zero inside it, else the
/// gap to the nearer end.
pub open spec fn distance_spec(start: int, end: int, cursor: int) -> int {
    if start <= cursor && cursor < end {
        0
    } else if cursor < start {
        start - cursor
    } else {
        cursor - end
    }
}

/// Distance from the cursor to a bracket segment.
pub fn distance_from(start: usize, end: usize, cursor: usize) -> (r: usize)
    requires
        start <= end,
    ensures
        r == distance_spec(start as int, end as int, cursor as int),
{
    if start <= cursor && cursor < end {
        0
    } else if cursor < start {
        start - cursor
    } else {
        cursor - end
    }
}

/// The distance from the cursor to one group.
pub open spec fn group_distance(g: (int, int), cursor: int) -> int {
    distance_spec(g.0, g.1, cursor)
}

/// The group at `i` is nearest to the cursor, and first among the equally
/// near.
pub open spec fn is_first_nearest(gs: Seq<(int, int)>, cursor: int, i: int) -> bool {
    &&& 0 <= i < gs.len()
    &&& forall|j: int|
        0 <= j < gs.len() ==> group_distance(#[trigger] gs[j], cursor) >= group_distance(
            gs[i],
            cursor,
        )
    &&& forall|j: int|
        0 <= j < i ==> group_distance(#[trigger] gs[j], cursor) > group_distance(gs[i], cursor)
}

/// The bracket group nearest to the cursor, earliest on ties.
pub open spec fn nearest_group(q: Seq<char>, cursor: int) -> Option<(int, int)> {
    let gs = array_groups_from(q, 0);
    if gs.len() == 0 {
        None
    } else {
        Some(gs[choose|i: int| is_first_nearest(gs, cursor, i)])
    }
}

/// Two first-nearest positions coincide.
proof fn lemma_first_nearest_unique(gs: Seq<(int, int)>, cursor: int, i: int, j: int)
    requires
        is_first_nearest(gs, cursor, i),
        is_first_nearest(gs, cursor, j),
    ensures
        i == j,
{
    if i < j {
        assert(group_distance(gs[i], cursor) > group_distance(gs[j], cursor));
        assert(group_distance(gs[i], cursor) >= group_distance(gs[j], cursor));
        assert(group_distance(gs[j], cursor) >= group_distance(gs[i], cursor));
    }
    if j < i {
        assert(group_distance(gs[j], cursor) > group_distance(gs[i], cursor));
        assert(group_distance(gs[i], cursor) >= group_distance(gs[j], cursor));
    }
}

/// Every character of `s` is a digit.
pub open spec fn all_digits(s: Seq<char>) -> bool {
    forall|i: int| 0 <= i < s.len() ==> is_digit(s[i])
}

/// The value of a digit run, highest digit first.
pub open spec fn digits_val(s: Seq<char>, acc: int) -> int
    decreases s.len(),
{
    if s.len() == 0 {
        acc
    } else {
        digits_val(s.drop_first(), acc * 10 + digit_of(s[0]))
    }
}

/// With a non-negative accumulator, reading digits never shrinks the value.
pub proof fn lemma_digits_val_ge(s: Seq<char>, acc: int)
    requires
        acc >= 0,
        all_digits(s),
    ensures
        digits_val(s, acc) >= acc,
    decreases s.len(),
{
    if s.len() > 0 {
        assert(is_digit(s[0]));
        assert(acc * 10 + digit_of(s[0]) >= acc) by (nonlinear_arith)
            requires
                acc >= 0,
                digit_of(s[0]) >= 0,
        ;
        assert(all_digits(s.drop_first())) by {
            assert forall|i: int| 0 <= i < s.drop_first().len() implies is_digit(
                s.drop_first()[i],
            ) by {
                assert(s.drop_first()[i] == s[i + 1]);
            }
        }
        lemma_digits_val_ge(s.drop_first(), acc * 10 + digit_of(s[0]));
    }
}


/// A tail of a slice of `s` is the corresponding slice of `s`.
proof fn lemma_sub_sub(s: Seq<char>, from: int, to: int, k: int)
    requires
        0 <= from <= to <= s.len(),
        0 <= k <= to - from,
    ensures
        s.subrange(from, to).subrange(k, to - from) == s.subrange(from + k, to),
{
    let a = s.subrange(from, to).subrange(k, to - from);
    let b = s.subrange(from + k, to);
    assert(a.len() == b.len());
    assert forall|x: int| 0 <= x < a.len() implies a[x] == b[x] by {
        assert(a[x] == s.subrange(from, to)[k + x]);
        assert(s.subrange(from, to)[k + x] == s[from + k + x]);
        assert(b[x] == s[from + k + x]);
    }
    assert(a =~= b);
}

/// The number a bracket segment holds: digits, optionally after a minus.
pub open spec fn parse_int_spec(s: Seq<char>) -> Option<int> {
    if s.len() > 0 && s[0] == '-' {
        let d = s.subrange(1, s.len() as int);
        if d.len() > 0 && all_digits(d) {
            Some(-digits_val(d, 0))
        } else {
            None
        }
    } else {
        if s.len() > 0 && all_digits(s) {
            Some(digits_val(s, 0))
        } else {
            None
        }
    }
}

/// Parses a signed decimal number; a number beyond the safe magnitude is
/// rejected rather than wrapped, so the result is exactly the segment's
/// value whenever that value is in range.
pub fn parse_int(s: &Vec<char>, from: usize, to: usize) -> (r: Option<i64>)
    requires
        from <= to <= s@.len(),
    ensures
        match r {
            Some(n) => parse_int_spec(s@.subrange(from as int, to as int)) == Some(n as int)
                && -1000000000 <= n <= 1000000000,
            None => ({
                let v = parse_int_spec(s@.subrange(from as int, to as int));
                v is None || v->0 > 1000000000 || v->0 < -1000000000
            }),
        },
{
    let ghost seg = s@.subrange(from as int, to as int);
    if from >= to {
        return None;
    }
    let neg = s[from] == '-';
    let dstart = if neg {
        from + 1
    } else {
        from
    };
    if dstart >= to {
        proof {
            if neg {
                assert(seg[0] == '-');
                assert(seg.subrange(1, seg.len() as int).len() == 0);
            }
        }
        return None;
    }
    let ghost digits = s@.subrange(dstart as int, to as int);
    proof {
        assert(digits.subrange(0, digits.len() as int) =~= digits);
        assert(digits.subrange(0, 0).len() == 0);
    }
    let mut acc: i64 = 0;
    let ghost mut tacc: int = 0;
    let mut over = false;
    let mut i: usize = dstart;
    while i < to
        invariant
            from <= dstart <= i <= to,
            to <= s@.len(),
            dstart < to,
            from < to,
            neg ==> dstart == from + 1,
            !neg ==> dstart == from,
            neg ==> s@[from as int] == '-',
            !neg ==> s@[from as int] != '-',
            seg == s@.subrange(from as int, to as int),
            digits == s@.subrange(dstart as int, to as int),
            all_digits(digits.subrange(0, i - dstart)),
            0 <= acc <= 1000000000,
            0 <= tacc,
            !over ==> acc as int == tacc,
            over ==> tacc > 1000000000,
            digits_val(digits, 0) == digits_val(
                digits.subrange(i - dstart, digits.len() as int),
                tacc,
            ),
        decreases to - i,
    {
        let c = s[i];
        let cv = c as u32;
        if cv < 48 || cv > 57 {
            proof {
                assert(digits[i - dstart] == s@[i as int]);
                assert(!is_digit(digits[i - dstart]));
                if neg {
                    lemma_sub_sub(s@, from as int, to as int, 1);
                    assert(seg.subrange(1, seg.len() as int) == digits);
                } else {
                    lemma_sub_sub(s@, from as int, to as int, 0);
                    assert(seg.subrange(0, seg.len() as int) == digits);
                    assert(seg =~= seg.subrange(0, seg.len() as int));
                }
            }
            return None;
        }
        let d = (cv - 48) as i64;
        proof {
            let k = i - dstart;
            let rest = digits.subrange(k, digits.len() as int);
            assert(rest[0] == digits[k]);
            assert(rest.drop_first() =~= digits.subrange(k + 1, digits.len() as int));
            assert(all_digits(digits.subrange(0, k + 1)));
            assert(digit_of(digits[k]) == d as int);
        }
        if over {
            proof {
                tacc = tacc * 10 + d as int;
            }
        } else {
            let grown = acc * 10 + d;
            proof {
                tacc = tacc * 10 + d as int;
            }
            if grown > 1000000000 {
                over = true;
            } else {
                acc = grown;
            }
        }
        i += 1;
    }
    proof {
        assert(digits.subrange(digits.len() as int, digits.len() as int).len() == 0);
        assert(digits.subrange(0, digits.len() as int) =~= digits);
        assert(digits_val(digits, 0) == tacc);
        if neg {
            assert(seg[0] == '-');
            lemma_sub_sub(s@, from as int, to as int, 1);
            assert(seg.subrange(1, seg.len() as int) == digits);
        } else {
            lemma_sub_sub(s@, from as int, to as int, 0);
            assert(seg =~= seg.subrange(0, seg.len() as int));
        }
    }
    if over {
        return None;
    }
    if neg {
        Some(-acc)
    } else {
        Some(acc)
    }
}

/// The stepped index, cycling within an array of length `len`.
pub open spec fn wrap_index(current: int, step: int, len: int) -> int {
    let moved = current + step;
    let cycled = if current == 0 && moved == -1 {
        len - 1
    } else {
        moved
    };
    if cycled > 0 && cycled >= len {
        0
    } else if cycled < -len {
        -1
    } else {
        cycled
    }
}

/// What the engine's length probe yields for the given array prefix over
/// the document stream: the first produced value read as a bounded decimal
/// number, when there is one.
pub open spec fn length_reply(docs: Seq<Seq<char>>, array: Seq<char>) -> Option<int> {
    match eval_stream(array + " | length"@, docs) {
        Some(vs) => if vs.len() > 0 {
            match parse_int_spec(vs[0]) {
                Some(v) => if -1000000000 <= v <= 1000000000 {
                    Some(v)
                } else {
                    None
                },
                None => None,
            }
        } else {
            None
        },
        None => None,
    }
}

/// Asks the filter engine for the length of the array the prefix before the
/// bracket selects.  The length comes back exactly when the document stream
/// holds one value and the engine answers with one non-negative bounded
/// decimal number.
fn query_array_length(docs: &Vec<String>, array: &Vec<char>) -> (r: Option<i64>)
    ensures
        match r {
            Some(len) => {
                &&& docs@.len() == 1
                &&& 0 <= len <= 1000000000
                &&& length_reply(docs.deep_view(), array@) == Some(len as int)
            },
            None => docs@.len() != 1 || length_reply(docs.deep_view(), array@) is None
                || length_reply(docs.deep_view(), array@)->0 < 0,
        },
{
    if docs.len() != 1 {
        return None;
    }
    let prefix = chars_to_string(array);
    let lenq = prefix.concat(" | length");
    match run_filter(lenq.as_str(), docs) {
        Ok(vals) => {
            if vals.len() == 0 {
                proof {
                    crate::strutil::lemma_deep_view_pointwise(vals);
                }
                return None;
            }
            let first = crate::strutil::string_to_chars(vals[0].as_str());
            proof {
                crate::strutil::lemma_deep_view_pointwise(vals);
                assert(vals.deep_view().len() > 0);
                assert(first@ == vals.deep_view()[0]);
                assert(first@.subrange(0, first@.len() as int) =~= first@);
            }
            match parse_int(&first, 0, first.len()) {
                Some(n) => {
                    if 0 <= n {
                        Some(n)
                    } else {
                        None
                    }
                },
                None => None,
            }
        },
        Err(_) => None,
    }
}

/// Everything the stepping decision needs, determined by the query, the
/// cursor and the documents alone: the nearest group's brackets, its
/// current index, and the selected array's length, when every step of the
/// decision succeeds.
pub open spec fn step_outcome(q: Seq<char>, cursor: int, docs: Seq<Seq<char>>) -> Option<
    (int, int, int, int),
> {
    match nearest_group(q, cursor) {
        Some(g) => match parse_int_spec(q.subrange(g.0 + 1, g.1)) {
            Some(cur) => if -1000000000 <= cur <= 1000000000 && docs.len() == 1 {
                match length_reply(docs, q.subrange(0, g.0)) {
                    Some(len) => if len >= 0 {
                        Some((g.0, g.1, cur, len))
                    } else {
                        None
                    },
                    None => None,
                }
            } else {
                None
            },
            None => None,
        },
        None => None,
    }
}

/// Steps the bracketed array index nearest to the cursor by `value`,
/// cycling within the bounds of the array the prefix before the bracket
/// selects, and keeps the cursor where it was (clamped to the new text).
/// The step happens exactly when the decision succeeds end to end: a
/// bracketed index exists, its number parses within bounds, and the length
/// probe over the single-document stream answers with a usable number;
/// otherwise nothing changes.
pub fn add_to_nearest_array_index(buffer: &mut TextBuffer, docs: &Vec<String>, value: i64) -> (r:
    bool)
    requires
        old(buffer).wf(),
        -1000000000000000000 <= value <= 1000000000000000000,
    ensures
        final(buffer).wf(),
        ({
            let q = old(buffer).chars@;
            match step_outcome(q, old(buffer).pos as int, docs.deep_view()) {
                None => !r && *final(buffer) == *old(buffer),
                Some(d) => {
                    &&& r
                    &&& final(buffer).chars@ == q.subrange(0, d.0 + 1) + dec_rep(
                        wrap_index(d.2, value as int, d.3),
                    ) + q.subrange(d.1, q.len() as int)
                    &&& final(buffer).pos == if old(buffer).pos <= final(buffer).chars@.len() {
                        old(buffer).pos as int
                    } else {
                        final(buffer).chars@.len() as int
                    }
                },
            }
        }),
    {
        let cursor = buffer.pos;
        let query = &buffer.chars;
        let n = query.len();
        let ghost q = query@;
        let mut groups: Vec<(usize, usize)> = Vec::new();
        let ghost mut gseq: Seq<(int, int)> = Seq::empty();
        let mut pos: usize = 0;
        proof {
            assert(gseq + array_groups_from(q, 0) =~= array_groups_from(q, 0));
        }
        loop
            invariant
                n == q.len(),
                q == query@,
                gseq.len() == groups@.len(),
                forall|k: int|
                    0 <= k < gseq.len() ==> #[trigger] gseq[k] == (
                        groups@[k].0 as int,
                        groups@[k].1 as int,
                    ),
                forall|k: int|
                    0 <= k < groups@.len() ==> (#[trigger] groups@[k]).0 < groups@[k].1
                        && groups@[k].1 < n,
                array_groups_from(q, 0) == gseq + array_groups_from(q, pos as int),
                pos <= n + 1,
            ensures
                n == q.len(),
                gseq.len() == groups@.len(),
                forall|k: int|
                    0 <= k < gseq.len() ==> #[trigger] gseq[k] == (
                        groups@[k].0 as int,
                        groups@[k].1 as int,
                    ),
                forall|k: int|
                    0 <= k < groups@.len() ==> (#[trigger] groups@[k]).0 < groups@[k].1
                        && groups@[k].1 < n,
                array_groups_from(q, 0) == gseq,
            decreases n + 1 - pos,
        {
            let ghost before = gseq;
            match find_array_index(query, pos) {
                Some((s, e)) => {
                    proof {
                        assert(array_groups_from(q, pos as int) == seq![(s as int, e as int)]
                            + array_groups_from(q, e as int + 1));
                        gseq = gseq.push((s as int, e as int));
                        assert(gseq =~= before + seq![(s as int, e as int)]);
                        assert(gseq + array_groups_from(q, e as int + 1) =~= before + (seq![
                            (s as int, e as int),
                        ] + array_groups_from(q, e as int + 1)));
                    }
                    groups.push((s, e));
                    pos = e + 1;
                },
                None => {
                    proof {
                        assert(array_groups_from(q, pos as int) =~= Seq::<(int, int)>::empty());
                        assert(gseq + array_groups_from(q, pos as int) =~= gseq);
                    }
                    break ;
                },
            }
        }
        if groups.len() == 0 {
            proof {
                assert(array_groups_from(q, 0).len() == 0);
            }
            return false;
        }
        let g0 = groups[0];
        let mut best_i: usize = 0;
        let mut best_d: usize = distance_from(g0.0, g0.1, cursor);
        let mut k: usize = 1;
        while k < groups.len()
            invariant
                n == q.len(),
                q == query@,
                gseq.len() == groups@.len(),
                forall|x: int|
                    0 <= x < gseq.len() ==> #[trigger] gseq[x] == (
                        groups@[x].0 as int,
                        groups@[x].1 as int,
                    ),
                forall|x: int|
                    0 <= x < groups@.len() ==> (#[trigger] groups@[x]).0 < groups@[x].1
                        && groups@[x].1 < n,
                array_groups_from(q, 0) == gseq,
                groups@.len() > 0,
                (best_i as int) < k <= groups@.len(),
                best_d == group_distance(gseq[best_i as int], cursor as int),
                forall|j: int|
                    0 <= j < k ==> group_distance(#[trigger] gseq[j], cursor as int)
                        >= group_distance(gseq[best_i as int], cursor as int),
                forall|j: int|
                    0 <= j < best_i ==> group_distance(#[trigger] gseq[j], cursor as int)
                        > group_distance(gseq[best_i as int], cursor as int),
            decreases groups@.len() - k,
        {
            let gk = groups[k];
            let d = distance_from(gk.0, gk.1, cursor);
            if d < best_d {
                best_i = k;
                best_d = d;
            }
            k += 1;
        }
        proof {
            assert(is_first_nearest(gseq, cursor as int, best_i as int));
            let ci = choose|i: int| is_first_nearest(gseq, cursor as int, i);
            lemma_first_nearest_unique(gseq, cursor as int, best_i as int, ci);
            assert(nearest_group(q, cursor as int) == Some(gseq[best_i as int]));
        }
        let picked = groups[best_i];
        let s = picked.0;
        let e = picked.1;
        proof {
            assert(gseq[best_i as int] == (s as int, e as int));
        }
        let current = match parse_int(query, s + 1, e) {
            Some(v) => v,
            None => {
                return false;
            },
        };
        let mut array: Vec<char> = Vec::new();
        let mut ci: usize = 0;
        while ci < s
            invariant
                ci <= s,
                s < query@.len(),
                q == query@,
                array@ == query@.subrange(0, ci as int),
            decreases s - ci,
        {
            array.push(query[ci]);
            proof {
                assert(array@ =~= query@.subrange(0, ci as int + 1));
            }
            ci += 1;
        }
        let len = match query_array_length(docs, &array) {
            Some(l) => l,
            None => {
                return false;
            },
        };
        let stepped = wrap_index_exec(current, value, len);
        let digits = int_to_chars(stepped);
        let mut rebuilt: Vec<char> = Vec::new();
        let mut ri: usize = 0;
        let upto = s + 1;
        while ri < upto
            invariant
                ri <= upto,
                upto == s + 1,
                s < query@.len(),
                q == query@,
                rebuilt@ == query@.subrange(0, ri as int),
            decreases upto - ri,
        {
            rebuilt.push(query[ri]);
            proof {
                assert(rebuilt@ =~= query@.subrange(0, ri as int + 1));
            }
            ri += 1;
        }
        let mut di: usize = 0;
        let dn = digits.len();
        let ghost mid = rebuilt@;
        while di < dn
            invariant
                di <= dn,
                dn == digits@.len(),
                rebuilt@ == mid + digits@.subrange(0, di as int),
            decreases dn - di,
        {
            rebuilt.push(digits[di]);
            proof {
                assert(rebuilt@ =~= mid + digits@.subrange(0, di as int + 1));
            }
            di += 1;
        }
        let mut ti: usize = e;
        let ghost mid2 = rebuilt@;
        while ti < n
            invariant
                e <= ti <= n,
                n == query@.len(),
                q == query@,
                rebuilt@ == mid2 + query@.subrange(e as int, ti as int),
            decreases n - ti,
        {
            rebuilt.push(query[ti]);
            proof {
                assert(rebuilt@ =~= mid2 + query@.subrange(e as int, ti as int + 1));
            }
            ti += 1;
        }
        proof {
            assert(digits@.subrange(0, digits@.len() as int) =~= digits@);
            assert(query@.subrange(e as int, n as int) =~= query@.subrange(
                e as int,
                query@.len() as int,
            ));
        }
        let new_len = rebuilt.len();
        buffer.chars = rebuilt;
        buffer.pos = if cursor <= new_len {
            cursor
        } else {
            new_len
        };
        proof {
            assert(old(buffer).chars@ == q);
        }
        true
    }

/// The decimal writing of a possibly negative number.
pub open spec fn dec_rep(n: int) -> Seq<char> {
    if n < 0 {
        seq!['-'] + dec_str(-n)
    } else {
        dec_str(n)
    }
}

/// Steps and cycles an index within bounds, as `wrap_index` says.
fn wrap_index_exec(current: i64, step: i64, len: i64) -> (r: i64)
    requires
        -1000000000 <= current <= 1000000000,
        -1000000000000000000 <= step <= 1000000000000000000,
        0 <= len <= 1000000000,
    ensures
        r == wrap_index(current as int, step as int, len as int),
        -1000000001 <= r <= 1000000001,
{
    let moved = current + step;
    let cycled = if current == 0 && moved == -1 {
        len - 1
    } else {
        moved
    };
    if cycled > 0 && cycled >= len {
        0
    } else if cycled < -len {
        -1
    } else {
        cycled
    }
}

/// The decimal characters of a possibly negative number.
fn int_to_chars(n: i64) -> (r: Vec<char>)
    requires
        -1100000001 <= n <= 1100000001,
    ensures
        r@ == dec_rep(n as int),
{
    if n < 0 {
        let mag = (-n) as usize;
        let tail = crate::strutil::string_to_chars(crate::strutil::usize_to_string(mag).as_str());
        let mut v: Vec<char> = Vec::new();
        v.push('-');
        let mut i: usize = 0;
        let tn = tail.len();
        while i < tn
            invariant
                i <= tn,
                tn == tail@.len(),
                v@ == seq!['-'] + tail@.subrange(0, i as int),
            decreases tn - i,
        {
            v.push(tail[i]);
            proof {
                assert(v@ =~= seq!['-'] + tail@.subrange(0, i as int + 1));
            }
            i += 1;
        }
        proof {
            assert(tail@.subrange(0, tn as int) =~= tail@);
        }
        v
    } else {
        crate::strutil::string_to_chars(crate::strutil::usize_to_string(n as usize).as_str())
    }
}

} // verus!
