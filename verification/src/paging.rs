//! Paged listings: rows in order, sliced after a cursor.
//!
//! Rows are ordered by one or more texts. The cursor of a page is the key of
//! its last row, which joins those texts with NUL, and the next page starts at
//! the first row whose key is greater.

use crate::text::{
    lemma_lex_irreflexive, lemma_lex_transitive, lemma_text_total, lex_lt, text_before, text_lt,
};
use vstd::prelude::*;
use vstd::string::*;
use vstd::utf8::*;

verus! {

/// The page size of a request that names none.
pub const DEFAULT_LIST_PAGE_SIZE: usize = 100;

/// The greatest page size.
pub const MAX_LIST_PAGE_SIZE: usize = 1000;

/// The page size that a request gets.
pub open spec fn page_size_for(supplied: Option<usize>) -> usize {
    let raw = match supplied {
        Some(n) => n,
        None => DEFAULT_LIST_PAGE_SIZE,
    };
    if raw < 1 {
        1
    } else if raw > MAX_LIST_PAGE_SIZE {
        MAX_LIST_PAGE_SIZE
    } else {
        raw
    }
}

/// The page size that a request gets: the one it names, at least one and at
/// most [`MAX_LIST_PAGE_SIZE`].
pub fn clamp_page_size(supplied: Option<usize>) -> (r: usize)
    ensures
        r == page_size_for(supplied),
        1 <= r <= MAX_LIST_PAGE_SIZE,
{
    let raw: usize = match supplied {
        Some(n) => n,
        None => DEFAULT_LIST_PAGE_SIZE,
    };
    if raw < 1 {
        1
    } else if raw > MAX_LIST_PAGE_SIZE {
        MAX_LIST_PAGE_SIZE
    } else {
        raw
    }
}

/// Lexicographic order of lists of texts.
pub open spec fn parts_lt(a: Seq<Seq<char>>, b: Seq<Seq<char>>) -> bool
    decreases a.len(),
{
    if b.len() == 0 {
        false
    } else if a.len() == 0 {
        true
    } else if a[0] != b[0] {
        text_lt(a[0], b[0])
    } else {
        parts_lt(a.drop_first(), b.drop_first())
    }
}

/// Texts joined with NUL.
pub open spec fn joined(parts: Seq<Seq<char>>) -> Seq<char>
    decreases parts.len(),
{
    if parts.len() == 0 {
        Seq::empty()
    } else if parts.len() == 1 {
        parts[0]
    } else {
        parts[0] + seq!['\0'] + joined(parts.drop_first())
    }
}

/// A row of a paged listing.
pub trait PageRow: Sized {
    /// The texts that rows are ordered by.
    spec fn parts(&self) -> Seq<Seq<char>>;

    /// Whether this row comes before another.
    fn comes_before(&self, other: &Self) -> (r: bool)
        ensures
            r == parts_lt(self.parts(), other.parts()),
    ;

    /// The row's cursor key.
    fn cursor_key(&self) -> (r: String)
        ensures
            r@ == joined(self.parts()),
    ;
}

/// Where `x` goes in `s`: behind the last row that does not come after it.
pub open spec fn spot<T: PageRow>(s: Seq<T>, x: T) -> int
    decreases s.len(),
{
    if s.len() == 0 {
        0
    } else if parts_lt(x.parts(), s.last().parts()) {
        spot(s.drop_last(), x)
    } else {
        s.len() as int
    }
}

/// The rows in order, rows with equal texts in their given order.
pub open spec fn ordered<T: PageRow>(rows: Seq<T>) -> Seq<T>
    decreases rows.len(),
{
    if rows.len() == 0 {
        Seq::empty()
    } else {
        let init = ordered(rows.drop_last());
        init.insert(spot(init, rows.last()), rows.last())
    }
}

/// The first row of `s` whose key is greater than `k`; the length if there is
/// none.
pub open spec fn first_after<T: PageRow>(s: Seq<T>, k: Seq<char>) -> int
    decreases s.len(),
{
    if s.len() == 0 {
        0
    } else if text_lt(k, joined(s[0].parts())) {
        0
    } else {
        1 + first_after(s.drop_first(), k)
    }
}

/// Where the page after a cursor starts.
pub open spec fn page_start<T: PageRow>(s: Seq<T>, after: Option<Seq<char>>) -> int {
    match after {
        Some(k) => first_after(s, k),
        None => 0,
    }
}

/// Where the page after a cursor ends.
pub open spec fn page_end<T: PageRow>(s: Seq<T>, after: Option<Seq<char>>, limit: int) -> int {
    let start = page_start(s, after);
    if start + limit < s.len() {
        start + limit
    } else {
        s.len() as int
    }
}

/// The rows of the page after a cursor, of rows in order.
pub open spec fn page_rows<T: PageRow>(
    s: Seq<T>,
    after: Option<Seq<char>>,
    limit: int,
) -> Seq<T> {
    s.subrange(page_start(s, after), page_end(s, after, limit))
}

/// The key of the page's last row, unless the page is the last one.
pub open spec fn next_key<T: PageRow>(
    s: Seq<T>,
    after: Option<Seq<char>>,
    limit: int,
) -> Option<Seq<char>> {
    let end = page_end(s, after, limit);
    if end < s.len() {
        Some(joined(s[end - 1].parts()))
    } else {
        None
    }
}

proof fn lemma_spot_bounds<T: PageRow>(s: Seq<T>, x: T)
    ensures
        0 <= spot(s, x) <= s.len(),
    decreases s.len(),
{
    if s.len() > 0 {
        lemma_spot_bounds(s.drop_last(), x);
    }
}

proof fn lemma_ordered_len<T: PageRow>(rows: Seq<T>)
    ensures
        ordered(rows).len() == rows.len(),
    decreases rows.len(),
{
    if rows.len() > 0 {
        lemma_ordered_len(rows.drop_last());
        lemma_spot_bounds(ordered(rows.drop_last()), rows.last());
    }
}

pub proof fn lemma_first_after<T: PageRow>(s: Seq<T>, k: Seq<char>)
    ensures
        0 <= first_after(s, k) <= s.len(),
        forall|i: int|
            0 <= i < first_after(s, k) ==> !text_lt(k, joined((#[trigger] s[i]).parts())),
        first_after(s, k) < s.len() ==> text_lt(k, joined(s[first_after(s, k)].parts())),
    decreases s.len(),
{
    if s.len() > 0 && !text_lt(k, joined(s[0].parts())) {
        let rest = s.drop_first();
        lemma_first_after(rest, k);
        assert forall|i: int| 0 <= i < first_after(s, k) implies !text_lt(
            k,
            joined((#[trigger] s[i]).parts()),
        ) by {
            if i > 0 {
                assert(s[i] == rest[i - 1]);
            }
        }
        if first_after(s, k) < s.len() {
            assert(s[first_after(s, k)] == rest[first_after(rest, k)]);
        }
    }
}

/// Puts rows in order.
pub fn sort_rows<'a, T: PageRow>(rows: &'a Vec<T>) -> (r: Vec<&'a T>)
    ensures
        r@.len() == rows@.len(),
        ordered(rows@).len() == rows@.len(),
        forall|i: int| 0 <= i < r@.len() ==> *(#[trigger] r@[i]) == ordered(rows@)[i],
{
    let mut out: Vec<&'a T> = Vec::new();
    let mut n: usize = 0;
    while n < rows.len()
        invariant
            n <= rows.len(),
            out@.len() == n,
            ordered(rows@.take(n as int)).len() == n,
            forall|i: int|
                0 <= i < n ==> *(#[trigger] out@[i]) == ordered(rows@.take(n as int))[i],
        decreases rows.len() - n,
    {
        let x: &'a T = &rows[n];
        let ghost init = ordered(rows@.take(n as int));
        let mut k: usize = out.len();
        proof {
            assert(init.take(k as int) =~= init);
            lemma_spot_bounds(init, *x);
        }
        while k > 0 && x.comes_before(out[k - 1])
            invariant
                k <= n,
                out@.len() == n,
                init.len() == n,
                forall|i: int| 0 <= i < n ==> *(#[trigger] out@[i]) == init[i],
                spot(init, *x) == spot(init.take(k as int), *x),
            ensures
                k <= n,
                spot(init, *x) == k,
            decreases k,
        {
            proof {
                assert(init.take(k as int).last() == init[k - 1]);
                assert(init.take(k as int).drop_last() =~= init.take(k - 1));
            }
            k -= 1;
        }
        proof {
            if k > 0 {
                assert(init.take(k as int).last() == init[k - 1]);
            }
            assert(rows@.take(n + 1).drop_last() =~= rows@.take(n as int));
            assert(rows@.take(n + 1).last() == rows@[n as int]);
        }
        out.insert(k, x);
        n += 1;
    }
    assert(rows@.take(rows.len() as int) =~= rows@);
    out
}

/// One page of rows.
pub struct Page<'a, T> {
    pub rows: Vec<&'a T>,
    /// The key of the last row, unless the page is the last one.
    pub next: Option<String>,
}

/// The page after a cursor.
pub fn page<'a, T: PageRow>(rows: &'a Vec<T>, after: Option<&str>, limit: usize) -> (r: Page<
    'a,
    T,
>)
    requires
        limit >= 1,
    ensures
        ({
            let s = ordered(rows@);
            let cursor = match after {
                Some(k) => Some(k@),
                None => None,
            };
            let want = page_rows(s, cursor, limit as int);
            &&& r.rows@.len() == want.len()
            &&& forall|i: int| 0 <= i < want.len() ==> *(#[trigger] r.rows@[i]) == want[i]
            &&& match r.next {
                Some(k) => next_key(s, cursor, limit as int) == Some(k@),
                None => next_key(s, cursor, limit as int) is None,
            }
        }),
{
    let sorted = sort_rows(rows);
    let ghost s = ordered(rows@);
    let ghost cursor = match after {
        Some(k) => Some(k@),
        None => None,
    };
    let mut start: usize = 0;
    if let Some(k) = after {
        proof {
            lemma_first_after(s, k@);
        }
        while start < sorted.len()
            invariant_except_break
                start <= sorted.len(),
                sorted@.len() == s.len(),
                forall|i: int| 0 <= i < sorted@.len() ==> *(#[trigger] sorted@[i]) == s[i],
                0 <= first_after(s, k@) <= s.len(),
                forall|i: int|
                    0 <= i < first_after(s, k@) ==> !text_lt(
                        k@,
                        joined((#[trigger] s[i]).parts()),
                    ),
                first_after(s, k@) < s.len() ==> text_lt(
                    k@,
                    joined(s[first_after(s, k@)].parts()),
                ),
                start <= first_after(s, k@),
            ensures
                start == first_after(s, k@),
            decreases sorted.len() - start,
        {
            let key = sorted[start].cursor_key();
            if text_before(k, key.as_str()) {
                assert(start == first_after(s, k@)) by {
                    if start < first_after(s, k@) {
                        assert(!text_lt(k@, joined(s[start as int].parts())));
                    }
                }
                break;
            }
            assert(start < first_after(s, k@));
            start += 1;
        }
    }
    proof {
        if let Some(k) = after {
            lemma_first_after(s, k@);
        }
    }
    let end: usize = if limit < sorted.len() - start {
        start + limit
    } else {
        sorted.len()
    };
    let mut out: Vec<&'a T> = Vec::new();
    let mut i: usize = start;
    while i < end
        invariant
            start <= i <= end <= sorted.len(),
            sorted@.len() == s.len(),
            forall|j: int| 0 <= j < sorted@.len() ==> *(#[trigger] sorted@[j]) == s[j],
            out@.len() == i - start,
            forall|j: int| 0 <= j < out@.len() ==> *(#[trigger] out@[j]) == s[start + j],
        decreases end - i,
    {
        out.push(sorted[i]);
        i += 1;
    }
    let next = if end < sorted.len() {
        Some(sorted[end - 1].cursor_key())
    } else {
        None
    };
    Page { rows: out, next }
}

proof fn lemma_parts_irreflexive(a: Seq<Seq<char>>)
    ensures
        !parts_lt(a, a),
    decreases a.len(),
{
    if a.len() > 0 {
        lemma_parts_irreflexive(a.drop_first());
    }
}

proof fn lemma_text_transitive(a: Seq<char>, b: Seq<char>, c: Seq<char>)
    requires
        text_lt(a, b),
        text_lt(b, c),
    ensures
        text_lt(a, c),
{
    lemma_lex_transitive(encode_utf8(a), encode_utf8(b), encode_utf8(c));
}

proof fn lemma_text_asymmetric(a: Seq<char>, b: Seq<char>)
    requires
        text_lt(a, b),
    ensures
        !text_lt(b, a),
        a != b,
{
    lemma_lex_irreflexive(encode_utf8(a));
    if text_lt(b, a) {
        lemma_text_transitive(a, b, a);
    }
}

proof fn lemma_parts_transitive(a: Seq<Seq<char>>, b: Seq<Seq<char>>, c: Seq<Seq<char>>)
    requires
        parts_lt(a, b),
        parts_lt(b, c),
    ensures
        parts_lt(a, c),
    decreases a.len(),
{
    if a.len() > 0 {
        if a[0] == b[0] && b[0] == c[0] {
            lemma_parts_transitive(a.drop_first(), b.drop_first(), c.drop_first());
        } else if a[0] != b[0] && b[0] != c[0] {
            lemma_text_transitive(a[0], b[0], c[0]);
            lemma_text_asymmetric(a[0], c[0]);
        }
    }
}

proof fn lemma_parts_total(a: Seq<Seq<char>>, b: Seq<Seq<char>>)
    ensures
        a == b || parts_lt(a, b) || parts_lt(b, a),
    decreases a.len(),
{
    if a.len() > 0 && b.len() > 0 {
        if a[0] == b[0] {
            lemma_parts_total(a.drop_first(), b.drop_first());
            if a.drop_first() == b.drop_first() {
                assert(a =~= seq![a[0]] + a.drop_first());
                assert(b =~= seq![b[0]] + b.drop_first());
            }
        } else {
            lemma_text_total(a[0], b[0]);
        }
    } else if a.len() == 0 && b.len() == 0 {
        assert(a =~= b);
    }
}

/// No row comes after a later one.
pub open spec fn in_order<T: PageRow>(s: Seq<T>) -> bool {
    forall|i: int, j: int|
        0 <= i < j < s.len() ==> !parts_lt((#[trigger] s[j]).parts(), (#[trigger] s[i]).parts())
}

proof fn lemma_spot_splits<T: PageRow>(s: Seq<T>, x: T)
    requires
        in_order(s),
    ensures
        0 <= spot(s, x) <= s.len(),
        forall|i: int|
            0 <= i < spot(s, x) ==> !parts_lt(x.parts(), (#[trigger] s[i]).parts()),
        forall|i: int|
            spot(s, x) <= i < s.len() ==> parts_lt(x.parts(), (#[trigger] s[i]).parts()),
    decreases s.len(),
{
    if s.len() > 0 {
        let init = s.drop_last();
        let last = s.last();
        if parts_lt(x.parts(), last.parts()) {
            lemma_spot_splits(init, x);
            assert forall|i: int| 0 <= i < spot(s, x) implies !parts_lt(
                x.parts(),
                (#[trigger] s[i]).parts(),
            ) by {
                assert(s[i] == init[i]);
            }
            assert forall|i: int| spot(s, x) <= i < s.len() implies parts_lt(
                x.parts(),
                (#[trigger] s[i]).parts(),
            ) by {
                if i < init.len() {
                    assert(s[i] == init[i]);
                }
            }
        } else {
            assert forall|i: int| 0 <= i < s.len() implies !parts_lt(
                x.parts(),
                (#[trigger] s[i]).parts(),
            ) by {
                if parts_lt(x.parts(), s[i].parts()) && i < s.len() - 1 {
                    assert(!parts_lt(s[s.len() - 1].parts(), s[i].parts()));
                    lemma_parts_total(s[i].parts(), last.parts());
                    if s[i].parts() != last.parts() {
                        lemma_parts_transitive(x.parts(), s[i].parts(), last.parts());
                    }
                }
            }
        }
    }
}

/// A listing shows every row once, in order: ordering rows neither drops nor
/// repeats any.
pub proof fn law_ordered<T: PageRow>(rows: Seq<T>)
    ensures
        ordered(rows).to_multiset() == rows.to_multiset(),
        ordered(rows).len() == rows.len(),
        in_order(ordered(rows)),
    decreases rows.len(),
{
    broadcast use vstd::seq_lib::group_to_multiset_ensures;

    if rows.len() > 0 {
        let init = ordered(rows.drop_last());
        let x = rows.last();
        law_ordered(rows.drop_last());
        lemma_spot_splits(init, x);
        let at = spot(init, x);
        let s = init.insert(at, x);
        assert(rows =~= rows.drop_last().push(x));
        assert forall|i: int, j: int| 0 <= i < j < s.len() implies !parts_lt(
            (#[trigger] s[j]).parts(),
            (#[trigger] s[i]).parts(),
        ) by {
            let a = if i < at { i } else { i - 1 };
            let b = if j < at { j } else { j - 1 };
            if i == at {
                assert(s[j] == init[j - 1]);
                if parts_lt(s[j].parts(), x.parts()) {
                    lemma_parts_transitive(x.parts(), s[j].parts(), x.parts());
                    lemma_parts_irreflexive(x.parts());
                }
            } else if j == at {
                assert(s[i] == init[i]);
            } else {
                assert(s[i] == init[a]);
                assert(s[j] == init[b]);
            }
        }
    } else {
        assert(rows =~= Seq::<T>::empty());
    }
}

/// The keys of rows strictly ascend.
pub open spec fn keys_ascend<T: PageRow>(s: Seq<T>) -> bool {
    forall|i: int, j: int|
        0 <= i < j < s.len() ==> text_lt(
            joined((#[trigger] s[i]).parts()),
            joined((#[trigger] s[j]).parts()),
        )
}

/// The rows that a consumer collects that starts after `after` and follows the
/// cursors of at most `turns` further pages.
pub open spec fn collected<T: PageRow>(
    s: Seq<T>,
    after: Option<Seq<char>>,
    limit: int,
    turns: nat,
) -> Seq<T>
    decreases turns,
{
    let here = page_rows(s, after, limit);
    match next_key(s, after, limit) {
        Some(k) => if turns == 0 {
            here
        } else {
            here + collected(s, Some(k), limit, (turns - 1) as nat)
        },
        None => here,
    }
}

proof fn lemma_resume<T: PageRow>(s: Seq<T>, after: Option<Seq<char>>, limit: int)
    requires
        keys_ascend(s),
        limit >= 1,
        next_key(s, after, limit) is Some,
    ensures
        page_start(s, next_key(s, after, limit)) == page_end(s, after, limit),
        page_start(s, after) < page_end(s, after, limit),
{
    if let Some(k) = after {
        lemma_first_after(s, k);
    }
    let end = page_end(s, after, limit);
    let k = joined(s[end - 1].parts());
    lemma_first_after(s, k);
    let f = first_after(s, k);
    if f < end {
        if f < end - 1 {
            assert(text_lt(joined(s[f].parts()), joined(s[end - 1].parts())));
            lemma_text_asymmetric(joined(s[f].parts()), k);
        } else {
            lemma_lex_irreflexive(encode_utf8(k));
        }
    } else if f > end {
        assert(text_lt(joined(s[end - 1].parts()), joined(s[end].parts())));
    }
}

/// Following the cursors from the first page on collects every row exactly
/// once, in order.
pub proof fn law_pages_cover<T: PageRow>(s: Seq<T>, limit: int, turns: nat)
    requires
        keys_ascend(s),
        limit >= 1,
        turns >= s.len(),
    ensures
        collected(s, None, limit, turns) == s,
{
    lemma_collected(s, None, limit, turns);
    assert(s.skip(0) =~= s);
}

proof fn lemma_collected<T: PageRow>(
    s: Seq<T>,
    after: Option<Seq<char>>,
    limit: int,
    turns: nat,
)
    requires
        keys_ascend(s),
        limit >= 1,
        turns + page_start(s, after) >= s.len(),
    ensures
        0 <= page_start(s, after) <= s.len(),
        collected(s, after, limit, turns) == s.skip(page_start(s, after)),
    decreases turns,
{
    if let Some(k) = after {
        lemma_first_after(s, k);
    }
    let start = page_start(s, after);
    let end = page_end(s, after, limit);
    match next_key(s, after, limit) {
        Some(k) => {
            lemma_resume(s, after, limit);
            if turns > 0 {
                lemma_collected(s, Some(k), limit, (turns - 1) as nat);
                assert(s.subrange(start, end) + s.skip(end) =~= s.skip(start));
            }
        },
        None => {
            assert(s.subrange(start, end) =~= s.skip(start));
        },
    }
}

/// A cursor stays good when rows come and go between two pages: the page after
/// it holds the first rows of the changed listing whose keys are greater, so
/// that no row at or before the cursor shows again and none behind it is
/// skipped.
pub proof fn law_resume_after_change<T: PageRow>(s: Seq<T>, k: Seq<char>, limit: int, i: int)
    requires
        keys_ascend(s),
        limit >= 1,
        0 <= i < s.len(),
    ensures
        text_lt(k, joined(s[i].parts())) <==> page_start(s, Some(k)) <= i,
        (page_start(s, Some(k)) <= i < page_start(s, Some(k)) + limit) ==> page_rows(
            s,
            Some(k),
            limit,
        )[i - page_start(s, Some(k))] == s[i],
        page_rows(s, Some(k), limit).len() <= limit,
{
    lemma_first_after(s, k);
    let f = first_after(s, k);
    if f < i {
        assert(text_lt(joined(s[f].parts()), joined(s[i].parts())));
        lemma_text_transitive(k, joined(s[f].parts()), joined(s[i].parts()));
    }
}

/// A text without NUL.
pub open spec fn nul_free(t: Seq<char>) -> bool {
    forall|i: int| 0 <= i < t.len() ==> t[i] != '\0'
}

/// The encoding of two texts one after the other.
proof fn lemma_encode_concat(a: Seq<char>, b: Seq<char>)
    ensures
        encode_utf8(a + b) == encode_utf8(a) + encode_utf8(b),
    decreases a.len(),
{
    if a.len() == 0 {
        assert(a + b =~= b);
        assert(encode_utf8(a) =~= Seq::<u8>::empty());
        assert(encode_utf8(a) + encode_utf8(b) =~= encode_utf8(b));
    } else {
        assert((a + b).drop_first() =~= a.drop_first() + b);
        lemma_encode_concat(a.drop_first(), b);
        assert(encode_utf8(a + b) =~= encode_scalar(a[0] as u32) + (encode_utf8(a.drop_first())
            + encode_utf8(b)));
    }
}

spec fn zero_free(b: Seq<u8>) -> bool {
    forall|i: int| 0 <= i < b.len() ==> b[i] != 0
}

proof fn lemma_scalar_bytes(c: u32)
    by (bit_vector)
    ensures
        0 < c <= 0x7f ==> (c & 0x7F) as u8 != 0,
        0xC0 | ((c >> 6) & 0x1F) as u8 != 0,
        0xE0 | ((c >> 12) & 0x0F) as u8 != 0,
        0xF0 | ((c >> 18) & 0x7) as u8 != 0,
        0x80 | (c & 0x3F) as u8 != 0,
        0x80 | ((c >> 6) & 0x3F) as u8 != 0,
        0x80 | ((c >> 12) & 0x3F) as u8 != 0,
{
}

proof fn lemma_nul_free_bytes(t: Seq<char>)
    requires
        nul_free(t),
    ensures
        zero_free(encode_utf8(t)),
    decreases t.len(),
{
    if t.len() > 0 {
        let rest = t.drop_first();
        assert forall|i: int| 0 <= i < rest.len() implies rest[i] != '\0' by {
            assert(rest[i] == t[i + 1]);
        }
        lemma_nul_free_bytes(rest);
        char_is_scalar(t[0]);
        let c = t[0] as u32;
        assert(c != 0) by {
            if c == 0 {
                char_u32_cast(t[0], c);
                assert(t[0] == '\0');
            }
        }
        lemma_scalar_bytes(c);
        let bytes = encode_scalar(c);
        if has_width_1_encoding(c) {
            assert(bytes =~= seq![leading_byte_width_1(c)]);
        } else if has_width_2_encoding(c) {
            assert(bytes =~= seq![leading_byte_width_2(c), last_continuation_byte(c)]);
        } else if has_width_3_encoding(c) {
            assert(bytes.len() == 3);
        } else {
            assert(bytes.len() == 4);
        }
        assert(zero_free(bytes));
    }
}

proof fn lemma_joined_lex(x: Seq<u8>, u: Seq<u8>, y: Seq<u8>, v: Seq<u8>)
    requires
        zero_free(x),
        zero_free(y),
    ensures
        lex_lt(x + seq![0u8] + u, y + seq![0u8] + v) == (if x == y {
            lex_lt(u, v)
        } else {
            lex_lt(x, y)
        }),
    decreases x.len(),
{
    let a = x + seq![0u8] + u;
    let b = y + seq![0u8] + v;
    if x.len() == 0 && y.len() == 0 {
        assert(x =~= y);
        assert(a[0] == 0 && b[0] == 0);
        assert(a.drop_first() =~= u);
        assert(b.drop_first() =~= v);
    } else if x.len() == 0 {
        assert(a[0] == 0);
        assert(b[0] == y[0]);
    } else if y.len() == 0 {
        assert(a[0] == x[0]);
        assert(b[0] == 0);
    } else {
        assert(a[0] == x[0]);
        assert(b[0] == y[0]);
        if x[0] == y[0] {
            assert(a.drop_first() =~= x.drop_first() + seq![0u8] + u);
            assert(b.drop_first() =~= y.drop_first() + seq![0u8] + v);
            lemma_joined_lex(x.drop_first(), u, y.drop_first(), v);
            if x.drop_first() == y.drop_first() {
                assert(x =~= seq![x[0]] + x.drop_first());
                assert(y =~= seq![y[0]] + y.drop_first());
            }
        }
    }
}

/// The order of keys is that of the texts, when there is one or when none holds
/// NUL.
pub proof fn lemma_key_order(a: Seq<Seq<char>>, b: Seq<Seq<char>>)
    requires
        a.len() == b.len(),
        a.len() > 0,
        forall|i: int| 0 <= i < a.len() && a.len() > 1 ==> nul_free(#[trigger] a[i]),
        forall|i: int| 0 <= i < b.len() && a.len() > 1 ==> nul_free(#[trigger] b[i]),
    ensures
        text_lt(joined(a), joined(b)) == parts_lt(a, b),
    decreases a.len(),
{
    if a.len() == 1 {
        reveal_with_fuel(parts_lt, 2);
        lemma_lex_irreflexive(encode_utf8(a[0]));
    } else {
        let ra = a.drop_first();
        let rb = b.drop_first();
        assert forall|i: int| 0 <= i < ra.len() implies nul_free(#[trigger] ra[i]) by {
            assert(ra[i] == a[i + 1]);
        }
        assert forall|i: int| 0 <= i < rb.len() implies nul_free(#[trigger] rb[i]) by {
            assert(rb[i] == b[i + 1]);
        }
        lemma_key_order(ra, rb);
        lemma_nul_free_bytes(a[0]);
        lemma_nul_free_bytes(b[0]);
        lemma_encode_joined(a);
        lemma_encode_joined(b);
        lemma_joined_lex(
            encode_utf8(a[0]),
            encode_utf8(joined(ra)),
            encode_utf8(b[0]),
            encode_utf8(joined(rb)),
        );
        crate::text::lemma_same_bytes_same_text(a[0], b[0]);
    }
}

proof fn lemma_encode_joined(a: Seq<Seq<char>>)
    requires
        a.len() > 1,
    ensures
        encode_utf8(joined(a)) == encode_utf8(a[0]) + seq![0u8] + encode_utf8(
            joined(a.drop_first()),
        ),
{
    lemma_encode_concat(a[0] + seq!['\0'], joined(a.drop_first()));
    lemma_encode_concat(a[0], seq!['\0']);
    let nul = seq!['\0'];
    assert(nul.drop_first() =~= Seq::<char>::empty());
    assert(encode_utf8(nul) =~= encode_scalar(0) + encode_utf8(Seq::<char>::empty())) by {
        assert(nul[0] as u32 == 0);
    }
    assert(encode_utf8(Seq::<char>::empty()) =~= Seq::<u8>::empty());
    assert((0u32 & 0x7F) as u8 == 0u8) by (bit_vector);
    assert(encode_scalar(0) =~= seq![0u8]);
    assert(encode_utf8(nul) =~= seq![0u8]);
}

/// The keys of a listing strictly ascend when its rows differ in their texts;
/// where several texts make a key, none of them may hold NUL.
pub proof fn law_keys_ascend<T: PageRow>(rows: Seq<T>, count: nat)
    requires
        count > 0,
        forall|i: int| 0 <= i < rows.len() ==> (#[trigger] rows[i]).parts().len() == count,
        forall|i: int, p: int|
            0 <= i < rows.len() && 0 <= p < count && count > 1 ==> nul_free(
                #[trigger] rows[i].parts()[p],
            ),
        forall|i: int, j: int|
            0 <= i < rows.len() && 0 <= j < rows.len() && i != j ==> (#[trigger] rows[i]).parts()
                != (#[trigger] rows[j]).parts(),
    ensures
        keys_ascend(ordered(rows)),
{
    let s = ordered(rows);
    law_ordered(rows);
    lemma_ordered_from(rows);
    assert forall|i: int, j: int| 0 <= i < j < s.len() implies text_lt(
        joined((#[trigger] s[i]).parts()),
        joined((#[trigger] s[j]).parts()),
    ) by {
        let (a, b) = choose|a: int, b: int|
            0 <= a < rows.len() && 0 <= b < rows.len() && a != b && rows[a] == s[i] && rows[b]
                == s[j];
        assert(rows[a].parts() != rows[b].parts());
        lemma_parts_total(s[i].parts(), s[j].parts());
        assert forall|p: int| 0 <= p < count && count > 1 implies nul_free(
            #[trigger] s[i].parts()[p],
        ) by {
            assert(nul_free(rows[a].parts()[p]));
        }
        assert forall|p: int| 0 <= p < count && count > 1 implies nul_free(
            #[trigger] s[j].parts()[p],
        ) by {
            assert(nul_free(rows[b].parts()[p]));
        }
        lemma_key_order(s[i].parts(), s[j].parts());
    }
}

/// Different places of an ordered listing come from different rows.
pub proof fn lemma_ordered_from<T: PageRow>(rows: Seq<T>)
    ensures
        ordered(rows).len() == rows.len(),
        forall|i: int, j: int|
            0 <= i < j < rows.len() ==> exists|a: int, b: int|
                0 <= a < rows.len() && 0 <= b < rows.len() && a != b && rows[a] == (
                #[trigger] ordered(rows)[i]) && rows[b] == (#[trigger] ordered(rows)[j]),
        forall|i: int|
            0 <= i < rows.len() ==> exists|a: int|
                0 <= a < rows.len() && rows[a] == #[trigger] ordered(rows)[i],
    decreases rows.len(),
{
    if rows.len() > 0 {
        let shorter = rows.drop_last();
        let init = ordered(shorter);
        let x = rows.last();
        let last = rows.len() - 1;
        lemma_ordered_from(shorter);
        lemma_spot_bounds(init, x);
        let at = spot(init, x);
        let s = init.insert(at, x);
        assert(s == ordered(rows));
        assert forall|i: int| 0 <= i < rows.len() implies exists|a: int|
            0 <= a < rows.len() && rows[a] == #[trigger] s[i] by {
            if i == at {
                assert(rows[last] == s[i]);
            } else {
                let k = if i < at { i } else { i - 1 };
                assert(s[i] == init[k]);
                let a = choose|a: int| 0 <= a < shorter.len() && shorter[a] == init[k];
                assert(rows[a] == s[i]);
            }
        }
        assert forall|i: int, j: int| 0 <= i < j < rows.len() implies exists|a: int, b: int|
            0 <= a < rows.len() && 0 <= b < rows.len() && a != b && rows[a] == (#[trigger] s[i])
                && rows[b] == (#[trigger] s[j]) by {
            if i == at {
                let k = j - 1;
                assert(s[j] == init[k]);
                let b = choose|b: int| 0 <= b < shorter.len() && shorter[b] == init[k];
                assert(rows[last] == s[i] && rows[b] == s[j] && last != b);
            } else if j == at {
                let k = i;
                assert(s[i] == init[k]);
                let a = choose|a: int| 0 <= a < shorter.len() && shorter[a] == init[k];
                assert(rows[a] == s[i] && rows[last] == s[j] && last != a);
            } else {
                let k = if i < at { i } else { i - 1 };
                let l = if j < at { j } else { j - 1 };
                assert(s[i] == init[k]);
                assert(s[j] == init[l]);
                let (a, b) = choose|a: int, b: int|
                    0 <= a < shorter.len() && 0 <= b < shorter.len() && a != b && shorter[a]
                        == init[k] && shorter[b] == init[l];
                assert(rows[a] == s[i] && rows[b] == s[j] && a != b);
            }
        }
    }
}

}
