//! SQL `LIKE` matching: `%` stands for any run of characters, `_` for any
//! one character, and `\` makes the character after it literal.

use vstd::prelude::*;
use vstd::string::StrSliceExecFns;

verus! {

/// The pattern from index `i` on matches the text from index `j` on.
pub open spec fn like_from(p: Seq<char>, i: int, t: Seq<char>, j: int) -> bool
    decreases (p.len() - i) + (t.len() - j),
{
    if j > t.len() || i < 0 || j < 0 {
        false
    } else if i >= p.len() {
        j == t.len()
    } else if p[i] == '%' {
        like_from(p, i + 1, t, j) || (j < t.len() && like_from(p, i, t, j + 1))
    } else if j == t.len() {
        false
    } else if p[i] == '_' {
        like_from(p, i + 1, t, j + 1)
    } else if p[i] == '\\' && i + 1 < p.len() {
        p[i + 1] == t[j] && like_from(p, i + 2, t, j + 1)
    } else {
        p[i] == t[j] && like_from(p, i + 1, t, j + 1)
    }
}

/// Text `t` matches pattern `p` as a whole.
pub open spec fn like_match(p: Seq<char>, t: Seq<char>) -> bool {
    like_from(p, 0, t, 0)
}

/// The characters of `s`.
pub fn chars_of(s: &str) -> (r: Vec<char>)
    ensures
        r@ == s@,
{
    let n = s.unicode_len();
    let mut out: Vec<char> = Vec::new();
    let mut i: usize = 0;
    while i < n
        invariant
            n == s@.len(),
            i <= n,
            out@ == s@.subrange(0, i as int),
        decreases n - i,
    {
        out.push(s.get_char(i));
        i = i + 1;
        assert(out@ =~= s@.subrange(0, i as int));
    }
    assert(out@ =~= s@);
    out
}

/// A row of `false`, one entry for each index of the text and one past it.
fn falses(len: usize) -> (r: Vec<bool>)
    ensures
        r@.len() == len,
        forall|i: int| 0 <= i < len ==> !#[trigger] r@[i],
{
    let mut out: Vec<bool> = Vec::new();
    let mut i: usize = 0;
    while i < len
        invariant
            i <= len,
            out@.len() == i,
            forall|j: int| 0 <= j < i ==> !#[trigger] out@[j],
        decreases len - i,
    {
        out.push(false);
        i = i + 1;
    }
    out
}

/// Entry `j` of a row whose last column, at the end of the text, is kept
/// apart as `end`.
fn at(row: &Vec<bool>, end: bool, j: usize) -> (r: bool)
    requires
        j <= row@.len(),
    ensures
        r == if j < row@.len() {
            row@[j as int]
        } else {
            end
        },
{
    if j < row.len() {
        row[j]
    } else {
        end
    }
}

/// The text matches the pattern as a whole. Each suffix of the pattern is
/// matched against every suffix of the text once, from the end backwards.
pub fn like(pattern: &Vec<char>, text: &Vec<char>) -> (r: bool)
    ensures
        r == like_match(pattern@, text@),
{
    let p = pattern;
    let t = text;
    let n = p.len();
    let m = t.len();
    // `row1`/`end1` hold the matches of pattern index `k`, `row2`/`end2`
    // those of `k + 1`; the `end` values are for the empty rest of the text.
    let mut row1 = falses(m);
    let mut end1 = true;
    let mut row2 = falses(m);
    let mut end2 = false;
    let mut k: usize = n;
    while k > 0
        invariant
            n == p@.len(),
            m == t@.len(),
            k <= n,
            row1@.len() == m,
            row2@.len() == m,
            forall|j: int| 0 <= j < m ==> #[trigger] row1@[j] == like_from(p@, k as int, t@, j),
            end1 == like_from(p@, k as int, t@, m as int),
            k + 1 <= n ==> forall|j: int|
                0 <= j < m ==> #[trigger] row2@[j] == like_from(p@, k + 1, t@, j),
            k + 1 <= n ==> end2 == like_from(p@, k + 1, t@, m as int),
        decreases k,
    {
        let i = k - 1;
        let c = p[i];
        let cur_end = if c == '%' {
            end1
        } else {
            false
        };
        let mut cur = falses(m);
        let mut j: usize = m;
        while j > 0
            invariant
                n == p@.len(),
                m == t@.len(),
                i + 1 == k,
                k <= n,
                c == p@[i as int],
                j <= m,
                cur@.len() == m,
                row1@.len() == m,
                row2@.len() == m,
                forall|jj: int| 0 <= jj < m ==> #[trigger] row1@[jj] == like_from(p@, k as int, t@, jj),
                end1 == like_from(p@, k as int, t@, m as int),
                k + 1 <= n ==> forall|jj: int|
                    0 <= jj < m ==> #[trigger] row2@[jj] == like_from(p@, k + 1, t@, jj),
                k + 1 <= n ==> end2 == like_from(p@, k + 1, t@, m as int),
                cur_end == like_from(p@, i as int, t@, m as int),
                forall|jj: int| j <= jj < m ==> #[trigger] cur@[jj] == like_from(p@, i as int, t@, jj),
            decreases j,
        {
            let jj = j - 1;
            let v = if c == '%' {
                row1[jj] || at(&cur, cur_end, jj + 1)
            } else if c == '_' {
                at(&row1, end1, jj + 1)
            } else if c == '\\' && i + 1 < n {
                p[i + 1] == t[jj] && at(&row2, end2, jj + 1)
            } else {
                c == t[jj] && at(&row1, end1, jj + 1)
            };
            cur.set(jj, v);
            j = jj;
        }
        row2 = row1;
        end2 = end1;
        row1 = cur;
        end1 = cur_end;
        k = i;
    }
    at(&row1, end1, 0)
}

} // verus!
