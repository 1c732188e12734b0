//! Searching the rows of the document.
//!
//! Patterns are regular expressions of the `regex` crate. The library does not
//! restate what such an expression matches: `compiled`, `row_matches` and
//! `replaced` name what the crate computes, and the match index and the
//! navigation through it are stated and proved over those names.

use vstd::prelude::*;

verus! {

/// A compiled regular expression of the `regex` crate.
#[verifier::external_type_specification]
#[verifier::external_body]
pub struct ExRegex(regex::Regex);

/// The error with which the `regex` crate refuses a pattern.
#[verifier::external_type_specification]
#[verifier::external_body]
pub struct ExRegexError(regex::Error);

/// The direction of a search.
#[derive(Debug, PartialEq, Eq, Structural, Copy, Clone)]
pub enum SearchMode {
    /// Towards the end of the document.
    Forward,
    /// Towards the start of the document.
    Reverse,
    /// No search has been started.
    Unknown,
}

/// Why a search did nothing.
#[derive(Debug, PartialEq, Eq, Structural, Copy, Clone)]
pub enum SearchError {
    /// The pattern is not a regular expression that can be compiled.
    PatternError,
    /// No row matches, so there is nothing to move to.
    NoMatches,
}

/// What `RegexBuilder::build` returns for `pattern` when case-insensitive
/// matching is switched on or off by `case_insensitive`.
pub uninterp spec fn compiled(pattern: Seq<char>, case_insensitive: bool) -> Result<
    regex::Regex,
    regex::Error,
>;

/// What `Regex::is_match` returns for the expression `re` and the text `row`:
/// whether `re` matches anywhere in `row`.
pub uninterp spec fn row_matches(re: regex::Regex, row: Seq<char>) -> bool;

/// What `Regex::replace_all` returns for the expression `re`, the text `row`
/// and the replacement string `with`.
pub uninterp spec fn replaced(re: regex::Regex, row: Seq<char>, with: Seq<char>) -> Seq<char>;

/// The indices of the rows of `rows` that `re` matches, in increasing order.
pub open spec fn match_index(re: regex::Regex, rows: Seq<Seq<char>>) -> Seq<usize>
    decreases rows.len(),
{
    if rows.len() == 0 {
        Seq::empty()
    } else if row_matches(re, rows.last()) {
        match_index(re, rows.drop_last()).push((rows.len() - 1) as usize)
    } else {
        match_index(re, rows.drop_last())
    }
}

/// Whether `idx` is strictly increasing.
pub open spec fn increasing(idx: Seq<usize>) -> bool {
    forall|i: int, j: int| 0 <= i < j < idx.len() ==> idx[i] < idx[j]
}

/// The first entry of `idx` that is greater than `pos`, if there is one.
pub open spec fn first_above(idx: Seq<usize>, pos: nat) -> Option<usize>
    decreases idx.len(),
{
    if idx.len() == 0 {
        None
    } else if idx[0] > pos {
        Some(idx[0])
    } else {
        first_above(idx.drop_first(), pos)
    }
}

/// The last entry of `idx` that is less than `pos`, if there is one.
pub open spec fn last_below(idx: Seq<usize>, pos: nat) -> Option<usize>
    decreases idx.len(),
{
    if idx.len() == 0 {
        None
    } else if idx.last() < pos {
        Some(idx.last())
    } else {
        last_below(idx.drop_last(), pos)
    }
}

/// Where a forward step from row `pos` leads: to the first match after `pos`,
/// or round to the first match of all when none follows. `None` without
/// matches.
pub open spec fn next_after(idx: Seq<usize>, pos: nat) -> Option<usize> {
    if idx.len() == 0 {
        None
    } else if first_above(idx, pos) is Some {
        first_above(idx, pos)
    } else {
        Some(idx[0])
    }
}

/// Where a backward step from row `pos` leads: to the last match before
/// `pos`, or round to the last match of all when none precedes. `None`
/// without matches.
pub open spec fn prev_before(idx: Seq<usize>, pos: nat) -> Option<usize> {
    if idx.len() == 0 {
        None
    } else if last_below(idx, pos) is Some {
        last_below(idx, pos)
    } else {
        Some(idx.last())
    }
}

/// Calls `RegexBuilder::new(pattern)`, sets `case_insensitive` on the builder
/// and calls `build`. The contract only names the outcome: it is
/// `compiled(pattern, case_insensitive)`, the same for the same arguments.
#[verifier::external_body]
pub(crate) fn compile(pattern: &str, case_insensitive: bool) -> (r: Result<
    regex::Regex,
    regex::Error,
>)
    ensures
        r == compiled(pattern@, case_insensitive),
{
    regex::RegexBuilder::new(pattern).case_insensitive(case_insensitive).build()
}

/// Calls `Regex::is_match`. The contract only names the answer: it is
/// `row_matches(re, row)`.
#[verifier::external_body]
pub(crate) fn is_match(re: &regex::Regex, row: &str) -> (b: bool)
    ensures
        b == row_matches(*re, row@),
{
    re.is_match(row)
}

/// Calls `Regex::replace_all` and copies the text it returns. The contract
/// only names that text: it is `replaced(re, row, with)`.
#[verifier::external_body]
pub(crate) fn replace_all(re: &regex::Regex, row: &str, with: &str) -> (s: String)
    ensures
        s@ == replaced(*re, row@, with@),
{
    re.replace_all(row, with).into_owned()
}

/// The match index is strictly increasing, stays below the number of rows, and
/// holds a row's index exactly when the pattern matches the row.
pub proof fn lemma_match_index(re: regex::Regex, rows: Seq<Seq<char>>)
    requires
        rows.len() <= usize::MAX,
    ensures
        increasing(match_index(re, rows)),
        match_index(re, rows).len() <= rows.len(),
        forall|i: int|
            0 <= i < match_index(re, rows).len() ==> 0 <= #[trigger] match_index(re, rows)[i]
                < rows.len(),
        forall|r: int|
            0 <= r < rows.len() ==> (row_matches(re, #[trigger] rows[r]) <==> match_index(
                re,
                rows,
            ).contains(r as usize)),
    decreases rows.len(),
{
    if rows.len() > 0 {
        let front = rows.drop_last();
        let last = (rows.len() - 1) as int;
        lemma_match_index(re, front);
        let inner = match_index(re, front);
        let idx = match_index(re, rows);
        assert(increasing(idx)) by {
            assert forall|i: int, j: int| 0 <= i < j < idx.len() implies idx[i] < idx[j] by {
                if j < inner.len() {
                    assert(idx[i] == inner[i] && idx[j] == inner[j]);
                } else {
                    assert(idx[i] == inner[i]);
                    assert(inner[i] < front.len());
                }
            }
        }
        assert forall|r: int| 0 <= r < rows.len() implies (row_matches(re, #[trigger] rows[r])
            <==> idx.contains(r as usize)) by {
            if r < last {
                assert(rows[r] == front[r]);
                if inner.contains(r as usize) {
                    let k = choose|k: int| 0 <= k < inner.len() && inner[k] == r as usize;
                    assert(idx[k] == r as usize);
                }
                if idx.contains(r as usize) {
                    let k = choose|k: int| 0 <= k < idx.len() && idx[k] == r as usize;
                    if k == inner.len() {
                        assert(idx[k] == last);
                    }
                    assert(inner[k] == r as usize);
                }
            } else {
                if row_matches(re, rows.last()) {
                    assert(idx[idx.len() - 1] == r as usize);
                } else {
                    if idx.contains(r as usize) {
                        let k = choose|k: int| 0 <= k < idx.len() && idx[k] == r as usize;
                        assert(inner[k] < front.len());
                    }
                }
            }
        }
    }
}

/// In an increasing index, `first_above` is the nearest entry after `pos`:
/// it is greater than `pos` and no entry lies between. It is `None` exactly
/// when no entry is greater than `pos`.
pub proof fn lemma_first_above(idx: Seq<usize>, pos: nat)
    requires
        increasing(idx),
    ensures
        match first_above(idx, pos) {
            Some(m) => idx.contains(m) && m > pos && forall|i: int|
                0 <= i < idx.len() && #[trigger] idx[i] > pos ==> m <= idx[i],
            None => forall|i: int| 0 <= i < idx.len() ==> #[trigger] idx[i] <= pos,
        },
    decreases idx.len(),
{
    if idx.len() > 0 {
        let rest = idx.drop_first();
        if idx[0] > pos {
            assert(idx.contains(idx[0]));
        } else {
            assert(increasing(rest)) by {
                assert forall|i: int, j: int| 0 <= i < j < rest.len() implies rest[i] < rest[j] by {
                    assert(rest[i] == idx[i + 1] && rest[j] == idx[j + 1]);
                }
            }
            lemma_first_above(rest, pos);
            match first_above(rest, pos) {
                Some(m) => {
                    let k = choose|k: int| 0 <= k < rest.len() && rest[k] == m;
                    assert(idx[k + 1] == m);
                    assert forall|i: int| 0 <= i < idx.len() && #[trigger] idx[i] > pos implies m
                        <= idx[i] by {
                        assert(i > 0);
                        assert(rest[i - 1] == idx[i]);
                    }
                },
                None => {
                    assert forall|i: int| 0 <= i < idx.len() implies #[trigger] idx[i] <= pos by {
                        if i > 0 {
                            assert(rest[i - 1] == idx[i]);
                        }
                    }
                },
            }
        }
    }
}

/// In an increasing index, `last_below` is the nearest entry before `pos`:
/// it is less than `pos` and no entry lies between. It is `None` exactly when
/// no entry is less than `pos`.
pub proof fn lemma_last_below(idx: Seq<usize>, pos: nat)
    requires
        increasing(idx),
    ensures
        match last_below(idx, pos) {
            Some(m) => idx.contains(m) && m < pos && forall|i: int|
                0 <= i < idx.len() && #[trigger] idx[i] < pos ==> idx[i] <= m,
            None => forall|i: int| 0 <= i < idx.len() ==> #[trigger] idx[i] >= pos,
        },
    decreases idx.len(),
{
    if idx.len() > 0 {
        let rest = idx.drop_last();
        if idx.last() < pos {
            assert(idx[idx.len() - 1] == idx.last());
            assert(idx.contains(idx.last()));
        } else {
            assert(increasing(rest)) by {
                assert forall|i: int, j: int| 0 <= i < j < rest.len() implies rest[i] < rest[j] by {
                    assert(rest[i] == idx[i] && rest[j] == idx[j]);
                }
            }
            lemma_last_below(rest, pos);
            match last_below(rest, pos) {
                Some(m) => {
                    let k = choose|k: int| 0 <= k < rest.len() && rest[k] == m;
                    assert(idx[k] == m);
                    assert forall|i: int| 0 <= i < idx.len() && #[trigger] idx[i] < pos implies idx[i]
                        <= m by {
                        assert(i < idx.len() - 1);
                        assert(rest[i] == idx[i]);
                    }
                },
                None => {
                    assert forall|i: int| 0 <= i < idx.len() implies #[trigger] idx[i] >= pos by {
                        if i < idx.len() - 1 {
                            assert(rest[i] == idx[i]);
                        }
                    }
                },
            }
        }
    }
}

/// Navigation is cyclic. In an increasing index, a forward step from the
/// `i`-th match leads to the next one and from the last match to the first; a
/// backward step leads to the one before and from the first match to the last.
pub proof fn lemma_navigation_is_cyclic(idx: Seq<usize>, i: int)
    requires
        increasing(idx),
        0 <= i < idx.len(),
    ensures
        next_after(idx, idx[i] as nat) == Some(idx[(i + 1) % (idx.len() as int)]),
        prev_before(idx, idx[i] as nat) == Some(
            idx[(i + idx.len() - 1) % (idx.len() as int)],
        ),
{
    let n = idx.len() as int;
    let pos = idx[i] as nat;
    lemma_first_above(idx, pos);
    lemma_last_below(idx, pos);
    if i + 1 < n {
        assert((i + 1) % n == i + 1) by (nonlinear_arith)
            requires
                0 <= i + 1 < n,
        ;
        assert(idx[i + 1] > pos);
        let m = first_above(idx, pos)->Some_0;
        let k = choose|k: int| 0 <= k < idx.len() && idx[k] == m;
        assert(k > i);
        assert(m <= idx[i + 1]);
        assert(k == i + 1);
    } else {
        assert((i + 1) % n == 0) by (nonlinear_arith)
            requires
                i + 1 == n,
                n > 0,
        ;
        if first_above(idx, pos) is Some {
            let m = first_above(idx, pos)->Some_0;
            let k = choose|k: int| 0 <= k < idx.len() && idx[k] == m;
            assert(k > i);
        }
    }
    if i > 0 {
        assert((i + n - 1) % n == i - 1) by (nonlinear_arith)
            requires
                0 < i < n,
        ;
        assert(idx[i - 1] < pos);
        let m = last_below(idx, pos)->Some_0;
        let k = choose|k: int| 0 <= k < idx.len() && idx[k] == m;
        assert(k < i);
        assert(idx[i - 1] <= m);
        assert(k == i - 1);
    } else {
        assert((i + n - 1) % n == n - 1) by (nonlinear_arith)
            requires
                i == 0,
                n > 0,
        ;
        if last_below(idx, pos) is Some {
            let m = last_below(idx, pos)->Some_0;
            let k = choose|k: int| 0 <= k < idx.len() && idx[k] == m;
            assert(k < i);
        }
    }
}

/// Scans `rows` in order and returns the indices of the rows that `re`
/// matches.
pub fn find_matches(re: &regex::Regex, rows: &Vec<String>) -> (idx: Vec<usize>)
    ensures
        idx@ == match_index(*re, rows.deep_view()),
{
    let mut idx: Vec<usize> = Vec::new();
    let mut i: usize = 0;
    while i < rows.len()
        invariant
            i <= rows.len(),
            idx@ == match_index(*re, rows.deep_view().take(i as int)),
        decreases rows.len() - i,
    {
        proof {
            let next = rows.deep_view().take(i + 1);
            assert(next.drop_last() =~= rows.deep_view().take(i as int));
            assert(next.last() == rows@[i as int]@);
        }
        if is_match(re, rows[i].as_str()) {
            idx.push(i);
        }
        i += 1;
    }
    assert(rows.deep_view().take(rows.len() as int) =~= rows.deep_view());
    idx
}

/// The match that a forward step from row `pos` leads to.
pub fn next_match_from(idx: &Vec<usize>, pos: usize) -> (m: Option<usize>)
    ensures
        m == next_after(idx@, pos as nat),
{
    if idx.len() == 0 {
        return None;
    }
    let mut i: usize = 0;
    assert(idx@.skip(0) =~= idx@);
    while i < idx.len()
        invariant
            i <= idx.len(),
            first_above(idx@, pos as nat) == first_above(idx@.skip(i as int), pos as nat),
        decreases idx.len() - i,
    {
        proof {
            let rest = idx@.skip(i as int);
            assert(rest[0] == idx@[i as int]);
            assert(rest.drop_first() =~= idx@.skip(i + 1));
        }
        if idx[i] > pos {
            return Some(idx[i]);
        }
        i += 1;
    }
    assert(idx@.skip(idx.len() as int).len() == 0);
    Some(idx[0])
}

/// The match that a backward step from row `pos` leads to.
pub fn prev_match_from(idx: &Vec<usize>, pos: usize) -> (m: Option<usize>)
    ensures
        m == prev_before(idx@, pos as nat),
{
    let n = idx.len();
    if n == 0 {
        return None;
    }
    let mut i: usize = n;
    assert(idx@.take(n as int) =~= idx@);
    while i > 0
        invariant
            i <= n,
            n == idx.len(),
            last_below(idx@, pos as nat) == last_below(idx@.take(i as int), pos as nat),
        decreases i,
    {
        proof {
            let front = idx@.take(i as int);
            assert(front.last() == idx@[i - 1]);
            assert(front.drop_last() =~= idx@.take(i - 1));
        }
        if idx[i - 1] < pos {
            return Some(idx[i - 1]);
        }
        i -= 1;
    }
    assert(idx@.take(0).len() == 0);
    Some(idx[n - 1])
}

} // verus!
