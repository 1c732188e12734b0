//! Wrapping a logical line into display rows.
//!
//! The rows of a line are computed by the `textwrap` crate. The library does
//! not restate that algorithm: `wrapped` names its result, and everything that
//! the pager does with rows is stated over that name.

use crate::text::{join_rows, joined};
use vstd::prelude::*;

verus! {

/// The rows that `textwrap::wrap` breaks `text` into at a width of `cols`
/// columns, under the options that a bare width stands for.
pub uninterp spec fn wrapped(text: Seq<char>, cols: nat) -> Seq<Seq<char>>;

/// The rows of a wrapped line after it is wrapped anew at `cols` columns: its
/// rows are joined by single spaces and the result is wrapped.
pub open spec fn rewrapped(rows: Seq<Seq<char>>, cols: nat) -> Seq<Seq<char>> {
    wrapped(joined(rows, seq![' ']), cols)
}

/// Each of `lines` wrapped at `cols` columns, in the same order.
pub open spec fn wrapped_all(lines: Seq<Seq<char>>, cols: nat) -> Seq<Seq<Seq<char>>> {
    lines.map_values(|line: Seq<char>| wrapped(line, cols))
}

/// Each wrapped line of `lines` wrapped anew at `cols` columns, in the same
/// order.
pub open spec fn rewrapped_all(lines: Seq<Seq<Seq<char>>>, cols: nat) -> Seq<Seq<Seq<char>>> {
    lines.map_values(|rows: Seq<Seq<char>>| rewrapped(rows, cols))
}

/// Calls `textwrap::wrap` with `line` and the width `cols`, and copies each
/// row it returns into a `String`. The contract only names the rows: they are
/// `wrapped(line, cols)`, the same for the same text and width.
#[verifier::external_body]
pub(crate) fn wrap_str(line: &str, cols: usize) -> (rows: Vec<String>)
    ensures
        rows.deep_view() == wrapped(line@, cols as nat),
{
    textwrap::wrap(line, cols).into_iter().map(|row| row.into_owned()).collect()
}

/// Wraps one already wrapped line anew at `cols` columns.
pub fn rewrap(line: &mut Vec<String>, cols: usize)
    ensures
        final(line).deep_view() == rewrapped(old(line).deep_view(), cols as nat),
{
    proof {
        reveal_strlit(" ");
        assert(" "@ =~= seq![' ']);
    }
    let text = join_rows(line, " ");
    *line = wrap_str(text.as_str(), cols);
}

/// Wraps every line of `lines` anew at `cols` columns. The number of logical
/// lines and their order stay as they are.
pub fn rewrap_lines(lines: &mut Vec<Vec<String>>, cols: usize)
    ensures
        final(lines).deep_view() == rewrapped_all(old(lines).deep_view(), cols as nat),
        final(lines).len() == old(lines).len(),
{
    let n = lines.len();
    let mut i: usize = 0;
    while i < n
        invariant
            i <= n,
            lines.len() == n,
            old(lines).len() == n,
            forall|j: int|
                0 <= j < i ==> #[trigger] lines@[j].deep_view() == rewrapped(
                    old(lines)@[j].deep_view(),
                    cols as nat,
                ),
            forall|j: int| i <= j < n ==> #[trigger] lines@[j] == old(lines)@[j],
        decreases n - i,
    {
        let ghost before = lines@;
        rewrap(&mut lines[i], cols);
        proof {
            assert(lines@.len() == n);
            assert forall|j: int| 0 <= j < n && j != i implies lines@[j] == before[j] by {}
            assert(lines@[i as int].deep_view() == rewrapped(
                before[i as int].deep_view(),
                cols as nat,
            ));
        }
        i += 1;
    }
    assert(lines.deep_view() =~= rewrapped_all(old(lines).deep_view(), cols as nat));
}

/// Wraps each of `lines` at `cols` columns.
pub fn wrap_all(lines: &Vec<String>, cols: usize) -> (out: Vec<Vec<String>>)
    ensures
        out.deep_view() == wrapped_all(lines.deep_view(), cols as nat),
{
    let mut out: Vec<Vec<String>> = Vec::new();
    let mut i: usize = 0;
    while i < lines.len()
        invariant
            i <= lines.len(),
            out.deep_view() == wrapped_all(lines.deep_view().take(i as int), cols as nat),
        decreases lines.len() - i,
    {
        let rows = wrap_str(lines[i].as_str(), cols);
        let ghost before = out.deep_view();
        out.push(rows);
        assert(out.deep_view() =~= before.push(wrapped(lines@[i as int]@, cols as nat)));
        assert(out.deep_view() =~= wrapped_all(lines.deep_view().take(i + 1), cols as nat));
        i += 1;
    }
    assert(lines.deep_view().take(lines.len() as int) =~= lines.deep_view());
    out
}

} // verus!
