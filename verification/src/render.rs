//! Rendering: from the pager's state to the text of one frame.
//!
//! A frame is a string for the terminal. Writing it out is left to the host.

use crate::number::{
    count_digits, decimal, lemma_decimal_len, push_right_aligned, push_spaces, right_aligned,
    spaces,
};
use crate::pager::{match_index_lists_the_matching_rows, moved_to, Pager, PagerView};
use crate::search::{
    first_above, last_below, lemma_first_above, lemma_last_below, next_after, prev_before,
    replace_all, replaced, row_matches,
};
use crate::style::{
    clear_screen_code, clear_screen_seq, move_to_code, move_to_seq, reset_code, reset_seq,
    reverse_code, reverse_seq,
};
use crate::text::{flatten_rows, join_rows, joined};
use crate::viewport::{
    clamp, clamp_in_range, clamp_is_min, clamped, fits, fits_screen, max_upper, visible,
    visible_rows,
};
use crate::wrap::{rewrap, rewrapped};
use vstd::prelude::*;

verus! {

/// The largest cursor row that a frame addresses.
pub const MAX_CURSOR_ROW: usize = 65534;

/// The replacement that stands for a match between the two style markers:
/// reverse video on, the whole match, all attributes off.
pub open spec fn match_marker() -> Seq<char> {
    reverse_seq() + seq!['$', '{', '0', '}'] + reset_seq()
}

/// The row `row` with every match of `re` between the style markers.
pub open spec fn highlighted(re: regex::Regex, row: Seq<char>) -> Seq<char> {
    replaced(re, row, match_marker())
}

/// A row as it is shown: with its matches marked when a search term is
/// active, else as it is.
pub open spec fn shown_row(term: Option<regex::Regex>, row: Seq<char>) -> Seq<char> {
    match term {
        Some(re) => highlighted(re, row),
        None => row,
    }
}

/// What stands before the first row of line `number`: a space, the number
/// right-aligned in `width` characters, a full stop and a space.
pub open spec fn number_prefix(number: nat, width: nat) -> Seq<char> {
    seq![' '] + right_aligned(number, width) + seq!['.', ' ']
}

/// What stands before a continuation row: spaces up to the same margin.
pub open spec fn blank_prefix(width: nat) -> Seq<char> {
    spaces(width + 3)
}

/// The width that is left for text beside numbers of `width` characters.
pub open spec fn text_width(cols: nat, width: nat) -> nat {
    if cols >= width + 3 {
        (cols - (width + 3)) as nat
    } else {
        0
    }
}

/// The rows of logical line `number` with line numbers: the line is wrapped
/// anew at the width left beside the numbers, its first row gets the number
/// and every further row the blank margin.
pub open spec fn annotated_line(
    rows: Seq<Seq<char>>,
    number: nat,
    width: nat,
    cols: nat,
    term: Option<regex::Regex>,
) -> Seq<Seq<char>> {
    let narrow = rewrapped(rows, text_width(cols, width));
    Seq::new(
        narrow.len(),
        |j: int|
            if j == 0 {
                number_prefix(number, width) + shown_row(term, narrow[j])
            } else {
                blank_prefix(width) + shown_row(term, narrow[j])
            },
    )
}

/// The rows of the first `count` lines of `lines` with line numbers.
pub open spec fn annotated_upto(
    lines: Seq<Seq<Seq<char>>>,
    count: nat,
    width: nat,
    cols: nat,
    term: Option<regex::Regex>,
) -> Seq<Seq<char>>
    decreases count,
{
    if count == 0 || count > lines.len() {
        Seq::empty()
    } else {
        annotated_upto(lines, (count - 1) as nat, width, cols, term) + annotated_line(
            lines[count - 1],
            count,
            width,
            cols,
            term,
        )
    }
}

/// All rows of `lines` with line numbers. Lines are numbered from 1.
pub open spec fn annotated(
    lines: Seq<Seq<Seq<char>>>,
    width: nat,
    cols: nat,
    term: Option<regex::Regex>,
) -> Seq<Seq<char>> {
    annotated_upto(lines, lines.len(), width, cols, term)
}

/// The width of the line numbers of a text of `count` logical lines: the
/// number of digits of the largest line number.
pub open spec fn number_width(count: nat) -> nat {
    decimal(count).len()
}

/// The rows that a frame is cut from: the numbered rows when line numbers
/// are shown, else the rows of the text; with matches marked when a search
/// term is active.
pub open spec fn row_source(v: PagerView) -> Seq<Seq<char>> {
    if v.line_numbers.shown() {
        annotated(v.lines, number_width(v.lines.len()), v.cols, v.search_term)
    } else {
        v.flattened().map_values(|row: Seq<char>| shown_row(v.search_term, row))
    }
}

/// The part of `source` that is on screen: `visible` rows from row `upper`
/// on, as far as `source` reaches.
pub open spec fn window(source: Seq<Seq<char>>, upper: nat, visible: nat) -> Seq<Seq<char>> {
    let from = if upper <= source.len() {
        upper
    } else {
        source.len()
    };
    let to = if upper + visible <= source.len() {
        upper + visible
    } else {
        source.len()
    };
    source.subrange(from as int, to as int)
}

/// The rows on screen for the state `v`.
pub open spec fn displayed_rows(v: PagerView) -> Seq<Seq<char>> {
    window(row_source(v), v.upper_mark, visible_rows(v.rows))
}

/// The text of the rows `rows` for a terminal in raw mode: every row starts
/// with a carriage return and ends with a line feed. Without rows it is one
/// empty row.
pub open spec fn rows_text(rows: Seq<Seq<char>>) -> Seq<char> {
    seq!['\r'] + joined(rows, seq!['\n', '\r']) + seq!['\n']
}

/// The state after the viewport is clamped to the rows of the text.
pub open spec fn clamped_view(v: PagerView) -> PagerView {
    PagerView {
        upper_mark: clamped(v.upper_mark, v.flattened().len(), visible_rows(v.rows)),
        ..v
    }
}

/// The rows of the last terminal row's text: the message when there is one
/// that changed since it was last drawn, else the prompt.
pub open spec fn bottom_rows(v: PagerView) -> Seq<Seq<char>> {
    match v.message {
        Some(rows) => if v.message_changed {
            rows
        } else {
            v.prompt
        },
        None => v.prompt,
    }
}

/// The text of the last terminal row: the first row of `bottom_rows`.
pub open spec fn bottom_text(v: PagerView) -> Seq<char> {
    if bottom_rows(v).len() > 0 {
        bottom_rows(v)[0]
    } else {
        Seq::empty()
    }
}

/// The cursor row of the last terminal row on a terminal of `rows` rows.
pub open spec fn cursor_row(rows: nat) -> nat {
    if rows <= MAX_CURSOR_ROW {
        rows
    } else {
        MAX_CURSOR_ROW as nat
    }
}

/// The last terminal row: the cursor goes to its start, and the text is
/// written in reverse video.
pub open spec fn bottom_line(v: PagerView) -> Seq<char> {
    move_to_seq(0, cursor_row(v.rows)) + seq!['\r'] + reverse_seq() + bottom_text(v) + reset_seq()
}

/// Whether the state `v` is written out without paging: that is switched on
/// and the text fits on the screen.
pub open spec fn plain_dump(v: PagerView) -> bool {
    v.run_no_overflow && fits_screen(v.flattened().len(), visible_rows(v.rows))
}

/// The text of the frame for the clamped state `v`. A text that is written
/// out without paging gives every one of its rows once, in order, and
/// nothing else. Otherwise the frame is a cleared screen with the rows on
/// screen and the last row.
pub open spec fn frame(v: PagerView) -> Seq<char> {
    if plain_dump(v) {
        rows_text(row_source(v))
    } else {
        clear_screen_seq() + move_to_seq(0, 0) + rows_text(displayed_rows(v)) + bottom_line(v)
    }
}

/// The state after a frame is drawn: the viewport is clamped, and a message
/// that was drawn no longer counts as changed.
pub open spec fn drawn(v: PagerView) -> PagerView {
    if plain_dump(v) {
        clamped_view(v)
    } else {
        PagerView { message_changed: false, ..clamped_view(v) }
    }
}

/// After a frame the viewport is in range: its first row is at most
/// `max(0, total - visible)`, and it is 0 when the text fits on the screen.
/// Drawing changes nothing else but the mark on the message, and a second
/// frame leaves the viewport where the first put it.
pub proof fn frame_leaves_viewport_in_range(v: PagerView)
    ensures
        drawn(v).upper_mark <= max_upper(v.flattened().len(), visible_rows(v.rows)),
        v.flattened().len() <= visible_rows(v.rows) ==> drawn(v).upper_mark == 0,
        drawn(v) == (PagerView {
            upper_mark: drawn(v).upper_mark,
            message_changed: drawn(v).message_changed,
            ..v
        }),
        drawn(drawn(v)).upper_mark == drawn(v).upper_mark,
        clamped_view(clamped_view(v)) == clamped_view(v),
{
    clamp_in_range(v.upper_mark, v.flattened().len(), visible_rows(v.rows));
    clamp_is_min(v.upper_mark, v.flattened().len(), visible_rows(v.rows));
}

/// A step to a match, then a frame. Let every match leave room for a full
/// screen after it, let line numbers be hidden and the screen show a row of
/// text. Then after a step forward the viewport starts at the nearest match
/// after where it was, or at the first match when none follows; after a
/// step backward at the nearest match before, or at the last match when
/// none precedes. The frame leaves the viewport there, the first row on
/// screen is that row of the text as it is shown, and the search term
/// matches that row. The text, the search term and the match index stay as
/// they are.
pub proof fn frame_after_a_step_to_a_match(v: PagerView, forward: bool)
    requires
        v.wf(),
        v.search_idx.len() > 0,
        v.flattened().len() <= usize::MAX,
        forall|i: int|
            0 <= i < v.search_idx.len() ==> (#[trigger] v.search_idx[i]) + visible_rows(v.rows)
                <= v.flattened().len(),
        !v.line_numbers.shown(),
        visible_rows(v.rows) >= 1,
    ensures
        ({
            let target = if forward {
                next_after(v.search_idx, v.upper_mark)
            } else {
                prev_before(v.search_idx, v.upper_mark)
            };
            let moved = moved_to(v, target);
            let shown = displayed_rows(clamped_view(moved));
            &&& target is Some
            &&& v.search_term is Some
            &&& v.search_idx.contains(target->Some_0)
            &&& forward ==> if exists|i: int|
                0 <= i < v.search_idx.len() && v.search_idx[i] > v.upper_mark {
                target->Some_0 > v.upper_mark && forall|i: int|
                    0 <= i < v.search_idx.len() && #[trigger] v.search_idx[i] > v.upper_mark
                        ==> target->Some_0 <= v.search_idx[i]
            } else {
                target->Some_0 == v.search_idx[0]
            }
            &&& !forward ==> if exists|i: int|
                0 <= i < v.search_idx.len() && v.search_idx[i] < v.upper_mark {
                target->Some_0 < v.upper_mark && forall|i: int|
                    0 <= i < v.search_idx.len() && #[trigger] v.search_idx[i] < v.upper_mark
                        ==> v.search_idx[i] <= target->Some_0
            } else {
                target->Some_0 == v.search_idx.last()
            }
            &&& drawn(moved).upper_mark == target->Some_0
            &&& shown.len() >= 1
            &&& shown[0] == shown_row(v.search_term, v.flattened()[target->Some_0 as int])
            &&& row_matches(v.search_term->Some_0, v.flattened()[target->Some_0 as int])
            &&& drawn(moved).lines == v.lines
            &&& drawn(moved).search_term == v.search_term
            &&& drawn(moved).search_idx == v.search_idx
        }),
{
    let idx = v.search_idx;
    let pos = v.upper_mark;
    match_index_lists_the_matching_rows(v);
    lemma_first_above(idx, pos);
    lemma_last_below(idx, pos);
    let target = if forward {
        next_after(idx, pos)
    } else {
        prev_before(idx, pos)
    };
    assert(idx.contains(idx[0]));
    assert(idx[idx.len() - 1] == idx.last());
    assert(idx.contains(idx.last()));
    let m = target->Some_0;
    assert(idx.contains(m));
    let k = choose|k: int| 0 <= k < idx.len() && idx[k] == m;
    assert(idx[k] + visible_rows(v.rows) <= v.flattened().len());
    let moved = moved_to(v, target);
    let total = v.flattened().len();
    let visible = visible_rows(v.rows);
    clamp_is_min(m as nat, total, visible);
    assert(clamped_view(moved).upper_mark == m);
    let source = row_source(clamped_view(moved));
    assert(source.len() == total);
    assert(source[m as int] == shown_row(v.search_term, v.flattened()[m as int]));
    if forward {
        if exists|i: int| 0 <= i < idx.len() && idx[i] > pos {
            let i = choose|i: int| 0 <= i < idx.len() && idx[i] > pos;
            assert(idx[i] > pos);
            assert(first_above(idx, pos) is Some);
        } else {
            if first_above(idx, pos) is Some {
                let f = first_above(idx, pos)->Some_0;
                let w = choose|w: int| 0 <= w < idx.len() && idx[w] == f;
                assert(idx[w] > pos);
            }
        }
    } else {
        if exists|i: int| 0 <= i < idx.len() && idx[i] < pos {
            let i = choose|i: int| 0 <= i < idx.len() && idx[i] < pos;
            assert(idx[i] < pos);
            assert(last_below(idx, pos) is Some);
        } else {
            if last_below(idx, pos) is Some {
                let f = last_below(idx, pos)->Some_0;
                let w = choose|w: int| 0 <= w < idx.len() && idx[w] == f;
                assert(idx[w] < pos);
            }
        }
    }
}

/// Returns `row` with every match of `term` between the style markers. The
/// row itself stays as it is.
pub fn highlight_line_matches(row: &str, term: &regex::Regex) -> (marked: String)
    ensures
        marked@ == highlighted(*term, row@),
{
    let mut marker = reverse_code();
    proof {
        reveal_strlit("${0}");
        assert("${0}"@ =~= seq!['$', '{', '0', '}']);
    }
    marker.append("${0}");
    let reset = reset_code();
    marker.append(reset.as_str());
    replace_all(term, row, marker.as_str())
}

/// Returns `row` as it is shown under the search term `term`.
fn show_row(row: &String, term: &Option<regex::Regex>) -> (shown: String)
    ensures
        shown@ == shown_row(*term, row@),
{
    match term {
        Some(re) => highlight_line_matches(row.as_str(), re),
        None => row.clone(),
    }
}

/// Puts line numbers before the rows of `lines` and returns all rows in
/// order. Every line is first wrapped anew at the width that `cols` leaves
/// beside numbers of `len_line_number` characters.
pub fn annotate_line_numbers(
    lines: Vec<Vec<String>>,
    len_line_number: usize,
    cols: usize,
    search_term: &Option<regex::Regex>,
) -> (rows: Vec<String>)
    requires
        len_line_number + 3 <= usize::MAX,
    ensures
        rows.deep_view() == annotated(
            lines.deep_view(),
            len_line_number as nat,
            cols as nat,
            *search_term,
        ),
{
    let mut lines = lines;
    let ghost all = lines.deep_view();
    let ghost width = len_line_number as nat;
    let padding = len_line_number + 3;
    let narrow_cols = if cols >= padding {
        cols - padding
    } else {
        0
    };
    let mut out: Vec<String> = Vec::new();
    let n = lines.len();
    let mut i: usize = 0;
    assert(out.deep_view() =~= Seq::<Seq<char>>::empty());
    while i < n
        invariant
            i <= n,
            n == lines.len(),
            n == all.len(),
            width == len_line_number,
            padding == len_line_number + 3,
            narrow_cols == text_width(cols as nat, width),
            forall|k: int| i <= k < n ==> #[trigger] lines@[k].deep_view() == all[k],
            out.deep_view() == annotated_upto(all, i as nat, width, cols as nat, *search_term),
        decreases n - i,
    {
        let ghost before = lines@;
        rewrap(&mut lines[i], narrow_cols);
        proof {
            assert forall|k: int| i < k < n implies #[trigger] lines@[k].deep_view() == all[k] by {
                assert(lines@[k] == before[k]);
            }
        }
        let line = &lines[i];
        let ghost narrow = line.deep_view();
        let ghost done = out.deep_view();
        let ghost target = annotated_line(all[i as int], (i + 1) as nat, width, cols as nat, *search_term);
        assert(narrow == rewrapped(all[i as int], text_width(cols as nat, width)));
        let mut j: usize = 0;
        while j < line.len()
            invariant
                j <= line.len(),
                line.deep_view() == narrow,
                target.len() == narrow.len(),
                target == annotated_line(
                    all[i as int],
                    (i + 1) as nat,
                    width,
                    cols as nat,
                    *search_term,
                ),
                narrow == rewrapped(all[i as int], text_width(cols as nat, width)),
                width == len_line_number,
                padding == len_line_number + 3,
                i < n,
                out.deep_view() == done + target.take(j as int),
            decreases line.len() - j,
        {
            let mut row = String::new();
            if j == 0 {
                row.push(' ');
                push_right_aligned(&mut row, i + 1, len_line_number);
                row.push('.');
                row.push(' ');
                assert(row@ =~= number_prefix((i + 1) as nat, width));
            } else {
                push_spaces(&mut row, padding);
                assert(row@ =~= blank_prefix(width));
            }
            let shown = show_row(&line[j], search_term);
            row.append(shown.as_str());
            assert(row@ == target[j as int]);
            let ghost partial = out.deep_view();
            out.push(row);
            assert(out.deep_view() =~= partial.push(target[j as int]));
            assert(out.deep_view() =~= done + target.take(j + 1));
            j += 1;
        }
        proof {
            assert(target.take(target.len() as int) =~= target);
        }
        i += 1;
    }
    out
}

/// Returns the rows of `rows` as they are shown under the search term.
fn show_rows(rows: &Vec<String>, term: &Option<regex::Regex>) -> (out: Vec<String>)
    ensures
        out.deep_view() == rows.deep_view().map_values(|row: Seq<char>| shown_row(*term, row)),
{
    let mut out: Vec<String> = Vec::new();
    let mut i: usize = 0;
    while i < rows.len()
        invariant
            i <= rows.len(),
            out.deep_view() == rows.deep_view().take(i as int).map_values(
                |row: Seq<char>| shown_row(*term, row),
            ),
        decreases rows.len() - i,
    {
        let shown = show_row(&rows[i], term);
        let ghost before = out.deep_view();
        out.push(shown);
        assert(out.deep_view() =~= before.push(shown_row(*term, rows@[i as int]@)));
        assert(out.deep_view() =~= rows.deep_view().take(i + 1).map_values(
            |row: Seq<char>| shown_row(*term, row),
        ));
        i += 1;
    }
    assert(rows.deep_view().take(rows.len() as int) =~= rows.deep_view());
    out
}

/// Returns the rows of `source` from row `upper` on, `visible` rows at most.
fn cut_window(source: &Vec<String>, upper: usize, visible: usize) -> (out: Vec<String>)
    ensures
        out.deep_view() == window(source.deep_view(), upper as nat, visible as nat),
{
    let len = source.len();
    let from = if upper <= len {
        upper
    } else {
        len
    };
    let to = if visible <= len - from {
        from + visible
    } else {
        len
    };
    let mut out: Vec<String> = Vec::new();
    let mut i: usize = from;
    while i < to
        invariant
            from <= i <= to <= len,
            len == source.len(),
            out.deep_view() == source.deep_view().subrange(from as int, i as int),
        decreases to - i,
    {
        let row = source[i].clone();
        let ghost before = out.deep_view();
        out.push(row);
        assert(out.deep_view() =~= before.push(source@[i as int]@));
        assert(out.deep_view() =~= source.deep_view().subrange(from as int, i + 1));
        i += 1;
    }
    out
}

/// Returns all rows that a frame is cut from: the numbered rows when line
/// numbers are shown, else the rows of the text; with matches marked when
/// a search term is active.
pub fn source_rows(pager: &Pager) -> (rows: Vec<String>)
    ensures
        rows.deep_view() == row_source(pager@),
{
    if pager.line_numbers.is_shown() {
        let len_line_number = count_digits(pager.wrap_lines.len());
        proof {
            lemma_decimal_len(pager.wrap_lines.len() as nat, usize::MAX as nat);
            lemma_max_width();
        }
        annotate_line_numbers(pager.get_lines(), len_line_number, pager.cols, &pager.search_term)
    } else {
        let flat = flatten_rows(&pager.wrap_lines);
        show_rows(&flat, &pager.search_term)
    }
}

/// Clamps the viewport and returns the rows that are on screen.
pub fn visible_lines(pager: &mut Pager) -> (rows: Vec<String>)
    ensures
        final(pager)@ == clamped_view(old(pager)@),
        rows.deep_view() == displayed_rows(final(pager)@),
{
    let line_count = pager.num_lines();
    let rows = visible(pager.rows);
    pager.upper_mark = clamp(pager.upper_mark, line_count, rows);
    let source = source_rows(pager);
    cut_window(&source, pager.upper_mark, rows)
}

/// Returns the text of `rows` as a terminal in raw mode takes it.
fn text_of_rows(rows: &Vec<String>) -> (text: String)
    ensures
        text@ == rows_text(rows.deep_view()),
{
    proof {
        reveal_strlit("\r");
        reveal_strlit("\n\r");
        reveal_strlit("\n");
        assert("\r"@ =~= seq!['\r']);
        assert("\n\r"@ =~= seq!['\n', '\r']);
        assert("\n"@ =~= seq!['\n']);
    }
    let mut text = String::new();
    text.append("\r");
    let body = join_rows(rows, "\n\r");
    text.append(body.as_str());
    text.append("\n");
    assert(text@ =~= rows_text(rows.deep_view()));
    text
}

/// No line number of a text in memory is wider than 20 digits.
proof fn lemma_max_width()
    ensures
        decimal(usize::MAX as nat).len() <= 20,
{
    reveal_with_fuel(decimal, 21);
    assert(usize::MAX <= 18446744073709551615);
    lemma_decimal_len(usize::MAX as nat, 18446744073709551615nat);
}

/// Clamps the viewport and returns the text of the rows on screen, as a
/// terminal in raw mode takes it.
pub fn write_lines(pager: &mut Pager) -> (text: String)
    ensures
        final(pager)@ == clamped_view(old(pager)@),
        text@ == rows_text(displayed_rows(final(pager)@)),
{
    let displayed = visible_lines(pager);
    text_of_rows(&displayed)
}

/// Returns the text of the last terminal row for `pager`.
fn bottom(pager: &Pager) -> (text: String)
    ensures
        text@ == bottom_line(pager@),
{
    let y: u16 = if pager.rows <= MAX_CURSOR_ROW {
        pager.rows as u16
    } else {
        MAX_CURSOR_ROW as u16
    };
    let mut text = move_to_code(0, y);
    proof {
        reveal_strlit("\r");
        assert("\r"@ =~= seq!['\r']);
    }
    text.append("\r");
    let reverse = reverse_code();
    text.append(reverse.as_str());
    let rows: &Vec<String> = match &pager.message.0 {
        Some(rows) => if pager.message.1 {
            rows
        } else {
            &pager.prompt
        },
        None => &pager.prompt,
    };
    assert(rows.deep_view() == bottom_rows(pager@));
    if rows.len() > 0 {
        text.append(rows[0].as_str());
    }
    let reset = reset_code();
    text.append(reset.as_str());
    assert(text@ =~= bottom_line(pager@));
    text
}

/// Tells whether the text is written out without paging.
pub fn is_plain_dump(pager: &Pager) -> (plain: bool)
    ensures
        plain == plain_dump(pager@),
{
    pager.run_no_overflow && fits(pager.num_lines(), visible(pager.rows))
}

/// Draws one frame: clamps the viewport and returns the text that shows the
/// rows on screen and the last row. Text that fits on the screen is
/// returned whole as plain rows when that is switched on: every row once,
/// without clearing the screen and without the last row.
pub fn draw(pager: &mut Pager) -> (text: String)
    ensures
        final(pager)@ == drawn(old(pager)@),
        text@ == frame(clamped_view(old(pager)@)),
{
    if is_plain_dump(pager) {
        let total = pager.num_lines();
        pager.upper_mark = clamp(pager.upper_mark, total, visible(pager.rows));
        let all = source_rows(pager);
        return text_of_rows(&all);
    }
    let mut text = clear_screen_code();
    let home = move_to_code(0, 0);
    text.append(home.as_str());
    let rows = write_lines(pager);
    text.append(rows.as_str());
    let last = bottom(pager);
    text.append(last.as_str());
    pager.message.1 = false;
    assert(text@ =~= frame(clamped_view(old(pager)@)));
    text
}

} // verus!
