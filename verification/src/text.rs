//! Splitting text into logical lines and joining display rows.
//!
//! A logical line ends at a line feed. A carriage return directly before the
//! line feed belongs to the line ending and is dropped with it. Text after the
//! last line feed is an unterminated tail.

use vstd::prelude::*;

verus! {

/// `String::push` of the standard library appends one character to the
/// string and changes nothing else.
pub assume_specification[ String::push ](s: &mut String, c: char)
    ensures
        final(s)@ == old(s)@.push(c),
;

/// The position of the first line feed in `s`, or `s.len()` when there is none.
pub open spec fn first_newline(s: Seq<char>) -> int
    decreases s.len(),
{
    if s.len() == 0 || s[0] == '\n' {
        0
    } else {
        1 + first_newline(s.drop_first())
    }
}

/// A line without the carriage return that closed it, if it had one.
pub open spec fn strip_cr(line: Seq<char>) -> Seq<char> {
    if line.len() > 0 && line.last() == '\r' {
        line.drop_last()
    } else {
        line
    }
}

/// The lines of `s` that a line feed terminates, in order, without their
/// line endings.
pub open spec fn complete_lines(s: Seq<char>) -> Seq<Seq<char>>
    decreases s.len(),
{
    let k = first_newline(s);
    if 0 <= k < s.len() {
        seq![strip_cr(s.take(k))] + complete_lines(s.skip(k + 1))
    } else {
        Seq::empty()
    }
}

/// What follows the last line feed of `s`; all of `s` when it has none.
pub open spec fn tail_of(s: Seq<char>) -> Seq<char>
    decreases s.len(),
{
    let k = first_newline(s);
    if 0 <= k < s.len() {
        tail_of(s.skip(k + 1))
    } else {
        s
    }
}

/// The logical lines of `s`: the terminated lines, then the tail when it is
/// not empty. A final line ending therefore adds no empty line.
pub open spec fn lines_of(s: Seq<char>) -> Seq<Seq<char>> {
    if tail_of(s).len() == 0 {
        complete_lines(s)
    } else {
        complete_lines(s).push(tail_of(s))
    }
}

/// The rows of `rows` with `sep` between each two neighbours.
pub open spec fn joined(rows: Seq<Seq<char>>, sep: Seq<char>) -> Seq<char>
    decreases rows.len(),
{
    if rows.len() == 0 {
        Seq::empty()
    } else if rows.len() == 1 {
        rows[0]
    } else {
        joined(rows.drop_last(), sep) + sep + rows.last()
    }
}

/// `first_newline` is the least index that holds a line feed.
pub proof fn lemma_first_newline_is_first(s: Seq<char>)
    ensures
        0 <= first_newline(s) <= s.len(),
        first_newline(s) < s.len() ==> s[first_newline(s)] == '\n',
        forall|j: int| 0 <= j < first_newline(s) ==> s[j] != '\n',
        first_newline(s) == s.len() <==> !s.contains('\n'),
    decreases s.len(),
{
    if s.len() == 0 || s[0] == '\n' {
    } else {
        let t = s.drop_first();
        lemma_first_newline_is_first(t);
        let k = first_newline(s);
        assert(k == 1 + first_newline(t));
        assert forall|j: int| 0 <= j < k implies s[j] != '\n' by {
            if j > 0 {
                assert(s[j] == t[j - 1]);
            }
        }
        if k < s.len() {
            assert(s[k] == t[k - 1]);
        }
        if s.contains('\n') {
            let j = choose|j: int| 0 <= j < s.len() && s[j] == '\n';
            assert(t[j - 1] == '\n');
            assert(t.contains('\n'));
        }
    }
}

/// An index that holds the first line feed of `s`, or its length when it has
/// none, is `first_newline(s)`.
pub proof fn lemma_first_newline_at(s: Seq<char>, k: int)
    requires
        0 <= k <= s.len(),
        forall|j: int| 0 <= j < k ==> s[j] != '\n',
        k < s.len() ==> s[k] == '\n',
    ensures
        first_newline(s) == k,
{
    lemma_first_newline_is_first(s);
    let f = first_newline(s);
    if f < k {
        assert(s[f] == '\n');
    } else if f > k {
        assert(s[k] != '\n');
    }
}

/// Text without a line feed has no terminated line and is its own tail.
pub proof fn lemma_no_newline(s: Seq<char>)
    requires
        !s.contains('\n'),
    ensures
        complete_lines(s) == Seq::<Seq<char>>::empty(),
        tail_of(s) == s,
        lines_of(s) == if s.len() == 0 {
            Seq::<Seq<char>>::empty()
        } else {
            seq![s]
        },
{
    lemma_first_newline_is_first(s);
    if s.len() > 0 {
        assert(Seq::<Seq<char>>::empty().push(s) =~= seq![s]);
    }
}

/// The tail of a text holds no line feed, and the tail of a text that ends in a
/// line feed is empty.
pub proof fn lemma_tail_has_no_newline(s: Seq<char>)
    ensures
        !tail_of(s).contains('\n'),
        tail_of(s).len() <= s.len(),
        s.len() > 0 && s.last() == '\n' ==> tail_of(s).len() == 0,
        s.contains('\n') ==> tail_of(s).len() < s.len(),
    decreases s.len(),
{
    lemma_first_newline_is_first(s);
    let k = first_newline(s);
    if 0 <= k < s.len() {
        let rest = s.skip(k + 1);
        lemma_tail_has_no_newline(rest);
        if rest.len() > 0 {
            assert(rest.last() == s.last());
        }
    } else {
        if s.len() > 0 && s.last() == '\n' {
            assert(s[s.len() - 1] == '\n');
            assert(s.contains('\n'));
        }
    }
}

/// Feeding a text in two pieces gives the same lines and the same tail as
/// feeding it whole: the second piece continues the tail that the first left.
pub proof fn lemma_split_feed(a: Seq<char>, b: Seq<char>)
    ensures
        complete_lines(a + b) == complete_lines(a) + complete_lines(tail_of(a) + b),
        tail_of(a + b) == tail_of(tail_of(a) + b),
    decreases a.len(),
{
    lemma_first_newline_is_first(a);
    let k = first_newline(a);
    if 0 <= k < a.len() {
        let whole = a + b;
        lemma_first_newline_at(whole, k);
        assert(whole.take(k) =~= a.take(k));
        assert(whole.skip(k + 1) =~= a.skip(k + 1) + b);
        lemma_split_feed(a.skip(k + 1), b);
        assert(complete_lines(whole) =~= complete_lines(a) + complete_lines(tail_of(a) + b));
    } else {
        assert(complete_lines(a) + complete_lines(a + b) =~= complete_lines(a + b));
    }
}

/// A concatenation holds a line feed exactly when one of its parts does.
pub proof fn lemma_contains_newline_concat(a: Seq<char>, b: Seq<char>)
    ensures
        (a + b).contains('\n') <==> a.contains('\n') || b.contains('\n'),
{
    let whole = a + b;
    if a.contains('\n') {
        let j = choose|j: int| 0 <= j < a.len() && a[j] == '\n';
        assert(whole[j] == '\n');
    }
    if b.contains('\n') {
        let j = choose|j: int| 0 <= j < b.len() && b[j] == '\n';
        assert(whole[a.len() + j] == '\n');
    }
    if whole.contains('\n') {
        let j = choose|j: int| 0 <= j < whole.len() && whole[j] == '\n';
        if j < a.len() {
            assert(a[j] == '\n');
        } else {
            assert(b[j - a.len()] == '\n');
        }
    }
}

/// Copies the characters of `chars` into a string.
pub fn string_from_chars(chars: &Vec<char>) -> (s: String)
    ensures
        s@ == chars@,
{
    let mut s = String::new();
    let mut i: usize = 0;
    while i < chars.len()
        invariant
            i <= chars.len(),
            s@ == chars@.take(i as int),
        decreases chars.len() - i,
    {
        s.push(chars[i]);
        assert(chars@.take(i as int).push(chars@[i as int]) =~= chars@.take(i + 1));
        i += 1;
    }
    assert(chars@.take(chars.len() as int) =~= chars@);
    s
}

/// Tells whether `s` holds a line feed.
pub fn contains_newline(s: &str) -> (b: bool)
    ensures
        b == s@.contains('\n'),
{
    let mut found = false;
    for c in it: s.chars()
        invariant
            it.seq() == s@,
            found == s@.take(it.index() as int).contains('\n'),
    {
        let ghost i = it.index() as int;
        proof {
            let before = s@.take(i);
            let after = s@.take(i + 1);
            assert(after =~= before.push(c));
            if before.contains('\n') {
                let j = choose|j: int| 0 <= j < before.len() && before[j] == '\n';
                assert(after[j] == '\n');
            }
            if c == '\n' {
                assert(after[i] == '\n');
            }
            if after.contains('\n') {
                let j = choose|j: int| 0 <= j < after.len() && after[j] == '\n';
                if j < i {
                    assert(before[j] == '\n');
                }
            }
        }
        if c == '\n' {
            found = true;
        }
    }
    assert(s@.take(s@.len() as int) =~= s@);
    found
}

/// Splits `s` at its line feeds. Returns the terminated lines, each without
/// its line ending, and the unterminated tail.
pub fn split_complete(s: &str) -> (r: (Vec<String>, String))
    ensures
        r.0.deep_view() == complete_lines(s@),
        r.1@ == tail_of(s@),
{
    let mut lines: Vec<String> = Vec::new();
    let mut cur: Vec<char> = Vec::new();
    let ghost mut start: int = 0;
    assert(s@.skip(0) =~= s@);
    assert(lines.deep_view() =~= Seq::<Seq<char>>::empty());
    assert(lines.deep_view() + complete_lines(s@) =~= complete_lines(s@));
    for c in it: s.chars()
        invariant
            it.seq() == s@,
            0 <= start <= it.index() <= s@.len(),
            cur@ == s@.subrange(start, it.index() as int),
            forall|j: int| start <= j < it.index() ==> s@[j] != '\n',
            lines.deep_view() + complete_lines(s@.skip(start)) == complete_lines(s@),
            tail_of(s@.skip(start)) == tail_of(s@),
    {
        let ghost i = it.index() as int;
        if c == '\n' {
            let ghost segment = s@.skip(start);
            let ghost k = i - start;
            proof {
                assert forall|j: int| 0 <= j < k implies segment[j] != '\n' by {
                    assert(segment[j] == s@[start + j]);
                }
                assert(segment[k] == '\n');
                lemma_first_newline_at(segment, k);
                assert(segment.take(k) =~= cur@);
                assert(segment.skip(k + 1) =~= s@.skip(i + 1));
            }
            let n = cur.len();
            if n > 0 && cur[n - 1] == '\r' {
                cur.pop();
            }
            let line = string_from_chars(&cur);
            assert(line@ == strip_cr(segment.take(k)));
            let ghost before = lines.deep_view();
            lines.push(line);
            proof {
                assert(lines.deep_view() =~= before + seq![strip_cr(segment.take(k))]);
                assert(lines.deep_view() + complete_lines(s@.skip(i + 1)) =~= before
                    + complete_lines(segment));
                start = i + 1;
            }
            cur = Vec::new();
            assert(cur@ =~= s@.subrange(start, i + 1));
        } else {
            cur.push(c);
            assert(cur@ =~= s@.subrange(start, i + 1));
        }
    }
    proof {
        let rest = s@.skip(start);
        assert(rest =~= cur@);
        assert(!rest.contains('\n')) by {
            if rest.contains('\n') {
                let j = choose|j: int| 0 <= j < rest.len() && rest[j] == '\n';
                assert(s@[start + j] == '\n');
            }
        }
        lemma_no_newline(rest);
        assert(lines.deep_view() + Seq::<Seq<char>>::empty() =~= lines.deep_view());
    }
    let tail = string_from_chars(&cur);
    (lines, tail)
}

/// Splits `s` into its logical lines.
pub fn split_lines(s: &str) -> (lines: Vec<String>)
    ensures
        lines.deep_view() == lines_of(s@),
{
    let (mut lines, tail) = split_complete(s);
    if tail.as_str().unicode_len() > 0 {
        let ghost before = lines.deep_view();
        lines.push(tail);
        assert(lines.deep_view() =~= before.push(tail_of(s@)));
    }
    lines
}

/// Joins `rows` with `sep` between each two neighbours.
pub fn join_rows(rows: &Vec<String>, sep: &str) -> (s: String)
    ensures
        s@ == joined(rows.deep_view(), sep@),
{
    let mut s = String::new();
    let mut i: usize = 0;
    while i < rows.len()
        invariant
            i <= rows.len(),
            s@ == joined(rows.deep_view().take(i as int), sep@),
        decreases rows.len() - i,
    {
        let ghost prefix = rows.deep_view().take(i as int);
        let ghost next = rows.deep_view().take(i + 1);
        proof {
            assert(next.drop_last() =~= prefix);
            assert(next.last() == rows@[i as int]@);
        }
        if i > 0 {
            s.append(sep);
        }
        s.append(rows[i].as_str());
        proof {
            if i == 0 {
                assert(s@ =~= next[0]);
            }
        }
        i += 1;
    }
    assert(rows.deep_view().take(rows.len() as int) =~= rows.deep_view());
    s
}

/// Copies a row list.
pub fn clone_rows(rows: &Vec<String>) -> (copy: Vec<String>)
    ensures
        copy.deep_view() == rows.deep_view(),
{
    let mut copy: Vec<String> = Vec::new();
    let mut i: usize = 0;
    while i < rows.len()
        invariant
            i <= rows.len(),
            copy.deep_view() == rows.deep_view().take(i as int),
        decreases rows.len() - i,
    {
        let row = rows[i].clone();
        let ghost before = copy.deep_view();
        copy.push(row);
        assert(copy.deep_view() =~= before.push(rows@[i as int]@));
        assert(copy.deep_view() =~= rows.deep_view().take(i + 1));
        i += 1;
    }
    assert(rows.deep_view().take(rows.len() as int) =~= rows.deep_view());
    copy
}

/// Copies a list of wrapped lines.
pub fn clone_lines(lines: &Vec<Vec<String>>) -> (copy: Vec<Vec<String>>)
    ensures
        copy.deep_view() == lines.deep_view(),
{
    let mut copy: Vec<Vec<String>> = Vec::new();
    let mut i: usize = 0;
    while i < lines.len()
        invariant
            i <= lines.len(),
            copy.deep_view() == lines.deep_view().take(i as int),
        decreases lines.len() - i,
    {
        let rows = clone_rows(&lines[i]);
        let ghost before = copy.deep_view();
        copy.push(rows);
        assert(copy.deep_view() =~= before.push(lines@[i as int].deep_view()));
        assert(copy.deep_view() =~= lines.deep_view().take(i + 1));
        i += 1;
    }
    assert(lines.deep_view().take(lines.len() as int) =~= lines.deep_view());
    copy
}

/// Flattening a list with one more entry at its end appends that entry to
/// the flattened list.
pub proof fn lemma_flatten_push<A>(lines: Seq<Seq<A>>, rows: Seq<A>)
    ensures
        lines.push(rows).flatten() == lines.flatten() + rows,
{
    let more = lines.push(rows);
    lines.lemma_flatten_and_flatten_alt_are_equivalent();
    more.lemma_flatten_and_flatten_alt_are_equivalent();
    assert(more.drop_last() =~= lines);
    assert(more.last() == rows);
}

/// Flattening distributes over concatenation.
pub proof fn lemma_flatten_concat<A>(a: Seq<Seq<A>>, b: Seq<Seq<A>>)
    ensures
        (a + b).flatten() == a.flatten() + b.flatten(),
    decreases b.len(),
{
    if b.len() == 0 {
        assert(a + b =~= a);
        assert(a.flatten() + b.flatten() =~= a.flatten());
    } else {
        let front = b.drop_last();
        lemma_flatten_concat(a, front);
        lemma_flatten_push(a + front, b.last());
        lemma_flatten_push(front, b.last());
        assert((a + front).push(b.last()) =~= a + b);
        assert(front.push(b.last()) =~= b);
        assert((a.flatten() + front.flatten()) + b.last() =~= a.flatten() + (front.flatten()
            + b.last()));
    }
}

/// Returns all rows of the wrapped lines `lines` in order.
pub fn flatten_rows(lines: &Vec<Vec<String>>) -> (flat: Vec<String>)
    ensures
        flat.deep_view() == lines.deep_view().flatten(),
{
    let mut flat: Vec<String> = Vec::new();
    let mut i: usize = 0;
    assert(lines.deep_view().take(0) =~= Seq::empty());
    assert(flat.deep_view() =~= Seq::<Seq<char>>::empty());
    while i < lines.len()
        invariant
            i <= lines.len(),
            flat.deep_view() == lines.deep_view().take(i as int).flatten(),
        decreases lines.len() - i,
    {
        let rows = &lines[i];
        let ghost done = flat.deep_view();
        let mut j: usize = 0;
        while j < rows.len()
            invariant
                j <= rows.len(),
                flat.deep_view() == done + rows.deep_view().take(j as int),
            decreases rows.len() - j,
        {
            let row = rows[j].clone();
            let ghost before = flat.deep_view();
            flat.push(row);
            assert(flat.deep_view() =~= before.push(rows@[j as int]@));
            assert(flat.deep_view() =~= done + rows.deep_view().take(j + 1));
            j += 1;
        }
        proof {
            assert(rows.deep_view().take(rows.len() as int) =~= rows.deep_view());
            lemma_flatten_push(lines.deep_view().take(i as int), rows.deep_view());
            assert(lines.deep_view().take(i as int).push(rows.deep_view()) =~= lines.deep_view().take(
                i + 1,
            ));
        }
        i += 1;
    }
    assert(lines.deep_view().take(lines.len() as int) =~= lines.deep_view());
    flat
}

} // verus!
