//! The pager's state: the wrapped text, the viewport, the search state, the
//! texts of the last row and the settings.

use crate::error::{TermError, TextError};
use crate::input::{
    default_command, Command, DefaultInputHandler, InputClassifier, InputContext, Installed,
    KeyPress,
};
use crate::line_numbers::LineNumbers;
use crate::search::{
    compile, compiled, find_matches, increasing, lemma_match_index, match_index, next_after,
    next_match_from, prev_before, prev_match_from, row_matches, SearchError, SearchMode,
};
use crate::text::{
    clone_lines, complete_lines, contains_newline, flatten_rows, lemma_contains_newline_concat,
    lemma_flatten_concat, lemma_flatten_push, lemma_no_newline, lemma_split_feed, lemma_tail_has_no_newline, lines_of,
    split_complete, split_lines, tail_of,
};
use crate::viewport::{clamp, clamped, visible, visible_rows};
use crate::wrap::{
    rewrap, rewrap_lines, rewrapped, rewrapped_all, wrap_all, wrap_str, wrapped, wrapped_all,
};
use vstd::prelude::*;

verus! {

/// What happens to the host program when the user quits the pager.
#[derive(Debug, PartialEq, Eq, Structural, Copy, Clone)]
pub enum ExitStrategy {
    /// The whole process ends.
    ProcessQuit,
    /// Only the pager ends; the host program goes on.
    PagerQuit,
}

/// What the host found out about standard output before paging starts.
#[derive(Debug, PartialEq, Eq, Structural, Copy, Clone)]
pub enum TerminalSize {
    /// Standard output is a terminal of this size.
    Known { cols: u16, rows: u16 },
    /// Standard output is a terminal that did not tell its size.
    Unknown,
    /// Standard output is no terminal.
    NotATerminal,
}

/// A count of runs. It exists in proofs only.
pub type RunCount = nat;

/// Something to run when the pager session ends.
///
/// `runs` is there for proofs and is never called when the program runs; an
/// implementation outside verified code gives it a body that is never
/// reached.
pub trait ExitCallback: Send + Sync {
    /// How often this callback has run.
    spec fn runs(&self) -> RunCount;

    /// Runs the callback once and tells whether it succeeded.
    fn on_exit(&mut self) -> (ok: bool)
        ensures
            final(self).runs() == old(self).runs() + 1,
    ;
}

/// A registered exit callback.
pub struct Registered {
    pub callback: Box<dyn ExitCallback>,
}

/// Whether `after` holds the callbacks of `before`, in the same order, each
/// one run once more.
pub open spec fn each_ran_once(before: Seq<Registered>, after: Seq<Registered>) -> bool {
    &&& after.len() == before.len()
    &&& forall|k: int|
        0 <= k < before.len() ==> (#[trigger] after[k]).callback.runs() == before[k].callback.runs()
            + 1
}

/// The positions at which `outcomes` holds a failure, in ascending order.
pub open spec fn failures(outcomes: Seq<bool>) -> Seq<usize>
    decreases outcomes.len(),
{
    if outcomes.len() == 0 {
        Seq::empty()
    } else if outcomes.last() {
        failures(outcomes.drop_last())
    } else {
        failures(outcomes.drop_last()).push((outcomes.len() - 1) as usize)
    }
}

/// Adds `registered` at the end of `list`.
fn append_callback(list: &mut Vec<Registered>, registered: Registered)
    ensures
        final(list)@ == old(list)@.push(registered),
        final(list)@.len() == old(list)@.len() + 1,
        forall|k: int| 0 <= k < old(list)@.len() ==> #[trigger] final(list)@[k] == old(list)@[k],
{
    list.push(registered);
}

/// Puts `installed` into `slot`.
fn install(slot: &mut Option<Installed>, installed: Installed)
    ensures
        *final(slot) == Some(installed),
{
    *slot = Some(installed);
}

/// Runs the callbacks of `callbacks` in order, each one once, whatever the
/// ones before answered. Returns the answers in that order.
pub fn run_callbacks(callbacks: &mut Vec<Registered>) -> (outcomes: Vec<bool>)
    ensures
        outcomes@.len() == old(callbacks)@.len(),
        each_ran_once(old(callbacks)@, final(callbacks)@),
{
    let n = callbacks.len();
    let mut outcomes: Vec<bool> = Vec::new();
    let mut i: usize = 0;
    while i < n
        invariant
            i <= n,
            callbacks@.len() == n,
            old(callbacks)@.len() == n,
            outcomes@.len() == i,
            forall|k: int|
                0 <= k < i ==> (#[trigger] callbacks@[k]).callback.runs() == old(
                    callbacks,
                )@[k].callback.runs() + 1,
            forall|k: int| i <= k < n ==> #[trigger] callbacks@[k] == old(callbacks)@[k],
        decreases n - i,
    {
        let ok = callbacks[i].callback.on_exit();
        outcomes.push(ok);
        i += 1;
    }
    outcomes
}

/// Returns the positions of the callbacks that answered with a failure, in
/// ascending order.
pub fn failed_positions(outcomes: &Vec<bool>) -> (failed: Vec<usize>)
    ensures
        failed@ == failures(outcomes@),
{
    let mut failed: Vec<usize> = Vec::new();
    let mut i: usize = 0;
    assert(outcomes@.take(0) =~= Seq::<bool>::empty());
    while i < outcomes.len()
        invariant
            i <= outcomes.len(),
            failed@ == failures(outcomes@.take(i as int)),
        decreases outcomes.len() - i,
    {
        proof {
            let next = outcomes@.take(i + 1);
            assert(next.drop_last() =~= outcomes@.take(i as int));
            assert(next.last() == outcomes@[i as int]);
        }
        if !outcomes[i] {
            failed.push(i);
        }
        i += 1;
    }
    assert(outcomes@.take(outcomes.len() as int) =~= outcomes@);
    failed
}

/// The failures of a list of answers ascend, and each is the position of an
/// answer in the list.
pub proof fn lemma_failures(outcomes: Seq<bool>)
    requires
        outcomes.len() <= usize::MAX,
    ensures
        increasing(failures(outcomes)),
        forall|i: int|
            0 <= i < failures(outcomes).len() ==> (#[trigger] failures(outcomes)[i])
                < outcomes.len() && !outcomes[failures(outcomes)[i] as int],
        forall|k: int|
            0 <= k < outcomes.len() && !#[trigger] outcomes[k] ==> failures(outcomes).contains(
                k as usize,
            ),
    decreases outcomes.len(),
{
    if outcomes.len() > 0 {
        let front = outcomes.drop_last();
        lemma_failures(front);
        let inner = failures(front);
        let all = failures(outcomes);
        assert forall|i: int, j: int| 0 <= i < j < all.len() implies all[i] < all[j] by {
            assert(all[i] == inner[i]);
            if j < inner.len() {
                assert(all[j] == inner[j]);
            }
        }
        assert forall|i: int| 0 <= i < all.len() implies (#[trigger] all[i]) < outcomes.len()
            && !outcomes[all[i] as int] by {
            if i < inner.len() {
                assert(all[i] == inner[i]);
                assert(front[inner[i] as int] == outcomes[inner[i] as int]);
            }
        }
        assert forall|k: int| 0 <= k < outcomes.len() && !#[trigger] outcomes[k] implies all.contains(
            k as usize,
        ) by {
            if k < front.len() {
                assert(front[k] == outcomes[k]);
                let w = choose|w: int| 0 <= w < inner.len() && inner[w] == k as usize;
                assert(all[w] == k as usize);
            } else {
                assert(all[all.len() - 1] == k as usize);
            }
        }
    }
}

/// A pager that a producer of text and the event loop share.
pub type PagerMutex = std::sync::Arc<async_mutex::Mutex<Pager>>;

/// The mutual-exclusion lock of the `async-mutex` crate.
#[verifier::external_type_specification]
#[verifier::external_body]
#[verifier::reject_recursive_types(T)]
pub struct ExMutex<T: ?Sized>(async_mutex::Mutex<T>);

/// The pager's state.
pub struct Pager {
    /// The text, one entry per logical line, each wrapped into rows.
    pub(crate) wrap_lines: Vec<Vec<String>>,
    pub(crate) line_numbers: LineNumbers,
    /// The prompt, wrapped; its first row is drawn.
    pub(crate) prompt: Vec<String>,
    /// Text that was pushed but not yet closed by a line feed.
    pub(crate) lines: String,
    /// The host's classifier of key presses; without one the default key
    /// bindings hold.
    pub(crate) input_classifier: Option<Installed>,
    pub(crate) exit_callbacks: Vec<Registered>,
    pub(crate) exit_strategy: ExitStrategy,
    pub(crate) end_stream: bool,
    /// The message, wrapped, and whether it changed since it was last drawn.
    pub(crate) message: (Option<Vec<String>>, bool),
    /// The index of the first row on screen.
    pub(crate) upper_mark: usize,
    pub(crate) run_no_overflow: bool,
    pub(crate) search_term: Option<regex::Regex>,
    pub(crate) search_mode: SearchMode,
    /// The rows that the search term matches.
    pub(crate) search_idx: Vec<usize>,
    /// The search pattern that is being typed, if one is.
    pub(crate) typing: Option<String>,
    pub(crate) rows: usize,
    pub(crate) cols: usize,
}

/// The pager's state as plain mathematical values.
pub struct PagerView {
    /// The wrapped lines: for each logical line its rows.
    pub lines: Seq<Seq<Seq<char>>>,
    /// The text after the last line feed that was pushed.
    pub pending: Seq<char>,
    /// The rows of the wrapped prompt.
    pub prompt: Seq<Seq<char>>,
    /// The rows of the wrapped message, if there is one.
    pub message: Option<Seq<Seq<char>>>,
    /// Whether the message changed since it was last drawn.
    pub message_changed: bool,
    pub line_numbers: LineNumbers,
    pub exit_strategy: ExitStrategy,
    pub end_stream: bool,
    pub upper_mark: nat,
    pub run_no_overflow: bool,
    pub search_term: Option<regex::Regex>,
    pub search_mode: SearchMode,
    pub search_idx: Seq<usize>,
    /// The search pattern that is being typed, if one is.
    pub typing: Option<Seq<char>>,
    pub rows: nat,
    pub cols: nat,
    /// The registered exit callbacks, in the order of their registration.
    pub exit_callbacks: Seq<Registered>,
    /// The host's classifier of key presses, if it has supplied one.
    pub classifier: Option<Installed>,
}

impl PagerView {
    /// All rows of the document in order.
    pub open spec fn flattened(self) -> Seq<Seq<char>> {
        self.lines.flatten()
    }

    /// What a classifier of key presses is told of this state.
    pub open spec fn input_context(self) -> InputContext {
        InputContext {
            visible_rows: visible_rows(self.rows) as usize,
            typing: self.typing is Some,
        }
    }

    /// The command of the key press `event` in this state: that of the
    /// host's classifier when there is one, else that of the default key
    /// bindings.
    pub open spec fn command_for(self, event: KeyPress) -> Command {
        match self.classifier {
            Some(installed) => installed.classifier.command(event, self.input_context()),
            None => default_command(event, self.input_context()),
        }
    }

    /// The match index that belongs to this text and search term.
    pub open spec fn fresh_index(self) -> Seq<usize> {
        index_for(self.search_term, self.lines)
    }

    /// A state is well formed when its pending part holds no line feed and its
    /// match index is the one of its text and search term.
    pub open spec fn wf(self) -> bool {
        &&& !self.pending.contains('\n')
        &&& self.search_idx == self.fresh_index()
    }
}

/// The match index of the wrapped lines `lines` under the search term
/// `term`: empty without a term.
pub open spec fn index_for(term: Option<regex::Regex>, lines: Seq<Seq<Seq<char>>>) -> Seq<usize> {
    match term {
        Some(re) => match_index(re, lines.flatten()),
        None => Seq::empty(),
    }
}

/// The state of a new pager on a terminal of `rows` rows and `cols` columns.
pub open spec fn initial_view(rows: nat, cols: nat) -> PagerView {
    PagerView {
        lines: Seq::empty(),
        pending: Seq::empty(),
        prompt: wrapped(seq!['m', 'i', 'n', 'u', 's'], cols),
        message: None,
        message_changed: false,
        line_numbers: LineNumbers::Disabled,
        exit_strategy: ExitStrategy::ProcessQuit,
        end_stream: false,
        upper_mark: 0,
        run_no_overflow: false,
        search_term: None,
        search_mode: SearchMode::Unknown,
        search_idx: Seq::empty(),
        typing: None,
        rows,
        cols,
        exit_callbacks: Seq::empty(),
        classifier: None,
    }
}

/// The state after `s` is appended to the text. Text without a line feed only
/// grows the pending part. Otherwise the pending part and `s` together are
/// split at the line feeds: the terminated lines are wrapped and appended,
/// what follows the last line feed is the new pending part, and the match
/// index is that of the new text.
pub open spec fn pushed(v: PagerView, s: Seq<char>) -> PagerView {
    if s.contains('\n') {
        let text = v.pending + s;
        let lines = v.lines + wrapped_all(complete_lines(text), v.cols);
        PagerView {
            lines,
            pending: tail_of(text),
            search_idx: index_for(v.search_term, lines),
            ..v
        }
    } else {
        PagerView { pending: v.pending + s, ..v }
    }
}

/// The state after the text is replaced by `text`: its logical lines, each
/// wrapped, with the match index of the new text. What was there before is
/// discarded, the pending part too.
pub open spec fn with_text(v: PagerView, text: Seq<char>) -> PagerView {
    let lines = wrapped_all(lines_of(text), v.cols);
    PagerView {
        lines,
        pending: Seq::empty(),
        search_idx: index_for(v.search_term, lines),
        ..v
    }
}

/// The state after every wrapped text is wrapped anew at the width of the
/// state: the lines, the prompt and the message. The match index is that of
/// the new rows.
pub open spec fn readjusted(v: PagerView) -> PagerView {
    let lines = rewrapped_all(v.lines, v.cols);
    PagerView {
        lines,
        prompt: rewrapped(v.prompt, v.cols),
        message: match v.message {
            Some(rows) => Some(rewrapped(rows, v.cols)),
            None => None,
        },
        search_idx: index_for(v.search_term, lines),
        ..v
    }
}

/// The state after the terminal changed to `rows` rows and `cols` columns:
/// everything is wrapped anew at the new width and the viewport is clamped
/// for the new rows.
pub open spec fn resized(v: PagerView, rows: nat, cols: nat) -> PagerView {
    let w = readjusted(PagerView { rows, cols, ..v });
    PagerView {
        upper_mark: clamped(v.upper_mark, w.flattened().len(), visible_rows(rows)),
        ..w
    }
}

/// The state after `text` becomes the message: it is wrapped at the terminal
/// width and counts as changed.
pub open spec fn with_message(v: PagerView, text: Seq<char>) -> PagerView {
    PagerView { message: Some(wrapped(text, v.cols)), message_changed: true, ..v }
}

/// The state after the search term is set to `re`: the match index is that
/// of the text under the new term.
pub open spec fn with_pattern(v: PagerView, re: regex::Regex) -> PagerView {
    PagerView { search_term: Some(re), search_idx: match_index(re, v.flattened()), ..v }
}

/// The state after a compiled pattern arrives: a pattern that compiled is the
/// new search term, one that did not changes nothing.
pub open spec fn pattern_applied(
    v: PagerView,
    outcome: Result<regex::Regex, regex::Error>,
) -> PagerView {
    match outcome {
        Ok(re) => with_pattern(v, re),
        Err(_) => v,
    }
}

/// The state after a step to the match that `target` holds: the viewport
/// starts at that match. Without a target nothing changes.
pub open spec fn moved_to(v: PagerView, target: Option<usize>) -> PagerView {
    match target {
        Some(row) => PagerView { upper_mark: row as nat, ..v },
        None => v,
    }
}

/// The state after each text of `chunks` is appended in turn.
pub open spec fn pushed_all(v: PagerView, chunks: Seq<Seq<char>>) -> PagerView
    decreases chunks.len(),
{
    if chunks.len() == 0 {
        v
    } else {
        pushed(pushed_all(v, chunks.drop_last()), chunks.last())
    }
}

impl View for Pager {
    type V = PagerView;

    open(crate) spec fn view(&self) -> PagerView {
        PagerView {
            lines: self.wrap_lines.deep_view(),
            pending: self.lines@,
            prompt: self.prompt.deep_view(),
            message: match self.message.0 {
                Some(rows) => Some(rows.deep_view()),
                None => None,
            },
            message_changed: self.message.1,
            line_numbers: self.line_numbers,
            exit_strategy: self.exit_strategy,
            end_stream: self.end_stream,
            upper_mark: self.upper_mark as nat,
            run_no_overflow: self.run_no_overflow,
            search_term: self.search_term,
            search_mode: self.search_mode,
            search_idx: self.search_idx@,
            typing: match self.typing {
                Some(text) => Some(text@),
                None => None,
            },
            rows: self.rows as nat,
            cols: self.cols as nat,
            exit_callbacks: self.exit_callbacks@,
            classifier: self.input_classifier,
        }
    }
}

impl Pager {
    /// Makes a pager for the terminal that `terminal` describes. A pager
    /// whose output is no terminal gets one row and one column. A terminal of
    /// unknown size is an error.
    pub fn new(terminal: TerminalSize) -> (res: Result<Pager, TermError>)
        ensures
            match terminal {
                TerminalSize::Known { cols, rows } => res is Ok && res->Ok_0@ == initial_view(
                    rows as nat,
                    cols as nat,
                ),
                TerminalSize::NotATerminal => res is Ok && res->Ok_0@ == initial_view(1, 1),
                TerminalSize::Unknown => res == Err::<Pager, TermError>(TermError::SizeUnavailable),
            },
    {
        let (rows, cols): (usize, usize) = match terminal {
            TerminalSize::Known { cols, rows } => (rows as usize, cols as usize),
            TerminalSize::NotATerminal => (1, 1),
            TerminalSize::Unknown => {
                return Err(TermError::SizeUnavailable);
            },
        };
        proof {
            reveal_strlit("minus");
            assert("minus"@ =~= seq!['m', 'i', 'n', 'u', 's']);
        }
        let pager = Pager {
            wrap_lines: Vec::new(),
            line_numbers: LineNumbers::Disabled,
            upper_mark: 0,
            prompt: wrap_str("minus", cols),
            exit_strategy: ExitStrategy::ProcessQuit,
            input_classifier: None,
            exit_callbacks: Vec::new(),
            run_no_overflow: false,
            message: (None, false),
            lines: String::new(),
            end_stream: false,
            search_term: None,
            search_mode: SearchMode::Unknown,
            search_idx: Vec::new(),
            typing: None,
            cols,
            rows,
        };
        assert(pager@.lines =~= Seq::empty());
        assert(pager@ == initial_view(rows as nat, cols as nat));
        Ok(pager)
    }

    /// Replaces the text by `text`, split into logical lines and wrapped at
    /// the terminal width. The text that was there before is discarded, and
    /// with it what was pushed but not yet closed by a line feed.
    pub fn set_text(&mut self, text: &str)
        ensures
            final(self)@ == with_text(old(self)@, text@),
    {
        let lines = split_lines(text);
        self.wrap_lines = wrap_all(&lines, self.cols);
        self.lines = String::new();
        self.recompute();
    }

    /// Appends `string` to the text. Lines that a line feed closes are
    /// wrapped and shown; what follows the last line feed waits for its end.
    pub fn push_str(&mut self, string: &str)
        ensures
            final(self)@ == pushed(old(self)@, string@),
    {
        self.lines.append(string);
        if contains_newline(string) {
            let (complete, tail) = split_complete(self.lines.as_str());
            let mut rows = wrap_all(&complete, self.cols);
            let ghost before = self.wrap_lines.deep_view();
            let ghost added = rows.deep_view();
            self.wrap_lines.append(&mut rows);
            assert(self.wrap_lines.deep_view() =~= before + added);
            self.lines = tail;
            self.recompute();
        }
    }

    /// Wraps the lines, the prompt and the message anew at the terminal
    /// width.
    pub fn readjust_wraps(&mut self)
        ensures
            final(self)@ == readjusted(old(self)@),
    {
        rewrap_lines(&mut self.wrap_lines, self.cols);
        match &mut self.message.0 {
            Some(rows) => {
                rewrap(rows, self.cols);
            },
            None => {},
        }
        rewrap(&mut self.prompt, self.cols);
        self.recompute();
    }

    /// Takes over a new terminal size: wraps everything anew at the new width
    /// and clamps the viewport.
    pub fn resize(&mut self, rows: usize, cols: usize)
        ensures
            final(self)@ == resized(old(self)@, rows as nat, cols as nat),
    {
        self.rows = rows;
        self.cols = cols;
        self.readjust_wraps();
        let total = self.num_lines();
        self.upper_mark = clamp(self.upper_mark, total, visible(rows));
    }

    /// Scans the rows of the text in order and replaces the match index by
    /// the indices of the rows that the search term matches. Without a search
    /// term the index is empty.
    pub fn recompute(&mut self)
        ensures
            final(self)@ == (PagerView { search_idx: old(self)@.fresh_index(), ..old(self)@ }),
    {
        self.search_idx = match &self.search_term {
            Some(re) => {
                let flat = flatten_rows(&self.wrap_lines);
                find_matches(re, &flat)
            },
            None => Vec::new(),
        };
    }

    /// Returns a copy of the wrapped lines.
    pub fn get_lines(&self) -> (lines: Vec<Vec<String>>)
        ensures
            lines.deep_view() == self@.lines,
    {
        clone_lines(&self.wrap_lines)
    }

    /// Returns all rows of the text in order.
    pub fn get_flattened_lines(&self) -> (rows: Vec<String>)
        ensures
            rows.deep_view() == self@.flattened(),
    {
        flatten_rows(&self.wrap_lines)
    }

    /// Returns the number of rows of the text.
    pub fn num_lines(&self) -> (n: usize)
        ensures
            n == self@.flattened().len(),
    {
        flatten_rows(&self.wrap_lines).len()
    }

    /// Shows `text` in the last row in place of the prompt, whatever it
    /// holds.
    pub(crate) fn show_message(&mut self, text: &str)
        ensures
            final(self)@ == with_message(old(self)@, text@),
    {
        self.message.0 = Some(wrap_str(text, self.cols));
        self.message.1 = true;
    }

    /// Shows `text` in the last row in place of the prompt. A text with a
    /// line feed is refused and changes nothing.
    pub fn send_message(&mut self, text: &str) -> (res: Result<(), TextError>)
        ensures
            text@.contains('\n') ==> res == Err::<(), TextError>(TextError::InvalidMessageText)
                && final(self)@ == old(self)@,
            !text@.contains('\n') ==> res is Ok && final(self)@ == with_message(old(self)@, text@),
    {
        if contains_newline(text) {
            return Err(TextError::InvalidMessageText);
        }
        self.show_message(text);
        Ok(())
    }

    /// Sets the prompt of the last row to `text`. A text with a line feed is
    /// refused and changes nothing.
    pub fn set_prompt(&mut self, text: &str) -> (res: Result<(), TextError>)
        ensures
            text@.contains('\n') ==> res == Err::<(), TextError>(TextError::InvalidPromptText)
                && final(self)@ == old(self)@,
            !text@.contains('\n') ==> res is Ok && final(self)@ == (PagerView {
                prompt: wrapped(text@, old(self)@.cols),
                ..old(self)@
            }),
    {
        if contains_newline(text) {
            return Err(TextError::InvalidPromptText);
        }
        self.prompt = wrap_str(text, self.cols);
        Ok(())
    }

    /// Takes over the outcome of compiling a search pattern. A compiled
    /// pattern becomes the search term and the match index is computed anew;
    /// a refused pattern is reported and changes nothing.
    pub fn apply_pattern(&mut self, outcome: Result<regex::Regex, regex::Error>) -> (res: Result<
        (),
        SearchError,
    >)
        ensures
            final(self)@ == pattern_applied(old(self)@, outcome),
            res == if outcome is Ok {
                Ok::<(), SearchError>(())
            } else {
                Err::<(), SearchError>(SearchError::PatternError)
            },
    {
        match outcome {
            Ok(re) => {
                self.search_term = Some(re);
                self.recompute();
                Ok(())
            },
            Err(_) => Err(SearchError::PatternError),
        }
    }

    /// Makes `pattern` the search term, matching without regard to case when
    /// `case_insensitive` is set. A pattern that does not compile is reported
    /// and changes nothing.
    pub fn set_pattern(&mut self, pattern: &str, case_insensitive: bool) -> (res: Result<
        (),
        SearchError,
    >)
        ensures
            final(self)@ == pattern_applied(old(self)@, compiled(pattern@, case_insensitive)),
            res == if compiled(pattern@, case_insensitive) is Ok {
                Ok::<(), SearchError>(())
            } else {
                Err::<(), SearchError>(SearchError::PatternError)
            },
    {
        let outcome = compile(pattern, case_insensitive);
        self.apply_pattern(outcome)
    }

    /// Moves the viewport to the nearest match after its first row, or round
    /// to the first match when none follows. Without matches this is
    /// reported and nothing changes.
    pub fn next_match(&mut self) -> (res: Result<(), SearchError>)
        ensures
            final(self)@ == moved_to(
                old(self)@,
                next_after(old(self)@.search_idx, old(self)@.upper_mark),
            ),
            res == if old(self)@.search_idx.len() > 0 {
                Ok::<(), SearchError>(())
            } else {
                Err::<(), SearchError>(SearchError::NoMatches)
            },
    {
        match next_match_from(&self.search_idx, self.upper_mark) {
            Some(row) => {
                self.upper_mark = row;
                Ok(())
            },
            None => Err(SearchError::NoMatches),
        }
    }

    /// Moves the viewport to the nearest match before its first row, or
    /// round to the last match when none precedes. Without matches this is
    /// reported and nothing changes.
    pub fn prev_match(&mut self) -> (res: Result<(), SearchError>)
        ensures
            final(self)@ == moved_to(
                old(self)@,
                prev_before(old(self)@.search_idx, old(self)@.upper_mark),
            ),
            res == if old(self)@.search_idx.len() > 0 {
                Ok::<(), SearchError>(())
            } else {
                Err::<(), SearchError>(SearchError::NoMatches)
            },
    {
        match prev_match_from(&self.search_idx, self.upper_mark) {
            Some(row) => {
                self.upper_mark = row;
                Ok(())
            },
            None => Err(SearchError::NoMatches),
        }
    }

    /// Sets the direction of the search.
    pub fn set_search_mode(&mut self, mode: SearchMode)
        ensures
            final(self)@ == (PagerView { search_mode: mode, ..old(self)@ }),
    {
        self.search_mode = mode;
    }

    /// Returns the direction of the search.
    pub fn search_mode(&self) -> (mode: SearchMode)
        ensures
            mode == self@.search_mode,
    {
        self.search_mode
    }

    /// Puts the host's classifier `handler` in place of the default key
    /// bindings, or of an earlier classifier. Nothing else changes.
    pub fn set_input_handler(&mut self, handler: Box<dyn InputClassifier>)
        ensures
            final(self)@ == (PagerView {
                classifier: Some(Installed { classifier: handler }),
                ..old(self)@
            }),
    {
        let installed = Installed { classifier: handler };
        install(&mut self.input_classifier, installed);
    }

    /// Returns the command of the key press `event`. The classifier is told
    /// how many rows the screen shows and whether a pattern is being typed.
    /// The host's classifier decides when there is one, else the default
    /// key bindings.
    pub fn classify(&self, event: KeyPress) -> (command: Command)
        ensures
            command == self@.command_for(event),
    {
        let context = InputContext {
            visible_rows: visible(self.rows),
            typing: self.typing.is_some(),
        };
        match &self.input_classifier {
            Some(installed) => installed.classifier.classify(event, context),
            None => DefaultInputHandler::command_for(event, context),
        }
    }

    /// Registers `cb` to run when the session ends, after the callbacks
    /// registered before it.
    pub fn add_exit_callback(&mut self, cb: Box<dyn ExitCallback>)
        ensures
            final(self)@ == (PagerView {
                exit_callbacks: old(self)@.exit_callbacks.push(Registered { callback: cb }),
                ..old(self)@
            }),
            final(self)@.exit_callbacks.len() == old(self)@.exit_callbacks.len() + 1,
            forall|k: int|
                0 <= k < old(self)@.exit_callbacks.len() ==> #[trigger] final(self)@.exit_callbacks[k]
                    == old(self)@.exit_callbacks[k],
    {
        let registered = Registered { callback: cb };
        append_callback(&mut self.exit_callbacks, registered);
    }

    /// Runs the exit callbacks in the order in which they were registered,
    /// each one once, whether or not an earlier one failed, and returns
    /// their answers in that order. The callbacks stay registered; nothing
    /// else changes.
    pub fn run_exit_callbacks(&mut self) -> (outcomes: Vec<bool>)
        ensures
            outcomes@.len() == old(self)@.exit_callbacks.len(),
            each_ran_once(old(self)@.exit_callbacks, final(self)@.exit_callbacks),
            final(self)@ == (PagerView {
                exit_callbacks: final(self)@.exit_callbacks,
                ..old(self)@
            }),
    {
        run_callbacks(&mut self.exit_callbacks)
    }

    /// Runs the exit callbacks in the order in which they were registered,
    /// each one once, whether or not an earlier one failed. Returns the
    /// positions of the callbacks that failed, in ascending order.
    pub fn exit(&mut self) -> (failed: Vec<usize>)
        ensures
            each_ran_once(old(self)@.exit_callbacks, final(self)@.exit_callbacks),
            final(self)@ == (PagerView {
                exit_callbacks: final(self)@.exit_callbacks,
                ..old(self)@
            }),
            exists|outcomes: Seq<bool>|
                outcomes.len() == old(self)@.exit_callbacks.len() && failed@ == #[trigger] failures(
                    outcomes,
                ),
            increasing(failed@),
            forall|i: int| 0 <= i < failed.len() ==> failed[i] < old(self)@.exit_callbacks.len(),
    {
        let outcomes = self.run_exit_callbacks();
        proof {
            assert(outcomes@.len() == outcomes.len());
            lemma_failures(outcomes@);
        }
        failed_positions(&outcomes)
    }

    /// Returns how line numbers are shown.
    pub fn line_numbers(&self) -> (mode: LineNumbers)
        ensures
            mode == self@.line_numbers,
    {
        self.line_numbers
    }

    /// Returns what quitting does to the host program.
    pub fn exit_strategy(&self) -> (strategy: ExitStrategy)
        ensures
            strategy == self@.exit_strategy,
    {
        self.exit_strategy
    }

    /// Tells whether the end of the text was announced.
    pub fn is_stream_ended(&self) -> (ended: bool)
        ensures
            ended == self@.end_stream,
    {
        self.end_stream
    }

    /// Wraps the pager in a lock and a shared pointer, so that a producer of
    /// text and the event loop can hold it together. This calls `Mutex::new`
    /// of the `async-mutex` crate and `Arc::new`; nothing is claimed of the
    /// result.
    #[verifier::external_body]
    pub fn finish(self) -> (shared: PagerMutex) {
        std::sync::Arc::new(async_mutex::Mutex::new(self))
    }

    /// Returns the index of the first row on screen.
    pub fn upper_mark(&self) -> (mark: usize)
        ensures
            mark == self@.upper_mark,
    {
        self.upper_mark
    }

    /// Puts the first row on screen at `mark`. The next frame clamps it.
    pub fn set_upper_mark(&mut self, mark: usize)
        ensures
            final(self)@ == (PagerView { upper_mark: mark as nat, ..old(self)@ }),
    {
        self.upper_mark = mark;
    }

    /// Sets how line numbers are shown.
    pub fn set_line_numbers(&mut self, l: LineNumbers)
        ensures
            final(self)@ == (PagerView { line_numbers: l, ..old(self)@ }),
    {
        self.line_numbers = l;
    }

    /// Sets what quitting does to the host program.
    pub fn set_exit_strategy(&mut self, strategy: ExitStrategy)
        ensures
            final(self)@ == (PagerView { exit_strategy: strategy, ..old(self)@ }),
    {
        self.exit_strategy = strategy;
    }

    /// Sets whether text that fits on the screen is written out without
    /// paging.
    pub fn set_run_no_overflow(&mut self, value: bool)
        ensures
            final(self)@ == (PagerView { run_no_overflow: value, ..old(self)@ }),
    {
        self.run_no_overflow = value;
    }

    /// Records that no more text will come.
    pub fn end_data_stream(&mut self)
        ensures
            final(self)@ == (PagerView { end_stream: true, ..old(self)@ }),
    {
        self.end_stream = true;
    }
}

/// Appending a text in two pieces gives the same state as appending it
/// whole.
pub proof fn push_in_two_pieces(v: PagerView, a: Seq<char>, b: Seq<char>)
    ensures
        pushed(pushed(v, a), b) == pushed(v, a + b),
{
    lemma_contains_newline_concat(a, b);
    let first = v.pending + a;
    assert(first + b =~= v.pending + (a + b));
    lemma_split_feed(first, b);
    if a.contains('\n') {
        lemma_tail_has_no_newline(first);
        if b.contains('\n') {
            assert(wrapped_all(complete_lines(first + b), v.cols) =~= wrapped_all(
                complete_lines(first),
                v.cols,
            ) + wrapped_all(complete_lines(tail_of(first) + b), v.cols));
            assert(v.lines + wrapped_all(complete_lines(first + b), v.cols) =~= (v.lines
                + wrapped_all(complete_lines(first), v.cols)) + wrapped_all(
                complete_lines(tail_of(first) + b),
                v.cols,
            ));
        } else {
            lemma_contains_newline_concat(tail_of(first), b);
            lemma_no_newline(tail_of(first) + b);
            assert(complete_lines(first + b) =~= complete_lines(first));
        }
    }
}

/// Appending a text to a well-formed state leaves a well-formed state, adds
/// the wrapped rows of the lines that the text completes, and keeps what
/// follows the last line feed as the pending part.
pub proof fn push_keeps_every_line(v: PagerView, s: Seq<char>)
    requires
        v.wf(),
    ensures
        pushed(v, s).wf(),
        pushed(v, s).lines == v.lines + wrapped_all(complete_lines(v.pending + s), v.cols),
        pushed(v, s).pending == tail_of(v.pending + s),
        pushed(v, s).flattened() == v.flattened() + wrapped_all(
            complete_lines(v.pending + s),
            v.cols,
        ).flatten(),
{
    let text = v.pending + s;
    lemma_contains_newline_concat(v.pending, s);
    lemma_tail_has_no_newline(text);
    if !s.contains('\n') {
        lemma_no_newline(text);
        assert(v.lines + wrapped_all(complete_lines(text), v.cols) =~= v.lines);
    }
    lemma_flatten_concat(v.lines, wrapped_all(complete_lines(text), v.cols));
}

/// However a text is cut into pieces, appending the pieces in turn gives the
/// state that appending the whole text gives. From a well-formed state the
/// rows shown are then those of the wrapped lines that the text has
/// completed; only the unterminated tail is held back.
pub proof fn push_in_pieces(v: PagerView, chunks: Seq<Seq<char>>)
    requires
        v.wf(),
    ensures
        pushed_all(v, chunks) == pushed(v, chunks.flatten()),
        pushed_all(v, chunks).wf(),
        pushed_all(v, chunks).flattened() == v.flattened() + wrapped_all(
            complete_lines(v.pending + chunks.flatten()),
            v.cols,
        ).flatten(),
        pushed_all(v, chunks).pending == tail_of(v.pending + chunks.flatten()),
    decreases chunks.len(),
{
    if chunks.len() == 0 {
        assert(chunks.flatten() =~= Seq::<char>::empty());
        assert(v.pending + chunks.flatten() =~= v.pending);
        assert(pushed(v, chunks.flatten()) == v);
    } else {
        let front = chunks.drop_last();
        push_in_pieces(v, front);
        push_in_two_pieces(v, front.flatten(), chunks.last());
        lemma_flatten_push(front, chunks.last());
        assert(front.push(chunks.last()) =~= chunks);
    }
    push_keeps_every_line(v, chunks.flatten());
}

/// A new pager is well formed, and replacing the text, wrapping anew, a
/// resize and a new search pattern each leave a well-formed state well
/// formed.
pub proof fn text_changes_keep_well_formed(
    v: PagerView,
    text: Seq<char>,
    rows: nat,
    cols: nat,
    outcome: Result<regex::Regex, regex::Error>,
)
    requires
        v.wf(),
    ensures
        initial_view(rows, cols).wf(),
        with_text(v, text).wf(),
        readjusted(v).wf(),
        resized(v, rows, cols).wf(),
        pattern_applied(v, outcome).wf(),
{
    assert(initial_view(rows, cols).lines.flatten() =~= Seq::<Seq<char>>::empty());
}

/// Replacing the text discards what was there: whatever was appended
/// before, in whatever pieces, the state after the replacement is the same.
/// Replacing twice by the same text is replacing once.
pub proof fn set_text_discards_what_was_there(v: PagerView, before: Seq<char>, text: Seq<char>)
    ensures
        with_text(pushed(v, before), text) == with_text(v, text),
        with_text(with_text(v, text), text) == with_text(v, text),
        with_text(v, text).pending.len() == 0,
        with_text(v, text).lines == wrapped_all(lines_of(text), v.cols),
{
}

/// In a well-formed state the match index is ordered and lists exactly the
/// rows that the search term matches; without a search term it is empty.
pub proof fn match_index_lists_the_matching_rows(v: PagerView)
    requires
        v.wf(),
        v.flattened().len() <= usize::MAX,
    ensures
        increasing(v.search_idx),
        v.search_term is None ==> v.search_idx.len() == 0,
        forall|r: int|
            0 <= r < v.flattened().len() && v.search_term is Some ==> (row_matches(
                v.search_term->Some_0,
                #[trigger] v.flattened()[r],
            ) <==> v.search_idx.contains(r as usize)),
        forall|i: int| 0 <= i < v.search_idx.len() ==> #[trigger] v.search_idx[i] < v.flattened().len(),
{
    match v.search_term {
        Some(re) => {
            lemma_match_index(re, v.flattened());
        },
        None => {},
    }
}

/// A text that ends with a line feed, appended to an empty pager, gives the
/// lines that setting the same text gives.
pub proof fn push_of_finished_text_is_set_text(v: PagerView, text: Seq<char>)
    requires
        v.lines.len() == 0,
        v.pending.len() == 0,
        v.wf(),
        text.len() == 0 || text.last() == '\n',
    ensures
        pushed(v, text).lines == with_text(v, text).lines,
        pushed(v, text).pending.len() == 0,
        pushed(v, text).search_idx == with_text(v, text).search_idx,
{
    assert(v.pending + text =~= text);
    lemma_tail_has_no_newline(text);
    push_keeps_every_line(v, text);
    if text.len() == 0 {
        lemma_no_newline(text);
    }
    assert(v.lines + wrapped_all(complete_lines(text), v.cols) =~= wrapped_all(
        complete_lines(text),
        v.cols,
    ));
}

/// The error of the formatting traits of the standard library.
#[verifier::external_type_specification]
#[verifier::external_body]
pub struct ExFmtError(core::fmt::Error);

impl core::fmt::Write for Pager {
    /// Appends `string` to the text, as `push_str` does.
    fn write_str(&mut self, string: &str) -> (res: core::fmt::Result)
        ensures
            res is Ok,
            final(self)@ == pushed(old(self)@, string@),
    {
        self.push_str(string);
        Ok(())
    }
}

} // verus!
