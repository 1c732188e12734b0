//! The event loop's decisions.
//!
//! The loop itself waits for data, input and resizes and writes frames; that
//! is the host's part. What it does to the pager on each of those, which
//! state it is in afterwards and what it performs next is decided here.

use crate::error::TextError;
use crate::input::{Command, JumpTarget};
use crate::line_numbers::LineNumbers;
use crate::pager::{
    each_ran_once, failures, moved_to, pattern_applied, pushed, resized, with_message,
    with_text, ExitStrategy, Pager, PagerView,
};
use crate::wrap::wrapped;
use crate::search::{compile, compiled, increasing, next_after, prev_before, SearchMode};
use crate::viewport::{clamp, max_upper, scroll, scrolled, visible, visible_rows};
use vstd::prelude::*;

verus! {

/// Where the event loop stands.
#[derive(Debug, PartialEq, Eq, Structural, Copy, Clone)]
pub enum LoopState {
    /// Waiting for something to happen.
    Idle,
    /// A frame is being written.
    Rendering,
    /// The session has ended.
    Terminated,
}

/// What woke the event loop.
#[derive(Debug, PartialEq, Eq, Structural, Copy, Clone)]
pub enum Trigger {
    /// The producer changed the text or announced its end.
    DataAvailable,
    /// The terminal has a new size.
    Resize { rows: usize, cols: usize },
    /// A key press, classified.
    Input(Command),
    /// The frame was written.
    Rendered,
    /// Writing the frame failed.
    RenderFailed,
    /// The host ends the session.
    Cancel,
}

/// What the event loop performs next.
#[derive(Debug, PartialEq, Eq, Structural, Copy, Clone)]
pub enum Action {
    /// Wait for the next trigger.
    Wait,
    /// Draw a frame and write it.
    Render,
    /// Give the terminal back. With `quit_process` the host process ends
    /// after that.
    Teardown { quit_process: bool },
}

/// A change to the pager that the producer of the text asks for.
pub enum Update<'a> {
    /// Append this text.
    AppendText(&'a str),
    /// Replace the text by this one.
    ReplaceText(&'a str),
    /// Set the prompt.
    Prompt(&'a str),
    /// Show a message.
    Message(&'a str),
    /// Set how line numbers are shown.
    LineNumbers(LineNumbers),
    /// Set what quitting does to the host program.
    ExitStrategy(ExitStrategy),
    /// Set whether text that fits is written out without paging.
    RunNoOverflow(bool),
    /// Announce that no more text will come.
    EndOfStream,
}

/// Why an update was refused.
#[derive(Debug, PartialEq, Eq, Structural, Copy, Clone)]
pub enum UpdateError {
    /// The session has ended.
    SessionEnded,
    /// The text for the last row holds a line feed.
    Text(TextError),
}

/// The outcome of one step of the event loop.
pub struct Step {
    /// The state of the loop after the step.
    pub state: LoopState,
    /// What the loop performs next.
    pub action: Action,
    /// The positions of the exit callbacks that failed, when the step ran
    /// them.
    pub failed_callbacks: Vec<usize>,
}

/// The message for a pattern that does not compile.
pub open spec fn invalid_pattern_text() -> Seq<char> {
    "Invalid search pattern"@
}

/// The message for a search without matches.
pub open spec fn no_matches_text() -> Seq<char> {
    "No matches"@
}

/// The match that a step in the direction `mode` from row `pos` leads to.
pub open spec fn step_target(idx: Seq<usize>, pos: nat, mode: SearchMode) -> Option<usize> {
    if mode == SearchMode::Reverse {
        prev_before(idx, pos)
    } else {
        next_after(idx, pos)
    }
}

/// The state after a step to `target`; without a target the message tells
/// that nothing matches.
pub open spec fn navigated(v: PagerView, target: Option<usize>) -> PagerView {
    match target {
        Some(_) => moved_to(v, target),
        None => with_message(v, no_matches_text()),
    }
}

/// The state after the typed pattern is confirmed and `outcome` is what
/// compiling it gave. Typing ends. A pattern that compiled becomes the
/// search term and the viewport moves to the nearest match in the search
/// direction; a message tells of a refused pattern and of a search without
/// matches. When no pattern was being typed nothing changes.
pub open spec fn confirmed(
    v: PagerView,
    outcome: Result<regex::Regex, regex::Error>,
) -> PagerView {
    if v.typing is None {
        v
    } else {
        let done = PagerView { typing: None, ..v };
        match outcome {
            Ok(_) => {
                let found = pattern_applied(done, outcome);
                navigated(found, step_target(found.search_idx, found.upper_mark, found.search_mode))
            },
            Err(_) => with_message(done, invalid_pattern_text()),
        }
    }
}

/// The state after `command` is applied.
pub open spec fn applied(v: PagerView, command: Command) -> PagerView {
    let total = v.flattened().len();
    let visible = visible_rows(v.rows);
    match command {
        Command::ScrollBy(delta) => PagerView {
            upper_mark: scrolled(v.upper_mark, delta as int, total, visible),
            ..v
        },
        Command::Jump(JumpTarget::Start) => PagerView { upper_mark: 0, ..v },
        Command::Jump(JumpTarget::End) => PagerView {
            upper_mark: max_upper(total, visible),
            ..v
        },
        Command::EnterSearch(mode) => PagerView {
            search_mode: mode,
            typing: Some(Seq::empty()),
            ..v
        },
        Command::SearchInput(c) => match v.typing {
            Some(text) => PagerView { typing: Some(text.push(c)), ..v },
            None => v,
        },
        Command::NextMatch => navigated(v, next_after(v.search_idx, v.upper_mark)),
        Command::PrevMatch => navigated(v, prev_before(v.search_idx, v.upper_mark)),
        Command::ToggleLineNumbers => PagerView { line_numbers: v.line_numbers.toggled(), ..v },
        Command::ConfirmSearch => match v.typing {
            Some(text) => confirmed(v, compiled(text, false)),
            None => v,
        },
        Command::Quit => v,
        Command::NoOp => v,
    }
}

/// Whether `trigger` ends the session: a quit command, the host's
/// cancellation, or a frame that could not be written.
pub open spec fn ends_session(trigger: Trigger) -> bool {
    trigger == Trigger::Input(Command::Quit) || trigger == Trigger::Cancel || trigger
        == Trigger::RenderFailed
}

/// The state of the loop after `trigger` arrives in `state`.
pub open spec fn next_state(state: LoopState, trigger: Trigger) -> LoopState {
    if state == LoopState::Terminated || ends_session(trigger) {
        LoopState::Terminated
    } else if trigger == Trigger::Rendered {
        LoopState::Idle
    } else {
        LoopState::Rendering
    }
}

/// What the loop performs after `trigger` arrives in `state`, for a pager
/// with the exit strategy `strategy`. Only a quit command takes the host
/// process along, and only under the strategy that says so.
pub open spec fn next_action(state: LoopState, trigger: Trigger, strategy: ExitStrategy) -> Action {
    if state == LoopState::Terminated {
        Action::Wait
    } else if ends_session(trigger) {
        Action::Teardown {
            quit_process: trigger == Trigger::Input(Command::Quit) && strategy
                == ExitStrategy::ProcessQuit,
        }
    } else if trigger == Trigger::Rendered {
        Action::Wait
    } else {
        Action::Render
    }
}

/// Whether the session ends with this step: it is under way and `trigger`
/// ends it.
pub open spec fn ends_now(state: LoopState, trigger: Trigger) -> bool {
    state != LoopState::Terminated && ends_session(trigger)
}

/// The pager's state after `trigger` arrives in `state`, but for the exit
/// callbacks. A session that has ended takes nothing more. A resize wraps
/// the text anew and clamps the viewport; a command is applied; new data,
/// a written frame and the end of the session change nothing here.
pub open spec fn stepped(v: PagerView, state: LoopState, trigger: Trigger) -> PagerView {
    if state == LoopState::Terminated || ends_session(trigger) {
        v
    } else {
        match trigger {
            Trigger::Resize { rows, cols } => resized(v, rows as nat, cols as nat),
            Trigger::Input(command) => applied(v, command),
            _ => v,
        }
    }
}

/// Whether `after` is the pager's state after `trigger` arrived in `state`
/// with the pager in the state `before`. The step that ends the session
/// runs every exit callback once; every other step leaves the callbacks as
/// they are.
pub open spec fn step_holds(
    before: PagerView,
    after: PagerView,
    state: LoopState,
    trigger: Trigger,
) -> bool {
    &&& after == (PagerView {
        exit_callbacks: after.exit_callbacks,
        ..stepped(before, state, trigger)
    })
    &&& if ends_now(state, trigger) {
        each_ran_once(before.exit_callbacks, after.exit_callbacks)
    } else {
        after.exit_callbacks == before.exit_callbacks
    }
}

/// Whether `update` is refused for its text: a prompt or a message with a
/// line feed.
pub open spec fn refused_text(update: Update) -> Option<TextError> {
    match update {
        Update::Prompt(text) => if text@.contains('\n') {
            Some(TextError::InvalidPromptText)
        } else {
            None
        },
        Update::Message(text) => if text@.contains('\n') {
            Some(TextError::InvalidMessageText)
        } else {
            None
        },
        _ => None,
    }
}

/// The state after `update` is carried out.
pub open spec fn updated(v: PagerView, update: Update) -> PagerView {
    match update {
        Update::AppendText(text) => pushed(v, text@),
        Update::ReplaceText(text) => with_text(v, text@),
        Update::Prompt(text) => PagerView { prompt: wrapped(text@, v.cols), ..v },
        Update::Message(text) => with_message(v, text@),
        Update::LineNumbers(mode) => PagerView { line_numbers: mode, ..v },
        Update::ExitStrategy(strategy) => PagerView { exit_strategy: strategy, ..v },
        Update::RunNoOverflow(value) => PagerView { run_no_overflow: value, ..v },
        Update::EndOfStream => PagerView { end_stream: true, ..v },
    }
}

/// What an update returns in the loop state `state`: a session that has
/// ended refuses every update, a session under way only a text for the last
/// row that holds a line feed.
pub open spec fn update_outcome(state: LoopState, update: Update) -> Result<(), UpdateError> {
    if state == LoopState::Terminated {
        Err(UpdateError::SessionEnded)
    } else {
        match refused_text(update) {
            Some(e) => Err(UpdateError::Text(e)),
            None => Ok(()),
        }
    }
}

/// Carries out what the producer asks for while the loop is in `state`. A
/// refused update is reported and changes nothing.
pub fn update(pager: &mut Pager, state: LoopState, change: Update) -> (res: Result<
    (),
    UpdateError,
>)
    ensures
        res == update_outcome(state, change),
        final(pager)@ == if res is Ok {
            updated(old(pager)@, change)
        } else {
            old(pager)@
        },
{
    if state == LoopState::Terminated {
        return Err(UpdateError::SessionEnded);
    }
    match change {
        Update::Prompt(text) => match pager.set_prompt(text) {
            Ok(()) => Ok(()),
            Err(e) => Err(UpdateError::Text(e)),
        },
        Update::Message(text) => match pager.send_message(text) {
            Ok(()) => Ok(()),
            Err(e) => Err(UpdateError::Text(e)),
        },
        other => {
            carry_out(pager, other);
            Ok(())
        },
    }
}

/// Carries out an update that cannot be refused for its text.
fn carry_out(pager: &mut Pager, change: Update)
    requires
        !(change is Prompt),
        !(change is Message),
    ensures
        final(pager)@ == updated(old(pager)@, change),
{
    match change {
        Update::AppendText(text) => {
            pager.push_str(text);
        },
        Update::ReplaceText(text) => {
            pager.set_text(text);
        },
        Update::LineNumbers(mode) => {
            pager.set_line_numbers(mode);
        },
        Update::ExitStrategy(strategy) => {
            pager.set_exit_strategy(strategy);
        },
        Update::RunNoOverflow(value) => {
            pager.set_run_no_overflow(value);
        },
        Update::EndOfStream => {
            pager.end_data_stream();
        },
        _ => {},
    }
}

impl Pager {
    /// Moves the viewport one match on in the direction `mode`, or tells in
    /// the message that nothing matches.
    fn navigate(&mut self, mode: SearchMode)
        ensures
            final(self)@ == navigated(
                old(self)@,
                step_target(old(self)@.search_idx, old(self)@.upper_mark, mode),
            ),
    {
        let moved = if mode == SearchMode::Reverse {
            self.prev_match()
        } else {
            self.next_match()
        };
        if moved.is_err() {
            self.show_message("No matches");
        }
    }

    /// Ends the typing of a search pattern with `outcome`, the result of
    /// compiling what was typed.
    pub fn confirm_search(&mut self, outcome: Result<regex::Regex, regex::Error>)
        ensures
            final(self)@ == confirmed(old(self)@, outcome),
    {
        if self.typing.is_none() {
            return ;
        }
        self.typing = None;
        match self.apply_pattern(outcome) {
            Ok(()) => {
                let mode = self.search_mode;
                self.navigate(mode);
            },
            Err(_) => {
                self.show_message("Invalid search pattern");
            },
        }
    }

    /// Applies `command` to the pager.
    pub fn apply_command(&mut self, command: Command)
        ensures
            final(self)@ == applied(old(self)@, command),
    {
        match command {
            Command::ScrollBy(delta) => {
                let total = self.num_lines();
                self.upper_mark = scroll(self.upper_mark, delta, total, visible(self.rows));
            },
            Command::Jump(JumpTarget::Start) => {
                self.upper_mark = 0;
            },
            Command::Jump(JumpTarget::End) => {
                let total = self.num_lines();
                self.upper_mark = clamp(usize::MAX, total, visible(self.rows));
            },
            Command::EnterSearch(mode) => {
                self.search_mode = mode;
                self.typing = Some(String::new());
            },
            Command::SearchInput(c) => {
                match &mut self.typing {
                    Some(text) => {
                        text.push(c);
                    },
                    None => {},
                }
            },
            Command::ConfirmSearch => {
                let outcome = match &self.typing {
                    Some(text) => Some(compile(text.as_str(), false)),
                    None => None,
                };
                match outcome {
                    Some(outcome) => {
                        self.confirm_search(outcome);
                    },
                    None => {},
                }
            },
            Command::NextMatch => {
                self.navigate(SearchMode::Forward);
            },
            Command::PrevMatch => {
                self.navigate(SearchMode::Reverse);
            },
            Command::ToggleLineNumbers => {
                self.line_numbers = self.line_numbers.toggle();
            },
            Command::Quit => {},
            Command::NoOp => {},
        }
    }
}

/// Takes one step of the event loop: `trigger` arrived while the loop was in
/// `state`. Changes the pager as the trigger asks and returns the state
/// of the loop afterwards and what it performs next.
pub fn step(pager: &mut Pager, state: LoopState, trigger: Trigger) -> (out: Step)
    ensures
        step_holds(old(pager)@, final(pager)@, state, trigger),
        out.state == next_state(state, trigger),
        out.action == next_action(state, trigger, old(pager)@.exit_strategy),
        ends_now(state, trigger) ==> exists|outcomes: Seq<bool>|
            outcomes.len() == old(pager)@.exit_callbacks.len() && out.failed_callbacks@
                == #[trigger] failures(outcomes),
        !ends_now(state, trigger) ==> out.failed_callbacks.len() == 0,
{
    if state == LoopState::Terminated {
        return Step { state: LoopState::Terminated, action: Action::Wait, failed_callbacks: Vec::new() };
    }
    match trigger {
        Trigger::Input(Command::Quit) => {
            let quit_process = pager.exit_strategy() == ExitStrategy::ProcessQuit;
            let failed = pager.exit();
            Step {
                state: LoopState::Terminated,
                action: Action::Teardown { quit_process },
                failed_callbacks: failed,
            }
        },
        Trigger::Cancel | Trigger::RenderFailed => {
            let failed = pager.exit();
            Step {
                state: LoopState::Terminated,
                action: Action::Teardown { quit_process: false },
                failed_callbacks: failed,
            }
        },
        Trigger::Rendered => Step {
            state: LoopState::Idle,
            action: Action::Wait,
            failed_callbacks: Vec::new(),
        },
        Trigger::DataAvailable => Step {
            state: LoopState::Rendering,
            action: Action::Render,
            failed_callbacks: Vec::new(),
        },
        Trigger::Resize { rows, cols } => {
            pager.resize(rows, cols);
            Step { state: LoopState::Rendering, action: Action::Render, failed_callbacks: Vec::new() }
        },
        Trigger::Input(command) => {
            pager.apply_command(command);
            Step { state: LoopState::Rendering, action: Action::Render, failed_callbacks: Vec::new() }
        },
    }
}

/// Whatever arrives, a well-formed state stays well formed: the pending
/// part never holds a line feed, and the match index is always the one of
/// the text and the search term as they are.
pub proof fn every_step_keeps_well_formed(
    before: PagerView,
    after: PagerView,
    state: LoopState,
    trigger: Trigger,
)
    requires
        before.wf(),
        step_holds(before, after, state, trigger),
    ensures
        after.wf(),
{
    if state != LoopState::Terminated && !ends_session(trigger) {
        match trigger {
            Trigger::Input(command) => {
                every_command_keeps_well_formed(before, command);
            },
            _ => {},
        }
    }
}

/// Every command leaves a well-formed state well formed.
pub proof fn every_command_keeps_well_formed(v: PagerView, command: Command)
    requires
        v.wf(),
    ensures
        applied(v, command).wf(),
{
}

/// Every way out of a session runs the exit callbacks, and runs them once.
/// From a session that is under way, a quit command, a cancellation and a
/// failed frame each lead to the terminated state with a teardown, and with
/// every registered callback run once more, in its place. No other trigger
/// ends the session or touches a callback. A terminated session stays
/// terminated whatever arrives, performs nothing more, runs no callback and
/// leaves the pager as it is.
pub proof fn session_ends_once(
    before: PagerView,
    after: PagerView,
    state: LoopState,
    trigger: Trigger,
)
    requires
        step_holds(before, after, state, trigger),
    ensures
        state != LoopState::Terminated && ends_session(trigger) ==> {
            &&& next_state(state, trigger) == LoopState::Terminated
            &&& next_action(state, trigger, before.exit_strategy) is Teardown
            &&& each_ran_once(before.exit_callbacks, after.exit_callbacks)
        },
        state != LoopState::Terminated && !ends_session(trigger) ==> {
            &&& next_state(state, trigger) != LoopState::Terminated
            &&& !(next_action(state, trigger, before.exit_strategy) is Teardown)
            &&& after.exit_callbacks == before.exit_callbacks
        },
        state == LoopState::Terminated ==> {
            &&& next_state(state, trigger) == LoopState::Terminated
            &&& next_action(state, trigger, before.exit_strategy) == Action::Wait
            &&& after == before
        },
{
    if state != LoopState::Terminated && !ends_session(trigger) {
        match trigger {
            Trigger::Input(command) => {
                assert(applied(before, command).exit_callbacks == before.exit_callbacks);
            },
            _ => {},
        }
    }
}

} // verus!
