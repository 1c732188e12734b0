use minus::input::{
    Command, DefaultInputHandler, InputClassifier, InputContext, JumpTarget, Key, KeyPress,
};
use minus::pager::{ExitCallback, RunCount, TerminalSize};
use minus::render::draw;
use minus::search::SearchMode;
use minus::error::TextError;
use minus::session::{step, update, Action, LoopState, Trigger, Update, UpdateError};
use minus::{ExitStrategy, LineNumbers, Pager};
use std::sync::{Arc, Mutex};

// A pager of four rows with twelve rows of text; rows 2, 5 and 9 hold "hit".
fn pager() -> Pager {
    let mut pager = Pager::new(TerminalSize::Known { cols: 80, rows: 4 }).unwrap();
    let text: Vec<String> = (0..12)
        .map(|i| {
            if i == 2 || i == 5 || i == 9 {
                format!("row {} hit", i)
            } else {
                format!("row {}", i)
            }
        })
        .collect();
    pager.set_text(&text.join("\n"));
    pager
}

fn key(key: Key) -> KeyPress {
    KeyPress { key, ctrl: false }
}

fn ctrl(key: Key) -> KeyPress {
    KeyPress { key, ctrl: true }
}

fn paging() -> InputContext {
    InputContext { visible_rows: 3, typing: false }
}

fn typing() -> InputContext {
    InputContext { visible_rows: 3, typing: true }
}

struct Counter {
    runs: Arc<Mutex<usize>>,
}

impl ExitCallback for Counter {
    // Ghost: never called when the program runs.
    fn runs(&self) -> RunCount {
        unreachable!()
    }

    fn on_exit(&mut self) -> bool {
        *self.runs.lock().unwrap() += 1;
        true
    }
}

// A classifier that quits on every key.
struct AlwaysQuit;

impl InputClassifier for AlwaysQuit {
    fn command(&self, _event: KeyPress, _context: InputContext) -> Command {
        Command::Quit
    }

    fn classify(&self, event: KeyPress, context: InputContext) -> Command {
        self.command(event, context)
    }
}

#[test]
fn default_keys_while_paging() {
    let h = DefaultInputHandler;
    assert_eq!(h.classify(key(Key::Char('q')), paging()), Command::Quit);
    assert_eq!(h.classify(ctrl(Key::Char('c')), paging()), Command::Quit);
    assert_eq!(h.classify(key(Key::Down), paging()), Command::ScrollBy(1));
    assert_eq!(h.classify(key(Key::Char('j')), paging()), Command::ScrollBy(1));
    assert_eq!(h.classify(key(Key::Up), paging()), Command::ScrollBy(-1));
    assert_eq!(h.classify(key(Key::Char('k')), paging()), Command::ScrollBy(-1));
    assert_eq!(h.classify(key(Key::PageDown), paging()), Command::ScrollBy(3));
    assert_eq!(h.classify(key(Key::Char(' ')), paging()), Command::ScrollBy(3));
    assert_eq!(h.classify(key(Key::PageUp), paging()), Command::ScrollBy(-3));
    assert_eq!(h.classify(key(Key::Home), paging()), Command::Jump(JumpTarget::Start));
    assert_eq!(h.classify(key(Key::Char('g')), paging()), Command::Jump(JumpTarget::Start));
    assert_eq!(h.classify(key(Key::End), paging()), Command::Jump(JumpTarget::End));
    assert_eq!(h.classify(key(Key::Char('G')), paging()), Command::Jump(JumpTarget::End));
    assert_eq!(h.classify(ctrl(Key::Char('l')), paging()), Command::ToggleLineNumbers);
    assert_eq!(
        h.classify(key(Key::Char('/')), paging()),
        Command::EnterSearch(SearchMode::Forward)
    );
    assert_eq!(
        h.classify(key(Key::Char('?')), paging()),
        Command::EnterSearch(SearchMode::Reverse)
    );
    assert_eq!(h.classify(key(Key::Char('n')), paging()), Command::NextMatch);
    assert_eq!(h.classify(key(Key::Char('p')), paging()), Command::PrevMatch);
    assert_eq!(h.classify(key(Key::Char('x')), paging()), Command::NoOp);
    assert_eq!(h.classify(ctrl(Key::Char('q')), paging()), Command::NoOp);
    assert_eq!(h.classify(key(Key::Enter), paging()), Command::NoOp);
    assert_eq!(h.classify(key(Key::Other), paging()), Command::NoOp);
    assert_eq!(h.classify(ctrl(Key::Down), paging()), Command::NoOp);
}

#[test]
fn a_page_is_cut_off_at_the_largest_scroll_distance() {
    let huge = InputContext { visible_rows: usize::MAX, typing: false };
    assert_eq!(
        DefaultInputHandler::command_for(key(Key::PageDown), huge),
        Command::ScrollBy(isize::MAX)
    );
    assert_eq!(
        DefaultInputHandler::command_for(key(Key::PageUp), huge),
        Command::ScrollBy(-isize::MAX)
    );
}

#[test]
fn default_keys_while_typing_a_pattern() {
    let h = DefaultInputHandler;
    assert_eq!(h.classify(key(Key::Char('q')), typing()), Command::SearchInput('q'));
    assert_eq!(h.classify(key(Key::Char('/')), typing()), Command::SearchInput('/'));
    assert_eq!(h.classify(key(Key::Enter), typing()), Command::ConfirmSearch);
    assert_eq!(h.classify(ctrl(Key::Char('c')), typing()), Command::NoOp);
    assert_eq!(h.classify(key(Key::Down), typing()), Command::NoOp);
    assert_eq!(h.classify(key(Key::Esc), typing()), Command::NoOp);
}

#[test]
fn the_pager_asks_its_classifier() {
    let mut pager = pager();
    assert_eq!(pager.classify(key(Key::PageDown)), Command::ScrollBy(3));
    assert_eq!(pager.classify(key(Key::Char('x'))), Command::NoOp);
    pager.apply_command(Command::EnterSearch(SearchMode::Forward));
    assert_eq!(pager.classify(key(Key::Char('x'))), Command::SearchInput('x'));

    pager.set_input_handler(Box::new(AlwaysQuit));
    assert_eq!(pager.classify(key(Key::Char('x'))), Command::Quit);
    assert_eq!(pager.upper_mark(), 0);
    assert_eq!(pager.num_lines(), 12);
}

#[test]
fn scroll_commands_move_and_clamp() {
    let mut pager = pager();
    pager.apply_command(Command::ScrollBy(1));
    assert_eq!(pager.upper_mark(), 1);
    pager.apply_command(Command::ScrollBy(3));
    assert_eq!(pager.upper_mark(), 4);
    pager.apply_command(Command::ScrollBy(100));
    assert_eq!(pager.upper_mark(), 9);
    pager.apply_command(Command::ScrollBy(-2));
    assert_eq!(pager.upper_mark(), 7);
    pager.apply_command(Command::ScrollBy(-100));
    assert_eq!(pager.upper_mark(), 0);
    pager.apply_command(Command::Jump(JumpTarget::End));
    assert_eq!(pager.upper_mark(), 9);
    pager.apply_command(Command::Jump(JumpTarget::Start));
    assert_eq!(pager.upper_mark(), 0);
    pager.apply_command(Command::NoOp);
    pager.apply_command(Command::Quit);
    assert_eq!(pager.upper_mark(), 0);
}

#[test]
fn the_toggle_command_respects_locked_modes() {
    let mut pager = pager();
    pager.apply_command(Command::ToggleLineNumbers);
    assert_eq!(pager.line_numbers(), LineNumbers::Enabled);
    pager.apply_command(Command::ToggleLineNumbers);
    assert_eq!(pager.line_numbers(), LineNumbers::Disabled);
    pager.set_line_numbers(LineNumbers::AlwaysOn);
    pager.apply_command(Command::ToggleLineNumbers);
    assert_eq!(pager.line_numbers(), LineNumbers::AlwaysOn);
    pager.set_line_numbers(LineNumbers::AlwaysOff);
    pager.apply_command(Command::ToggleLineNumbers);
    assert_eq!(pager.line_numbers(), LineNumbers::AlwaysOff);
}

#[test]
fn typing_a_pattern_and_confirming_it_searches() {
    let mut pager = pager();
    pager.apply_command(Command::EnterSearch(SearchMode::Forward));
    assert_eq!(pager.search_mode(), SearchMode::Forward);
    for c in "hit".chars() {
        pager.apply_command(Command::SearchInput(c));
    }
    pager.apply_command(Command::ConfirmSearch);
    assert_eq!(pager.upper_mark(), 2);
    pager.apply_command(Command::NextMatch);
    assert_eq!(pager.upper_mark(), 5);
    pager.apply_command(Command::PrevMatch);
    assert_eq!(pager.upper_mark(), 2);
    // Typing has ended: further characters are not taken.
    pager.apply_command(Command::SearchInput('x'));
    pager.apply_command(Command::ConfirmSearch);
    assert_eq!(pager.upper_mark(), 2);
    assert!(draw(&mut pager).ends_with("\x1b[7mminus\x1b[0m"));
}

#[test]
fn a_backward_search_moves_to_the_match_before() {
    let mut pager = pager();
    pager.set_upper_mark(7);
    pager.apply_command(Command::EnterSearch(SearchMode::Reverse));
    for c in "hit".chars() {
        pager.apply_command(Command::SearchInput(c));
    }
    pager.apply_command(Command::ConfirmSearch);
    assert_eq!(pager.search_mode(), SearchMode::Reverse);
    assert_eq!(pager.upper_mark(), 5);
}

#[test]
fn a_refused_pattern_is_told_in_the_message() {
    let mut pager = pager();
    pager.set_pattern("hit", false).unwrap();
    pager.apply_command(Command::EnterSearch(SearchMode::Forward));
    pager.apply_command(Command::SearchInput('('));
    pager.apply_command(Command::ConfirmSearch);
    assert_eq!(pager.upper_mark(), 0);
    assert!(draw(&mut pager).ends_with("\x1b[7mInvalid search pattern\x1b[0m"));
    // The earlier pattern is still the search term.
    pager.apply_command(Command::NextMatch);
    assert_eq!(pager.upper_mark(), 2);
}

#[test]
fn a_search_without_matches_is_told_in_the_message() {
    let mut pager = pager();
    pager.set_upper_mark(4);
    pager.apply_command(Command::NextMatch);
    assert_eq!(pager.upper_mark(), 4);
    assert!(draw(&mut pager).ends_with("\x1b[7mNo matches\x1b[0m"));

    pager.apply_command(Command::EnterSearch(SearchMode::Forward));
    for c in "absent".chars() {
        pager.apply_command(Command::SearchInput(c));
    }
    pager.apply_command(Command::ConfirmSearch);
    assert_eq!(pager.upper_mark(), 4);
    assert!(draw(&mut pager).ends_with("\x1b[7mNo matches\x1b[0m"));
}

#[test]
fn data_input_and_resize_ask_for_a_frame() {
    let mut pager = pager();
    let out = step(&mut pager, LoopState::Idle, Trigger::DataAvailable);
    assert_eq!((out.state, out.action), (LoopState::Rendering, Action::Render));
    assert!(out.failed_callbacks.is_empty());

    let out = step(&mut pager, LoopState::Rendering, Trigger::Rendered);
    assert_eq!((out.state, out.action), (LoopState::Idle, Action::Wait));

    let out = step(&mut pager, LoopState::Idle, Trigger::Input(Command::ScrollBy(2)));
    assert_eq!((out.state, out.action), (LoopState::Rendering, Action::Render));
    assert_eq!(pager.upper_mark(), 2);

    // New data may arrive while a frame is written.
    let out = step(&mut pager, LoopState::Rendering, Trigger::DataAvailable);
    assert_eq!((out.state, out.action), (LoopState::Rendering, Action::Render));

    pager.set_upper_mark(9);
    let out = step(&mut pager, LoopState::Idle, Trigger::Resize { rows: 9, cols: 80 });
    assert_eq!((out.state, out.action), (LoopState::Rendering, Action::Render));
    assert_eq!(pager.upper_mark(), 4);
}

#[test]
fn every_way_out_runs_the_exit_callbacks_once() {
    for (trigger, strategy, quits) in [
        (Trigger::Input(Command::Quit), ExitStrategy::ProcessQuit, true),
        (Trigger::Input(Command::Quit), ExitStrategy::PagerQuit, false),
        (Trigger::Cancel, ExitStrategy::ProcessQuit, false),
        (Trigger::RenderFailed, ExitStrategy::ProcessQuit, false),
    ] {
        for state in [LoopState::Idle, LoopState::Rendering] {
            let runs = Arc::new(Mutex::new(0));
            let mut pager = pager();
            pager.set_exit_strategy(strategy);
            pager.add_exit_callback(Box::new(Counter { runs: runs.clone() }));

            let out = step(&mut pager, state, trigger);
            assert_eq!(out.state, LoopState::Terminated);
            assert_eq!(out.action, Action::Teardown { quit_process: quits });
            assert!(out.failed_callbacks.is_empty());
            assert_eq!(*runs.lock().unwrap(), 1);

            // Nothing that arrives later runs them again or changes the pager.
            for later in [
                trigger,
                Trigger::Cancel,
                Trigger::DataAvailable,
                Trigger::Input(Command::ScrollBy(1)),
                Trigger::Resize { rows: 2, cols: 2 },
                Trigger::Rendered,
            ] {
                let out = step(&mut pager, out.state, later);
                assert_eq!((out.state, out.action), (LoopState::Terminated, Action::Wait));
            }
            assert_eq!(*runs.lock().unwrap(), 1);
            assert_eq!(pager.upper_mark(), 0);
            assert_eq!(pager.num_lines(), 12);
        }
    }
}

#[test]
fn a_session_under_way_takes_updates() {
    let mut pager = Pager::new(TerminalSize::Known { cols: 80, rows: 4 }).unwrap();
    for state in [LoopState::Idle, LoopState::Rendering] {
        assert_eq!(update(&mut pager, state, Update::ReplaceText("one\ntwo")), Ok(()));
        assert_eq!(update(&mut pager, state, Update::AppendText("three\n")), Ok(()));
        assert_eq!(pager.get_flattened_lines(), vec!["one", "two", "three"]);
        assert_eq!(update(&mut pager, state, Update::Prompt("prompt")), Ok(()));
        assert_eq!(update(&mut pager, state, Update::Message("message")), Ok(()));
        assert!(draw(&mut pager).ends_with("\x1b[7mmessage\x1b[0m"));
        assert!(draw(&mut pager).ends_with("\x1b[7mprompt\x1b[0m"));
        assert_eq!(
            update(&mut pager, state, Update::LineNumbers(LineNumbers::AlwaysOn)),
            Ok(())
        );
        assert_eq!(pager.line_numbers(), LineNumbers::AlwaysOn);
        assert_eq!(
            update(&mut pager, state, Update::ExitStrategy(ExitStrategy::PagerQuit)),
            Ok(())
        );
        assert_eq!(pager.exit_strategy(), ExitStrategy::PagerQuit);
        assert_eq!(update(&mut pager, state, Update::RunNoOverflow(true)), Ok(()));
        assert_eq!(draw(&mut pager), "\r 1. one\n\r 2. two\n\r 3. three\n");
        assert_eq!(update(&mut pager, state, Update::RunNoOverflow(false)), Ok(()));
        assert_eq!(update(&mut pager, state, Update::EndOfStream), Ok(()));
        assert!(pager.is_stream_ended());
        assert_eq!(
            update(&mut pager, state, Update::LineNumbers(LineNumbers::Disabled)),
            Ok(())
        );
    }
}

#[test]
fn a_text_with_a_line_feed_is_refused_for_the_last_row() {
    let mut pager = pager();
    assert_eq!(update(&mut pager, LoopState::Idle, Update::Prompt("kept")), Ok(()));
    assert_eq!(
        update(&mut pager, LoopState::Idle, Update::Prompt("a\nb")),
        Err(UpdateError::Text(TextError::InvalidPromptText))
    );
    assert_eq!(
        update(&mut pager, LoopState::Idle, Update::Message("a\nb")),
        Err(UpdateError::Text(TextError::InvalidMessageText))
    );
    assert!(draw(&mut pager).ends_with("\x1b[7mkept\x1b[0m"));
}

#[test]
fn a_session_that_has_ended_refuses_every_update() {
    let mut pager = pager();
    pager.set_prompt("kept").unwrap();
    for change in [
        Update::AppendText("more\n"),
        Update::ReplaceText("other"),
        Update::Prompt("new prompt"),
        Update::Prompt("a\nb"),
        Update::Message("message"),
        Update::LineNumbers(LineNumbers::AlwaysOn),
        Update::ExitStrategy(ExitStrategy::PagerQuit),
        Update::RunNoOverflow(true),
        Update::EndOfStream,
    ] {
        assert_eq!(
            update(&mut pager, LoopState::Terminated, change),
            Err(UpdateError::SessionEnded)
        );
    }
    assert_eq!(pager.num_lines(), 12);
    assert_eq!(pager.line_numbers(), LineNumbers::Disabled);
    assert_eq!(pager.exit_strategy(), ExitStrategy::ProcessQuit);
    assert!(!pager.is_stream_ended());
    assert!(draw(&mut pager).ends_with("\x1b[7mkept\x1b[0m"));
}
