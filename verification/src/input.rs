//! From key presses to commands.
//!
//! A classifier maps a key press, together with a little of the pager's
//! state, to the command that the event loop applies. Hosts may supply their
//! own classifier; `DefaultInputHandler` is the one a new pager has.

use crate::search::SearchMode;
use vstd::prelude::*;

verus! {

/// A key of the keyboard.
#[derive(Debug, PartialEq, Eq, Structural, Copy, Clone)]
pub enum Key {
    /// A key that types the character.
    Char(char),
    Up,
    Down,
    PageUp,
    PageDown,
    Home,
    End,
    Enter,
    Esc,
    Backspace,
    /// Any other key.
    Other,
}

/// A key press: the key, and whether the control key was held down.
#[derive(Debug, PartialEq, Eq, Structural, Copy, Clone)]
pub struct KeyPress {
    pub key: Key,
    pub ctrl: bool,
}

/// An end of the document.
#[derive(Debug, PartialEq, Eq, Structural, Copy, Clone)]
pub enum JumpTarget {
    Start,
    End,
}

/// What the event loop is asked to do.
#[derive(Debug, PartialEq, Eq, Structural, Copy, Clone)]
pub enum Command {
    /// Scroll by this many rows, down when positive.
    ScrollBy(isize),
    /// Show one end of the document.
    Jump(JumpTarget),
    /// Start typing a search pattern for a search in this direction.
    EnterSearch(SearchMode),
    /// Add this character to the pattern that is being typed.
    SearchInput(char),
    /// Search for the pattern that was typed.
    ConfirmSearch,
    /// Move to the next match.
    NextMatch,
    /// Move to the previous match.
    PrevMatch,
    /// Switch line numbers on or off.
    ToggleLineNumbers,
    /// End the session.
    Quit,
    /// Do nothing.
    NoOp,
}

/// What a classifier is told of the pager's state.
#[derive(Debug, PartialEq, Eq, Structural, Copy, Clone)]
pub struct InputContext {
    /// The number of text rows on screen.
    pub visible_rows: usize,
    /// Whether a search pattern is being typed.
    pub typing: bool,
}

/// Maps key presses to commands. A classifier is a pure mapping: `command`
/// says which command it gives, and `classify` returns that command.
pub trait InputClassifier: Send + Sync {
    /// The command that this classifier gives the key press `event` in the
    /// state that `context` describes.
    spec fn command(&self, event: KeyPress, context: InputContext) -> Command;

    /// Returns the command for the key press `event` in the state that
    /// `context` describes.
    fn classify(&self, event: KeyPress, context: InputContext) -> (command: Command)
        ensures
            command == self.command(event, context),
    ;
}

/// A classifier that the host put in place of the default key bindings.
pub struct Installed {
    pub classifier: Box<dyn InputClassifier>,
}

/// The classifier of a new pager.
pub struct DefaultInputHandler;

/// A page: as many rows as the screen shows, as a scroll distance.
pub open spec fn page(visible_rows: usize) -> isize {
    if visible_rows <= isize::MAX {
        visible_rows as isize
    } else {
        isize::MAX
    }
}

/// The command of the default classifier while a search pattern is typed:
/// Enter confirms, a character key adds its character, every other key does
/// nothing.
pub open spec fn typing_command(event: KeyPress) -> Command {
    match event.key {
        Key::Enter => Command::ConfirmSearch,
        Key::Char(c) => if event.ctrl {
            Command::NoOp
        } else {
            Command::SearchInput(c)
        },
        _ => Command::NoOp,
    }
}

/// The command of the default classifier while no pattern is typed.
///
/// `q` and Ctrl-C quit. Down and `j` scroll one row down, Up and `k` one row
/// up; PageDown and the space bar scroll a page down, PageUp a page up. `g`
/// and Home show the start, `G` and End the end. Ctrl-L toggles line
/// numbers. `/` starts a forward search and `?` a backward one; `n` moves to
/// the next match and `p` to the previous one. Every other key does nothing.
pub open spec fn paging_command(event: KeyPress, visible_rows: usize) -> Command {
    if event.ctrl {
        match event.key {
            Key::Char('c') => Command::Quit,
            Key::Char('l') => Command::ToggleLineNumbers,
            _ => Command::NoOp,
        }
    } else {
        match event.key {
            Key::Char('q') => Command::Quit,
            Key::Down | Key::Char('j') => Command::ScrollBy(1),
            Key::Up | Key::Char('k') => Command::ScrollBy((-1) as isize),
            Key::PageDown | Key::Char(' ') => Command::ScrollBy(page(visible_rows)),
            Key::PageUp => Command::ScrollBy((-page(visible_rows)) as isize),
            Key::Home | Key::Char('g') => Command::Jump(JumpTarget::Start),
            Key::End | Key::Char('G') => Command::Jump(JumpTarget::End),
            Key::Char('/') => Command::EnterSearch(SearchMode::Forward),
            Key::Char('?') => Command::EnterSearch(SearchMode::Reverse),
            Key::Char('n') => Command::NextMatch,
            Key::Char('p') => Command::PrevMatch,
            _ => Command::NoOp,
        }
    }
}

/// The command of the default classifier.
pub open spec fn default_command(event: KeyPress, context: InputContext) -> Command {
    if context.typing {
        typing_command(event)
    } else {
        paging_command(event, context.visible_rows)
    }
}

impl DefaultInputHandler {
    /// Returns the command that the default key bindings give `event`.
    pub fn command_for(event: KeyPress, context: InputContext) -> (command: Command)
        ensures
            command == default_command(event, context),
    {
        if context.typing {
            return match event.key {
                Key::Enter => Command::ConfirmSearch,
                Key::Char(c) => if event.ctrl {
                    Command::NoOp
                } else {
                    Command::SearchInput(c)
                },
                _ => Command::NoOp,
            };
        }
        let page: isize = if context.visible_rows <= isize::MAX as usize {
            context.visible_rows as isize
        } else {
            isize::MAX
        };
        if event.ctrl {
            match event.key {
                Key::Char('c') => Command::Quit,
                Key::Char('l') => Command::ToggleLineNumbers,
                _ => Command::NoOp,
            }
        } else {
            match event.key {
                Key::Char('q') => Command::Quit,
                Key::Down | Key::Char('j') => Command::ScrollBy(1),
                Key::Up | Key::Char('k') => Command::ScrollBy(-1),
                Key::PageDown | Key::Char(' ') => Command::ScrollBy(page),
                Key::PageUp => Command::ScrollBy(-page),
                Key::Home | Key::Char('g') => Command::Jump(JumpTarget::Start),
                Key::End | Key::Char('G') => Command::Jump(JumpTarget::End),
                Key::Char('/') => Command::EnterSearch(SearchMode::Forward),
                Key::Char('?') => Command::EnterSearch(SearchMode::Reverse),
                Key::Char('n') => Command::NextMatch,
                Key::Char('p') => Command::PrevMatch,
                _ => Command::NoOp,
            }
        }
    }
}

impl InputClassifier for DefaultInputHandler {
    open spec fn command(&self, event: KeyPress, context: InputContext) -> Command {
        default_command(event, context)
    }

    fn classify(&self, event: KeyPress, context: InputContext) -> (command: Command) {
        DefaultInputHandler::command_for(event, context)
    }
}

} // verus!
