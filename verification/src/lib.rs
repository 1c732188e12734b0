//! A terminal pager engine: text is wrapped into display rows, scrolled
//! through a viewport, searched, and rendered into frames.
//!
//! The library holds the state of a pager and decides everything about it.
//! Reading keys and writing frames to the terminal is left to the host.

pub mod error;
pub mod input;
pub mod line_numbers;
pub mod number;
pub mod pager;
pub mod render;
pub mod search;
pub mod session;
pub mod stream;
pub mod style;
pub mod text;
pub mod viewport;
pub mod wrap;

pub use line_numbers::LineNumbers;
pub use pager::{ExitStrategy, Pager, PagerMutex};
pub use search::SearchMode;
