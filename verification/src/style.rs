//! The control sequences that a frame is made of.
//!
//! The sequences come from the `crossterm` crate: each function here asks one
//! of its commands for its ANSI text.

use crate::number::decimal;
use vstd::prelude::*;

verus! {

/// The two characters that open every control sequence: escape and `[`.
pub open spec fn csi() -> Seq<char> {
    seq!['\x1b', '[']
}

/// The sequence that clears the whole screen.
pub open spec fn clear_screen_seq() -> Seq<char> {
    csi() + seq!['2', 'J']
}

/// The sequence that moves the cursor to column `x` and row `y`, both
/// counted from 0. The terminal counts from 1, row first.
pub open spec fn move_to_seq(x: nat, y: nat) -> Seq<char> {
    csi() + decimal(y + 1) + seq![';'] + decimal(x + 1) + seq!['H']
}

/// The sequence that switches reverse video on.
pub open spec fn reverse_seq() -> Seq<char> {
    csi() + seq!['7', 'm']
}

/// The sequence that switches all attributes off.
pub open spec fn reset_seq() -> Seq<char> {
    csi() + seq!['0', 'm']
}

/// Asks crossterm's `Clear(ClearType::All)` for its ANSI text through
/// `Command::write_ansi`, which writes `ESC [ 2 J`.
#[verifier::external_body]
pub(crate) fn clear_screen_code() -> (s: String)
    ensures
        s@ == clear_screen_seq(),
{
    let mut s = String::new();
    let clear = crossterm::terminal::Clear(crossterm::terminal::ClearType::All);
    let _ = crossterm::Command::write_ansi(&clear, &mut s);
    s
}

/// Asks crossterm's `MoveTo(x, y)` for its ANSI text through
/// `Command::write_ansi`, which writes `ESC [`, the decimal numeral of `y + 1`,
/// `;`, the decimal numeral of `x + 1` and `H`. It adds the 1 in 16 bits, so
/// the largest 16-bit value is left out for both.
#[verifier::external_body]
pub(crate) fn move_to_code(x: u16, y: u16) -> (s: String)
    requires
        x < u16::MAX,
        y < u16::MAX,
    ensures
        s@ == move_to_seq(x as nat, y as nat),
{
    let mut s = String::new();
    let _ = crossterm::Command::write_ansi(&crossterm::cursor::MoveTo(x, y), &mut s);
    s
}

/// Asks crossterm's `SetAttribute(Attribute::Reverse)` for its ANSI text
/// through `Command::write_ansi`, which writes `ESC [ 7 m`.
#[verifier::external_body]
pub(crate) fn reverse_code() -> (s: String)
    ensures
        s@ == reverse_seq(),
{
    let mut s = String::new();
    let reverse = crossterm::style::SetAttribute(crossterm::style::Attribute::Reverse);
    let _ = crossterm::Command::write_ansi(&reverse, &mut s);
    s
}

/// Asks crossterm's `SetAttribute(Attribute::Reset)` for its ANSI text
/// through `Command::write_ansi`, which writes `ESC [ 0 m`.
#[verifier::external_body]
pub(crate) fn reset_code() -> (s: String)
    ensures
        s@ == reset_seq(),
{
    let mut s = String::new();
    let reset = crossterm::style::SetAttribute(crossterm::style::Attribute::Reset);
    let _ = crossterm::Command::write_ansi(&reset, &mut s);
    s
}

} // verus!
