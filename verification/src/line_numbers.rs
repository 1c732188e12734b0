//! The line-number display mode.

use vstd::prelude::*;

verus! {

/// Whether line numbers are shown, and whether the user may change that.
#[derive(Debug, PartialEq, Eq, Structural, Copy, Clone)]
pub enum LineNumbers {
    /// Line numbers are shown and the user cannot turn them off.
    AlwaysOn,
    /// Line numbers are shown; the user may turn them off.
    Enabled,
    /// Line numbers are hidden; the user may turn them on.
    Disabled,
    /// Line numbers are hidden and the user cannot turn them on.
    AlwaysOff,
}

impl LineNumbers {
    /// The mode after a toggle: the two user modes swap, the locked modes stay.
    pub open spec fn toggled(self) -> LineNumbers {
        match self {
            LineNumbers::Enabled => LineNumbers::Disabled,
            LineNumbers::Disabled => LineNumbers::Enabled,
            LineNumbers::AlwaysOn => LineNumbers::AlwaysOn,
            LineNumbers::AlwaysOff => LineNumbers::AlwaysOff,
        }
    }

    /// A mode is invertible when a toggle changes it.
    pub open spec fn invertible(self) -> bool {
        self == LineNumbers::Enabled || self == LineNumbers::Disabled
    }

    /// Whether rows are drawn with line numbers in this mode.
    pub open spec fn shown(self) -> bool {
        self == LineNumbers::AlwaysOn || self == LineNumbers::Enabled
    }

    /// Returns `true` exactly for the modes that a toggle changes.
    pub fn is_invertible(self) -> (b: bool)
        ensures
            b == self.invertible(),
            b == (self.toggled() != self),
    {
        matches!(self, LineNumbers::Enabled | LineNumbers::Disabled)
    }

    /// Returns the mode after a toggle.
    pub fn toggle(self) -> (mode: LineNumbers)
        ensures
            mode == self.toggled(),
    {
        match self {
            LineNumbers::Enabled => LineNumbers::Disabled,
            LineNumbers::Disabled => LineNumbers::Enabled,
            locked => locked,
        }
    }

    /// Returns `true` exactly for the modes in which line numbers are drawn.
    pub fn is_shown(self) -> (b: bool)
        ensures
            b == self.shown(),
    {
        matches!(self, LineNumbers::AlwaysOn | LineNumbers::Enabled)
    }
}

impl core::ops::Not for LineNumbers {
    type Output = LineNumbers;

    /// The toggle: `!mode` is `mode.toggled()`.
    fn not(self) -> (r: LineNumbers) {
        self.toggle()
    }
}

impl vstd::std_specs::ops::NotSpecImpl for LineNumbers {
    open spec fn obeys_not_spec() -> bool {
        true
    }

    open spec fn not_req(self) -> bool {
        true
    }

    open spec fn not_spec(self) -> LineNumbers {
        self.toggled()
    }
}

/// Toggling twice gives the mode back, and a toggle never changes whether a
/// mode is locked.
pub proof fn toggle_is_involution(mode: LineNumbers)
    ensures
        mode.toggled().toggled() == mode,
        mode.toggled().invertible() == mode.invertible(),
        mode.invertible() ==> mode.toggled().shown() != mode.shown(),
        !mode.invertible() ==> mode.toggled() == mode,
{
}

} // verus!
