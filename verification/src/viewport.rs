//! The viewport: which rows of the flattened document are on screen.
//!
//! The viewport is one number, the index of the first row shown. The last
//! terminal row is kept for the prompt, so a terminal of `rows` rows shows
//! `rows - 1` rows of text.

use vstd::prelude::*;

verus! {

/// The number of text rows on a terminal of `rows` rows.
pub open spec fn visible_rows(rows: nat) -> nat {
    if rows >= 1 {
        (rows - 1) as nat
    } else {
        0
    }
}

/// The largest first row that still fills the screen: `total - visible`, or 0
/// when everything fits.
pub open spec fn max_upper(total: nat, visible: nat) -> nat {
    if total > visible {
        (total - visible) as nat
    } else {
        0
    }
}

/// The first row after clamping. With `lower` the row after the last one
/// shown, cut off at the end of the document: a window that reaches the end of
/// a document longer than the screen is moved back so that it ends there; a
/// document that fits is shown from its first row; any other window stays.
pub open spec fn clamped(upper: nat, total: nat, visible: nat) -> nat {
    let lower = if upper + visible <= total {
        upper + visible
    } else {
        total
    };
    if total <= visible {
        0
    } else if lower == total {
        (total - visible) as nat
    } else {
        upper
    }
}

/// The first row after a scroll by `delta` rows: the move stops at row 0, and
/// the result is clamped.
pub open spec fn scrolled(upper: nat, delta: int, total: nat, visible: nat) -> nat {
    let moved = if upper + delta >= 0 {
        (upper + delta) as nat
    } else {
        0
    };
    clamped(moved, total, visible)
}

/// Whether a document of `total` rows needs no paging on a screen that shows
/// `visible` rows of text.
pub open spec fn fits_screen(total: nat, visible: nat) -> bool {
    total <= visible + 1
}

/// After clamping the first row lies between 0 and `max(0, total - visible)`,
/// and it is 0 when the document fits on the screen. This holds for every
/// first row before the clamp, also one far behind the end.
pub proof fn clamp_in_range(upper: nat, total: nat, visible: nat)
    ensures
        0 <= clamped(upper, total, visible) <= max_upper(total, visible),
        total <= visible ==> clamped(upper, total, visible) == 0,
        clamped(upper, total, visible) + visible <= total || clamped(upper, total, visible) == 0,
{
}

/// Clamping is the minimum of the first row and the largest one allowed, so it
/// leaves a first row in range alone and clamping twice changes nothing more.
pub proof fn clamp_is_min(upper: nat, total: nat, visible: nat)
    ensures
        clamped(upper, total, visible) == if upper <= max_upper(total, visible) {
            upper
        } else {
            max_upper(total, visible)
        },
        clamped(clamped(upper, total, visible), total, visible) == clamped(upper, total, visible),
{
}

/// The number of text rows on a terminal of `rows` rows.
pub fn visible(rows: usize) -> (v: usize)
    ensures
        v == visible_rows(rows as nat),
{
    if rows >= 1 {
        rows - 1
    } else {
        0
    }
}

/// Clamps the first row `upper` for a document of `total` rows on a screen
/// that shows `visible` rows of text.
pub fn clamp(upper: usize, total: usize, visible: usize) -> (r: usize)
    ensures
        r == clamped(upper as nat, total as nat, visible as nat),
        r <= max_upper(total as nat, visible as nat),
        total <= visible ==> r == 0,
{
    if total <= visible {
        0
    } else if upper >= total - visible {
        total - visible
    } else {
        upper
    }
}

/// Moves the first row `upper` by `delta` rows and clamps it.
pub fn scroll(upper: usize, delta: isize, total: usize, visible: usize) -> (r: usize)
    ensures
        r == scrolled(upper as nat, delta as int, total as nat, visible as nat),
        r <= max_upper(total as nat, visible as nat),
{
    let moved: usize = if delta >= 0 {
        let step: usize = delta as usize;
        if step <= usize::MAX - upper {
            upper + step
        } else {
            usize::MAX
        }
    } else {
        let back: usize = if delta == isize::MIN {
            (isize::MAX as usize) + 1
        } else {
            (-delta) as usize
        };
        if back <= upper {
            upper - back
        } else {
            0
        }
    };
    clamp(moved, total, visible)
}

/// Tells whether a document of `total` rows needs no paging on a screen that
/// shows `visible` rows of text.
pub fn fits(total: usize, visible: usize) -> (b: bool)
    ensures
        b == fits_screen(total as nat, visible as nat),
{
    total <= visible || total - visible <= 1
}

} // verus!
