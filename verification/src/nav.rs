//! The navigation rules the event loop applies: where a charted symbol lands in
//! the 2x2 grid, how the watchlist cursor moves and scrolls, and what going back
//! does to the view, the input mode and the focus.

use vstd::prelude::*;

use crate::app::View as Screen;
use crate::app::{FocusRegion, InputMode};
use crate::ui::layout::MAX_SLOTS;

verus! {

/// The pane after `f` in focus order, wrapping from the last to the first.
pub open spec fn next_slot(f: int) -> int {
    (f + 1) % (MAX_SLOTS as int)
}

/// Where a newly charted symbol goes, given which panes are occupied and which
/// one has focus: the first empty pane in order, focus unchanged; once all four
/// are full, the focused pane is replaced and focus advances. Returns (pane to
/// fill, focused pane afterwards).
pub open spec fn fill_spec(occupied: Seq<bool>, focused: int) -> (int, int) {
    if !occupied[0] {
        (0, focused)
    } else if !occupied[1] {
        (1, focused)
    } else if !occupied[2] {
        (2, focused)
    } else if !occupied[3] {
        (3, focused)
    } else {
        (focused, next_slot(focused))
    }
}

/// The slot fill policy: fill the first empty pane; when all are full, replace
/// the focused pane and advance focus — predictable and aimable, not FIFO.
pub fn fill_target(occupied: [bool; 4], focused: usize) -> (r: (usize, usize))
    requires
        focused < MAX_SLOTS,
    ensures
        (r.0 as int, r.1 as int) == fill_spec(occupied@, focused as int),
        r.0 < MAX_SLOTS,
        r.1 < MAX_SLOTS,
        (exists|k: int| 0 <= k < 4 && !occupied@[k]) ==> !occupied@[r.0 as int] && r.1 == focused && forall|k: int|
            0 <= k < r.0 ==> occupied@[k],
        (forall|k: int| 0 <= k < 4 ==> occupied@[k]) ==> r.0 == focused && r.1 == next_slot(focused as int),
{
    if !occupied[0] {
        (0, focused)
    } else if !occupied[1] {
        (1, focused)
    } else if !occupied[2] {
        (2, focused)
    } else if !occupied[3] {
        (3, focused)
    } else {
        (focused, (focused + 1) % MAX_SLOTS)
    }
}

/// Into a full grid, four charted symbols in a row replace each pane exactly once,
/// starting at the focused one, and leave focus where it started.
pub proof fn lemma_full_grid_replaces_each_pane_once(f: int)
    requires
        0 <= f < MAX_SLOTS,
    ensures
        ({
            let f1 = next_slot(f);
            let f2 = next_slot(f1);
            let f3 = next_slot(f2);
            &&& f != f1 && f != f2 && f != f3 && f1 != f2 && f1 != f3 && f2 != f3
            &&& 0 <= f1 < 4 && 0 <= f2 < 4 && 0 <= f3 < 4
            &&& next_slot(f3) == f
        }),
{
}

/// The row a cursor move aims at, clamped to the list.
pub open spec fn clamp_row(target: int, total: int) -> int {
    if target < 0 {
        0
    } else if target >= total {
        total - 1
    } else {
        target
    }
}

/// The scroll offset that keeps row `sel` in a `visible`-row window: unchanged
/// when the row is already shown, else moved just far enough.
pub open spec fn scrolled(sel: int, offset: int, visible: int) -> int {
    if sel < offset {
        sel
    } else if sel >= offset + visible {
        sel + 1 - visible
    } else {
        offset
    }
}

/// Moves the cursor to `target` (clamped to the list) and scrolls only as far as
/// needed to keep it in view. An empty list puts both at 0.
pub fn select_row(target: i64, offset: usize, total: usize, visible: usize) -> (r: (usize, usize))
    requires
        visible >= 1,
        total <= i64::MAX,
    ensures
        total == 0 ==> r == (0usize, 0usize),
        total > 0 ==> r.0 == clamp_row(target as int, total as int) && r.1 == scrolled(
            r.0 as int,
            offset as int,
            visible as int,
        ),
        total > 0 ==> r.0 < total && r.1 <= r.0 < r.1 + visible,
{
    if total == 0 {
        return (0, 0);
    }
    let sel: usize = if target < 0 {
        0
    } else if target >= total as i64 {
        total - 1
    } else {
        target as usize
    };
    let off: usize = if sel < offset {
        sel
    } else if sel - offset >= visible {
        sel + 1 - visible
    } else {
        offset
    };
    (sel, off)
}

/// `j`/`k`: moves the cursor by `delta` rows; past an edge of the window the table
/// scrolls.
pub fn move_selection(selected: usize, offset: usize, total: usize, visible: usize, delta: i32) -> (r: (
    usize,
    usize,
))
    requires
        visible >= 1,
        selected <= i32::MAX,
        total <= i64::MAX,
    ensures
        total == 0 ==> r == (0usize, 0usize),
        total > 0 ==> r.0 == clamp_row(selected + delta, total as int) && r.1 == scrolled(
            r.0 as int,
            offset as int,
            visible as int,
        ),
        total > 0 ==> r.0 < total && r.1 <= r.0 < r.1 + visible,
{
    select_row(selected as i64 + delta as i64, offset, total, visible)
}

/// The part of the app state that going back touches.
#[derive(Debug, Clone, Copy, PartialEq, Eq, Structural)]
pub struct Nav {
    pub view: Screen,
    pub input_mode: InputMode,
    pub show_help: bool,
    pub focus: FocusRegion,
}

/// Going back: an open help overlay closes and nothing else changes; otherwise
/// Detail and Settings return to a coherent Overview (table focus, normal input);
/// on the Overview itself nothing changes.
pub open spec fn back_spec(n: Nav) -> Nav {
    if n.show_help {
        Nav { show_help: false, ..n }
    } else if n.view != Screen::Overview {
        Nav { view: Screen::Overview, input_mode: InputMode::Normal, show_help: false, focus: FocusRegion::Table }
    } else {
        n
    }
}

/// `esc`: closes help, or leaves Detail / Settings for the Overview.
pub fn back(n: Nav) -> (r: Nav)
    ensures
        r == back_spec(n),
{
    if n.show_help {
        Nav { show_help: false, ..n }
    } else if n.view != Screen::Overview {
        Nav { view: Screen::Overview, input_mode: InputMode::Normal, show_help: false, focus: FocusRegion::Table }
    } else {
        n
    }
}

/// Returning to the Overview never strands the grid focus or an input mode,
/// closing help leaves view and focus alone, and two escapes always reach the
/// Overview with no overlay.
pub proof fn lemma_back_is_coherent(n: Nav)
    ensures
        !n.show_help && n.view != Screen::Overview ==> back_spec(n).view == Screen::Overview
            && back_spec(n).focus == FocusRegion::Table && back_spec(n).input_mode == InputMode::Normal,
        n.show_help ==> back_spec(n).view == n.view && back_spec(n).focus == n.focus && !back_spec(n).show_help,
        back_spec(back_spec(n)).view == Screen::Overview && !back_spec(back_spec(n)).show_help,
{
}

} // verus!
