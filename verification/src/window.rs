//! The visible window of a list that is longer than the screen, and its selection.

use vstd::prelude::*;

verus! {

/// The smaller of two numbers.
pub open spec fn min_of(a: int, b: int) -> int {
    if a <= b {
        a
    } else {
        b
    }
}

/// The greater of two numbers.
pub open spec fn max_of(a: int, b: int) -> int {
    if a <= b {
        b
    } else {
        a
    }
}

/// The smaller of two numbers.
pub fn min_usize(a: usize, b: usize) -> (r: usize)
    ensures
        r == min_of(a as int, b as int),
{
    if a <= b {
        a
    } else {
        b
    }
}

/// The greater of two numbers.
pub fn max_usize(a: usize, b: usize) -> (r: usize)
    ensures
        r == max_of(a as int, b as int),
{
    if a <= b {
        b
    } else {
        a
    }
}

/// The index nearest to `selected` in a list of `total` entries; zero in an empty list.
pub open spec fn clamped_index(total: int, selected: int) -> int {
    if total <= 0 {
        0
    } else {
        min_of(selected, total - 1)
    }
}

/// The index nearest to `selected` in a list of `total` entries; zero in an empty list.
pub fn clamp_index(total: usize, selected: usize) -> (r: usize)
    ensures
        r == clamped_index(total as int, selected as int),
{
    if total == 0 {
        0
    } else {
        min_usize(selected, total - 1)
    }
}

/// The offset nearest to `offset` at which a window of `visible` rows shows the selection
/// and no empty rows that entries could fill; zero if there is nothing to show.
pub open spec fn window_offset(total: int, selected: int, offset: int, visible: int) -> int {
    if total <= 0 || visible <= 0 {
        0
    } else {
        let chosen = min_of(selected, total - 1);
        let start = min_of(offset, max_of(total - visible, 0));
        if chosen < start {
            chosen
        } else if chosen >= start + visible {
            chosen + 1 - visible
        } else {
            start
        }
    }
}

/// The offset of the visible window, and the selected row within it.
pub fn visible_window(total: usize, selected: usize, offset: usize, visible: usize) -> (r: (
    usize,
    Option<usize>,
))
    ensures
        r.0 == window_offset(total as int, selected as int, offset as int, visible as int),
        r.1 is None <==> total == 0 || visible == 0,
        r.1 matches Some(row) ==> row == clamped_index(total as int, selected as int) - r.0,
{
    if total == 0 || visible == 0 {
        return (0, None);
    }
    let chosen: usize = min_usize(selected, total - 1);
    let max_offset: usize = total.saturating_sub(visible);
    let start: usize = min_usize(offset, max_offset);
    let start: usize = if chosen < start {
        chosen
    } else if chosen >= start.saturating_add(visible) {
        chosen + 1 - visible
    } else {
        start
    };
    (start, Some(chosen - start))
}

/// The offset of the visible window.
pub fn adjusted_offset(total: usize, selected: usize, offset: usize, visible: usize) -> (r: usize)
    ensures
        r == window_offset(total as int, selected as int, offset as int, visible as int),
{
    visible_window(total, selected, offset, visible).0
}

/// The window shows the selected entry, starts inside the list, and leaves no row empty that
/// an entry could fill.
pub proof fn window_shows_selection(total: int, selected: int, offset: int, visible: int)
    requires
        total > 0,
        visible > 0,
        selected >= 0,
        offset >= 0,
    ensures
        ({
            let start = window_offset(total, selected, offset, visible);
            let chosen = clamped_index(total, selected);
            &&& 0 <= start <= chosen < start + visible
            &&& start <= max_of(total - visible, 0)
        }),
{
}

/// A window that shows the selection already does not move.
pub proof fn window_rests_when_selection_shows(total: int, selected: int, offset: int, visible: int)
    requires
        total > 0,
        visible > 0,
        0 <= offset <= max_of(total - visible, 0),
        offset <= clamped_index(total, selected) < offset + visible,
    ensures
        window_offset(total, selected, offset, visible) == offset,
{
}

/// Placing a window twice is the same as placing it once.
pub proof fn window_is_stable(total: int, selected: int, offset: int, visible: int)
    requires
        selected >= 0,
        offset >= 0,
    ensures
        window_offset(total, selected, window_offset(total, selected, offset, visible), visible)
            == window_offset(total, selected, offset, visible),
{
}

/// The selection in a list and the window that shows it.
#[derive(Debug, Clone, Copy, PartialEq, Eq, Structural)]
pub struct ViewState {
    pub selected: usize,
    pub offset: usize,
    pub visible_rows: usize,
}

impl Default for ViewState {
    fn default() -> (r: Self)
        ensures
            r == (ViewState { selected: 0, offset: 0, visible_rows: 0 }),
    {
        ViewState { selected: 0, offset: 0, visible_rows: 0 }
    }
}

impl ViewState {
    /// The state with the selection at `selected` and the window moved to show it.
    pub open spec fn showing(self, total: int, selected: int) -> ViewState {
        ViewState {
            selected: selected as usize,
            offset: window_offset(
                total,
                selected,
                self.offset as int,
                max_of(self.visible_rows as int, 1),
            ) as usize,
            visible_rows: self.visible_rows,
        }
    }

    /// The state fitted to a list of `total` entries.
    pub open spec fn clamped(self, total: int) -> ViewState {
        self.showing(total, clamped_index(total, self.selected as int))
    }

    /// The state with the next entry selected; the last entry stays selected.
    pub open spec fn after_next(self, total: int) -> ViewState {
        if total == 0 {
            ViewState { selected: 0, offset: 0, ..self }
        } else {
            self.showing(total, clamped_index(total, self.selected + 1))
        }
    }

    /// The state with the previous entry selected; the first entry stays selected.
    pub open spec fn after_prev(self, total: int) -> ViewState {
        if total == 0 {
            ViewState { selected: 0, offset: 0, ..self }
        } else {
            self.showing(total, max_of(self.selected - 1, 0))
        }
    }

    /// Fits the state to a list of `len` entries.
    pub fn clamp(&mut self, len: usize)
        ensures
            *final(self) == old(self).clamped(len as int),
    {
        self.selected = clamp_index(len, self.selected);
        self.offset =
        adjusted_offset(len, self.selected, self.offset, max_usize(self.visible_rows, 1));
    }

    /// Selects the next entry of a list of `len` entries.
    pub fn select_next(&mut self, len: usize)
        ensures
            *final(self) == old(self).after_next(len as int),
    {
        if len == 0 {
            self.selected = 0;
            self.offset = 0;
            return;
        }
        self.selected = min_usize(self.selected.saturating_add(1), len - 1);
        self.offset =
        adjusted_offset(len, self.selected, self.offset, max_usize(self.visible_rows, 1));
    }

    /// Selects the previous entry of a list of `len` entries.
    pub fn select_prev(&mut self, len: usize)
        ensures
            *final(self) == old(self).after_prev(len as int),
    {
        if len == 0 {
            self.selected = 0;
            self.offset = 0;
            return;
        }
        self.selected = self.selected.saturating_sub(1);
        self.offset =
        adjusted_offset(len, self.selected, self.offset, max_usize(self.visible_rows, 1));
    }
}

/// After fitting a state to a list that is not empty, the selection is an entry of the list
/// and the window shows it.
pub proof fn clamped_state_shows_selection(state: ViewState, total: int)
    requires
        0 < total <= usize::MAX,
    ensures
        ({
            let fitted = state.clamped(total);
            &&& fitted.selected < total
            &&& fitted.offset <= fitted.selected < fitted.offset + max_of(
                state.visible_rows as int,
                1,
            )
        }),
{
}

/// Going to the next entry and back returns to the selection, except from the last entry.
pub proof fn next_then_prev_returns(state: ViewState, total: int)
    requires
        state.selected + 1 < total <= usize::MAX,
    ensures
        state.after_next(total).after_prev(total).selected == state.selected,
{
}

/// The smaller and the greater of two numbers are bounds of both, and one of them.
pub proof fn bounds_are_tight(a: int, b: int)
    ensures
        min_of(a, b) <= a && min_of(a, b) <= b && (min_of(a, b) == a || min_of(a, b) == b),
        max_of(a, b) >= a && max_of(a, b) >= b && (max_of(a, b) == a || max_of(a, b) == b),
{
}

/// An index within a list stays as it is, one beyond it becomes the last one, and an empty list
/// has the index zero.
pub proof fn clamping_keeps_valid_indexes(total: int, selected: int)
    requires
        0 <= total,
        0 <= selected,
    ensures
        selected < total ==> clamped_index(total, selected) == selected,
        0 < total <= selected ==> clamped_index(total, selected) == total - 1,
        total == 0 ==> clamped_index(total, selected) == 0,
{
}

/// A window moves no further than it has to. It first moves back as far as its last rows would
/// be empty. If the selection then lies above it, it moves up until the selection is its first
/// row, if below it, down until the selection is its last row, and else it stays. Without entries
/// or rows it begins at zero.
pub proof fn windows_move_least(total: int, selected: int, offset: int, visible: int)
    requires
        0 <= selected,
        0 <= offset,
    ensures
        ({
            let start = window_offset(total, selected, offset, visible);
            let chosen = if selected < total {
                selected
            } else {
                total - 1
            };
            let lowest = if visible < total {
                total - visible
            } else {
                0
            };
            let from = if offset < lowest {
                offset
            } else {
                lowest
            };
            &&& total <= 0 || visible <= 0 ==> start == 0
            &&& total > 0 && visible > 0 ==> {
                &&& from <= chosen < from + visible ==> start == from
                &&& chosen < from ==> start == chosen
                &&& chosen >= from + visible ==> start + visible == chosen + 1
            }
        }),
{
}

/// Fitting a state to a list, and moving its selection down or up, selects the entry at the old
/// place, one below, or one above it, as far as the list goes, and puts the window where it
/// shows it, with at least one row. The number of rows stays.
pub proof fn selections_move_by_one(state: ViewState, total: int)
    requires
        0 <= total <= usize::MAX,
    ensures
        ({
            let rows = if state.visible_rows >= 1 {
                state.visible_rows as int
            } else {
                1
            };
            let fitted = state.clamped(total);
            let next = state.after_next(total);
            let prev = state.after_prev(total);
            &&& total == 0 ==> fitted.selected == 0 && fitted.offset == 0 && next.selected == 0
                && next.offset == 0 && prev.selected == 0 && prev.offset == 0
            &&& total > 0 ==> fitted.selected == (if state.selected < total {
                state.selected as int
            } else {
                total - 1
            })
            &&& total > 0 ==> next.selected == (if state.selected + 1 < total {
                state.selected + 1
            } else {
                total - 1
            })
            &&& total > 0 ==> prev.selected == (if state.selected > 0 {
                state.selected - 1
            } else {
                0
            })
            &&& total > 0 ==> fitted.offset == window_offset(
                total,
                fitted.selected as int,
                state.offset as int,
                rows,
            ) && next.offset == window_offset(
                total,
                next.selected as int,
                state.offset as int,
                rows,
            ) && prev.offset == window_offset(
                total,
                prev.selected as int,
                state.offset as int,
                rows,
            )
            &&& fitted.visible_rows == state.visible_rows && next.visible_rows
                == state.visible_rows && prev.visible_rows == state.visible_rows
        }),
{
}

} // verus!
