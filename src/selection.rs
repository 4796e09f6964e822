use vstd::prelude::*;

verus! {

/// A keyboard step through the result list.
#[derive(Clone, Copy, Debug, PartialEq, Eq, Structural)]
pub enum Direction {
    Up,
    Down,
}

/// Where the list is drawn, in whole pixels, as last observed. A row height of
/// zero means that no row has been measured yet.
#[derive(Clone, Copy, Debug, PartialEq, Eq, Structural)]
pub struct RowLayout {
    pub area_top: i64,
    pub row_height: u32,
    pub spacing: u32,
    pub scroll_offset: i64,
}

/// A vertical span `[top, bottom)` that the view is asked to bring into sight.
#[derive(Clone, Copy, Debug, PartialEq, Eq, Structural)]
pub struct RowRange {
    pub top: i128,
    pub bottom: i128,
}

/// The result list of the last search, the row that is current, and whether the
/// view still owes a scroll to that row.
#[derive(Clone, Debug)]
pub struct SelectionState {
    pub results: Vec<String>,
    pub selected_index: usize,
    pub pending_scroll: bool,
}

/// `i` brought into `[0, len - 1]`; `len` is positive.
pub open spec fn clamp_index(i: int, len: int) -> int {
    if i < 0 {
        0
    } else if i > len - 1 {
        len - 1
    } else {
        i
    }
}

/// The index after one step from `i` in a list of `len` rows: clamped, never wrapped.
pub open spec fn stepped(i: int, len: int, dir: Direction) -> int {
    match dir {
        Direction::Up => clamp_index(i - 1, len),
        Direction::Down => clamp_index(i + 1, len),
    }
}

/// The span of row `index`, shifted by how far the list has been scrolled.
pub open spec fn row_span(index: int, layout: RowLayout) -> RowRange {
    let top = layout.area_top + index * (layout.row_height + layout.spacing) - layout.scroll_offset;
    RowRange { top: top as i128, bottom: (top + layout.row_height) as i128 }
}

/// Computes the span of row `index` for a scroll directive.
pub fn scroll_target(index: usize, layout: RowLayout) -> (r: RowRange)
    ensures
        r == row_span(index as int, layout),
{
    let pitch: i128 = layout.row_height as i128 + layout.spacing as i128;
    assert(0 <= index * pitch <= 0x1_0000_0000_0000_0000 * 0x2_0000_0000) by (nonlinear_arith)
        requires
            0 <= index < 0x1_0000_0000_0000_0000,
            0 <= pitch <= 0x2_0000_0000,
    ;
    let top: i128 = layout.area_top as i128 + index as i128 * pitch - layout.scroll_offset as i128;
    RowRange { top, bottom: top + layout.row_height as i128 }
}

impl SelectionState {
    /// The selected index is in range whenever there are results.
    pub open spec fn wf(&self) -> bool {
        self.results@.len() > 0 ==> self.selected_index < self.results@.len()
    }

    pub fn new() -> (r: SelectionState)
        ensures
            r.wf(),
            r.results@.len() == 0,
            r.selected_index == 0,
            !r.pending_scroll,
    {
        SelectionState { results: Vec::new(), selected_index: 0, pending_scroll: false }
    }

    /// Takes the list of a new search; the first row becomes current.
    pub fn replace_results(&mut self, results: Vec<String>)
        ensures
            final(self).results@ == results@,
            final(self).selected_index == 0,
            final(self).pending_scroll == old(self).pending_scroll,
            final(self).wf(),
    {
        self.results = results;
        self.selected_index = 0;
    }

    /// The path of the current row, or `None` when there are no results.
    pub fn current(&self) -> (r: Option<String>)
        ensures
            self.results@.len() == 0 ==> r is None,
            self.results@.len() > 0 ==> r == Some(
                self.results@[clamp_index(self.selected_index as int, self.results@.len() as int)],
            ),
    {
        let n = self.results.len();
        if n == 0 {
            None
        } else {
            let i = if self.selected_index > n - 1 { n - 1 } else { self.selected_index };
            Some(self.results[i].clone())
        }
    }

    /// Steps the selection one row, clamped at both ends, and asks for a scroll
    /// to it. Returns the path of the row now current; with no results nothing
    /// changes and `None` comes back.
    pub fn move_selection(&mut self, dir: Direction) -> (r: Option<String>)
        ensures
            old(self).results@.len() == 0 ==> r is None && *final(self) == *old(self),
            old(self).results@.len() > 0 ==> {
                &&& final(self).selected_index as int == stepped(
                    old(self).selected_index as int,
                    old(self).results@.len() as int,
                    dir,
                )
                &&& final(self).selected_index < final(self).results@.len()
                &&& final(self).pending_scroll
                &&& r == Some(final(self).results@[final(self).selected_index as int])
            },
            final(self).results@ == old(self).results@,
            final(self).wf(),
    {
        let n = self.results.len();
        if n == 0 {
            return None;
        }
        let i = self.selected_index;
        let next: usize = match dir {
            Direction::Up => if i == 0 { 0 } else if i - 1 > n - 1 { n - 1 } else { i - 1 },
            Direction::Down => if i >= n - 1 { n - 1 } else { i + 1 },
        };
        self.selected_index = next;
        self.pending_scroll = true;
        Some(self.results[next].clone())
    }

    /// Makes the clicked row current, without a scroll: the row is in sight.
    /// An index past the end selects the last row. Returns the path of the row
    /// now current; with no results nothing changes and `None` comes back.
    pub fn select_by_click(&mut self, index: usize) -> (r: Option<String>)
        ensures
            old(self).results@.len() == 0 ==> r is None && *final(self) == *old(self),
            old(self).results@.len() > 0 ==> {
                &&& final(self).selected_index as int == clamp_index(
                    index as int,
                    old(self).results@.len() as int,
                )
                &&& r == Some(final(self).results@[final(self).selected_index as int])
            },
            final(self).results@ == old(self).results@,
            final(self).pending_scroll == old(self).pending_scroll,
            final(self).wf(),
    {
        let n = self.results.len();
        if n == 0 {
            return None;
        }
        let i = if index > n - 1 { n - 1 } else { index };
        self.selected_index = i;
        Some(self.results[i].clone())
    }

    /// Issues the scroll that the selection owes, once: the span of the current
    /// row. While no row height is known the scroll waits for a later call.
    pub fn take_scroll(&mut self, layout: RowLayout) -> (r: Option<RowRange>)
        ensures
            old(self).pending_scroll && layout.row_height > 0 ==> {
                &&& r == Some(row_span(old(self).selected_index as int, layout))
                &&& !final(self).pending_scroll
            },
            !(old(self).pending_scroll && layout.row_height > 0) ==> {
                &&& r is None
                &&& final(self).pending_scroll == old(self).pending_scroll
            },
            final(self).results@ == old(self).results@,
            final(self).selected_index == old(self).selected_index,
            old(self).wf() ==> final(self).wf(),
    {
        if self.pending_scroll && layout.row_height > 0 {
            self.pending_scroll = false;
            Some(scroll_target(self.selected_index, layout))
        } else {
            None
        }
    }
}

} // verus!
