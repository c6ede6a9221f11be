//! The selection and scroll position of a table, with the moves that the
//! table widget of `ratatui` defines for them. The widget clamps the
//! selection to the rows when it draws the table.
use vstd::prelude::*;

verus! {

/// Selected row and first visible row of a table.
#[derive(Clone, Copy, Debug, PartialEq, Eq, Structural)]
pub struct TableState {
    pub selected: Option<usize>,
    pub offset: usize,
}

/// The selection after moving down one row: the first row when nothing is
/// selected.
pub open spec fn next_selection(selected: Option<usize>) -> usize {
    match selected {
        Some(i) => if i == usize::MAX { i } else { (i + 1) as usize },
        None => 0,
    }
}

/// The selection after moving up one row: the last row when nothing is
/// selected (the widget clamps it when it draws).
pub open spec fn previous_selection(selected: Option<usize>) -> usize {
    match selected {
        Some(i) => if i == 0 { 0 } else { (i - 1) as usize },
        None => usize::MAX,
    }
}

impl TableState {
    /// Nothing selected, scrolled to the top.
    pub fn new() -> (s: TableState)
        ensures
            s.selected is None,
            s.offset == 0,
    {
        TableState { selected: None, offset: 0 }
    }

    /// The same state with row `index` selected.
    pub fn with_selected(self, index: usize) -> (s: TableState)
        ensures
            s.selected == Some(index),
            s.offset == self.offset,
    {
        TableState { selected: Some(index), ..self }
    }

    /// The selected row.
    pub fn selected(&self) -> (r: Option<usize>)
        ensures
            r == self.selected,
    {
        self.selected
    }

    /// Selects a row, or nothing (which also scrolls to the top).
    pub fn select(&mut self, index: Option<usize>)
        ensures
            final(self).selected == index,
            final(self).offset == if index is None { 0 } else { old(self).offset },
    {
        self.selected = index;
        if index.is_none() {
            self.offset = 0;
        }
    }

    /// Moves the selection down one row.
    pub fn select_next(&mut self)
        ensures
            *final(self) == (TableState {
                selected: Some(next_selection(old(self).selected)),
                offset: old(self).offset,
            }),
    {
        let next = match self.selected {
            Some(i) => i.saturating_add(1),
            None => 0,
        };
        self.select(Some(next));
    }

    /// Moves the selection up one row.
    pub fn select_previous(&mut self)
        ensures
            *final(self) == (TableState {
                selected: Some(previous_selection(old(self).selected)),
                offset: old(self).offset,
            }),
    {
        let previous = match self.selected {
            Some(i) => i.saturating_sub(1),
            None => usize::MAX,
        };
        self.select(Some(previous));
    }

    /// Selects the first row.
    pub fn select_first(&mut self)
        ensures
            *final(self) == (TableState { selected: Some(0), offset: old(self).offset }),
    {
        self.select(Some(0));
    }
}

} // verus!
