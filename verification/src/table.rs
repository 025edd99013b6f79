//! A table with a selection that stops at both ends and keeps its place
//! when the rows are replaced.

use crate::scroll::Scrollable;
use crate::selection::Selection;
use crate::widget_state::table_selected;
use ratatui::widgets::TableState;
use vstd::prelude::*;

verus! {

/// Rows in order, with the selection kept in the state that the table
/// widget is drawn from.
#[derive(Debug)]
pub struct StatefulTable<T> {
    pub state: TableState,
    pub items: Vec<T>,
}

impl<T> View for StatefulTable<T> {
    type V = Selection<T>;

    open spec fn view(&self) -> Selection<T> {
        Selection {
            items: self.items@,
            selected: match table_selected(self.state) {
                Some(i) => Some(i as nat),
                None => None,
            },
        }
    }
}

impl<T: Clone> Clone for StatefulTable<T> {
    /// A table with the same selection and a clone of every row.
    fn clone(&self) -> (copy: StatefulTable<T>)
        ensures
            copy@.selected == self@.selected,
            copy@.len() == self@.len(),
            forall|i: int| 0 <= i < self@.len() ==> cloned(self@.items[i], #[trigger] copy@.items[i]),
    {
        StatefulTable { state: self.state.clone(), items: self.items.clone() }
    }
}

impl<T> StatefulTable<T> {
    /// An empty table with nothing selected.
    pub fn new() -> (table: StatefulTable<T>)
        ensures
            table@ == Selection::<T>::fresh(Seq::empty()),
            table@.in_bounds(),
    {
        StatefulTable { state: TableState::default(), items: Vec::new() }
    }

    /// A table of `items` with the first row selected, if there is one.
    pub fn with_items(items: Vec<T>) -> (table: StatefulTable<T>)
        ensures
            table@ == Selection::fresh(items@),
            table@.in_bounds(),
    {
        let mut table = StatefulTable::new();
        if !items.is_empty() {
            table.state.select(Some(0));
        }
        table.set_items(items);
        table
    }

    /// Installs `items` and moves the selection as little as the new
    /// length allows: it stays on its index where that still is a row,
    /// falls back to the last row where it is not, goes to the first row
    /// where nothing was selected, and is dropped where no row is left.
    pub fn set_items(&mut self, items: Vec<T>)
        ensures
            final(self)@ == old(self)@.replace(items@),
            final(self)@.in_bounds(),
    {
        let item_len: usize = items.len();
        self.items = items;
        if !self.items.is_empty() {
            let i: usize = match self.state.selected() {
                Some(i) => {
                    if i > 0 && i < item_len {
                        i
                    } else if i >= item_len {
                        item_len - 1
                    } else {
                        0
                    }
                },
                None => 0,
            };
            self.state.select(Some(i));
        } else {
            self.state.select(None);
        }
    }
}

impl<T> Scrollable for StatefulTable<T> {
    open spec fn scrolled_down(model: Selection<T>, n: nat) -> Selection<T> {
        model.clamp_down(n)
    }

    open spec fn scrolled_up(model: Selection<T>, n: nat) -> Selection<T> {
        model.clamp_up(n)
    }

    /// Moves the selection `increment` rows on, no further than the last
    /// row.
    fn scroll_down(&mut self, increment: usize)
        ensures
            final(self)@ == old(self)@.clamp_down(increment as nat),
            old(self)@.in_bounds() ==> final(self)@.in_bounds(),
    {
        if let Some(i) = self.state.selected() {
            let len: usize = self.items.len();
            if increment < len && i < len - increment {
                self.state.select(Some(i + increment));
            } else {
                self.state.select(Some(len.saturating_sub(1)));
            }
        }
    }

    /// Moves the selection `decrement` rows back, no further than the
    /// first row.
    fn scroll_up(&mut self, decrement: usize)
        ensures
            final(self)@ == old(self)@.clamp_up(decrement as nat),
            old(self)@.in_bounds() ==> final(self)@.in_bounds(),
    {
        if let Some(i) = self.state.selected() {
            if i != 0 {
                self.state.select(Some(i.saturating_sub(decrement)));
            }
        }
    }
}

impl<T: Clone> StatefulTable<T> {
    /// A clone of the selected row, or `None` where there are no rows or
    /// none is selected. The caller gets a value of its own, so the rows
    /// can be replaced while it is in use.
    pub fn get_selected_item_copy(&self) -> (copy: Option<T>)
        requires
            self@.selected matches Some(i) ==> self@.len() == 0 || i < self@.len(),
        ensures
            match copy {
                Some(item) => self@.len() > 0 && self@.selected is Some && cloned(
                    self@.items[self@.cursor() as int],
                    item,
                ),
                None => self@.len() == 0 || self@.selected is None,
            },
    {
        if !self.items.is_empty() {
            match self.state.selected() {
                Some(i) => Some(self.items[i].clone()),
                None => None,
            }
        } else {
            None
        }
    }
}

} // verus!
