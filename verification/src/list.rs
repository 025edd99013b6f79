//! A list with a selection that wraps around at both ends.

use crate::scroll::Scrollable;
use crate::selection::Selection;
use crate::widget_state::list_selected;
use ratatui::widgets::ListState;
use vstd::prelude::*;

verus! {

/// Items in order, with the selection kept in the state that the list
/// widget is drawn from.
pub struct StatefulList<T> {
    pub state: ListState,
    pub items: Vec<T>,
}

impl<T> View for StatefulList<T> {
    type V = Selection<T>;

    open spec fn view(&self) -> Selection<T> {
        Selection {
            items: self.items@,
            selected: match list_selected(self.state) {
                Some(i) => Some(i as nat),
                None => None,
            },
        }
    }
}

impl<T> StatefulList<T> {
    /// An empty list with nothing selected.
    pub fn new() -> (list: StatefulList<T>)
        ensures
            list@ == Selection::<T>::fresh(Seq::empty()),
            list@.in_bounds(),
    {
        StatefulList { state: ListState::default(), items: Vec::new() }
    }

    /// A list of `items` with the first one selected, if there is one.
    pub fn with_items(items: Vec<T>) -> (list: StatefulList<T>)
        ensures
            list@ == Selection::fresh(items@),
            list@.in_bounds(),
    {
        let mut state = ListState::default();
        if !items.is_empty() {
            state.select(Some(0));
        }
        StatefulList { state, items }
    }
}

impl<T> Scrollable for StatefulList<T> {
    open spec fn scrolled_down(model: Selection<T>, n: nat) -> Selection<T> {
        model.wrap_down(n)
    }

    open spec fn scrolled_up(model: Selection<T>, n: nat) -> Selection<T> {
        model.wrap_up(n)
    }

    /// Moves the selection `increment` items on, back to the first item
    /// when the end is reached.
    fn scroll_down(&mut self, increment: usize)
        ensures
            final(self)@ == old(self)@.wrap_down(increment as nat),
            old(self)@.in_bounds() && old(self)@.len() > 0 ==> final(self)@.in_bounds(),
    {
        let i: usize = match self.state.selected() {
            Some(i) => i,
            None => 0,
        };
        let next: usize = if i >= self.items.len().saturating_sub(increment) {
            0
        } else {
            i + increment
        };
        self.state.select(Some(next));
    }

    /// Moves the selection `decrement` items back, from the first item to
    /// the far end.
    fn scroll_up(&mut self, decrement: usize)
        ensures
            final(self)@ == old(self)@.wrap_up(decrement as nat),
            old(self)@.in_bounds() && old(self)@.len() > 0 && (decrement > 0 || old(self)@.cursor()
                > 0) ==> final(self)@.in_bounds(),
    {
        let i: usize = match self.state.selected() {
            Some(i) => i,
            None => 0,
        };
        let next: usize = if i == 0 {
            self.items.len().saturating_sub(decrement)
        } else {
            i.saturating_sub(decrement)
        };
        self.state.select(Some(next));
    }
}

} // verus!
