//! A tab bar whose current tab cycles through a fixed, non-empty set.

use crate::route::Route;
use vstd::arithmetic::div_mod::{lemma_add_mod_noop_right, lemma_mod_self_0, lemma_small_mod};
use vstd::prelude::*;

verus! {

/// One tab: its label and where it leads.
pub struct TabRoute {
    pub title: String,
    pub route: Route,
}

impl Clone for TabRoute {
    fn clone(&self) -> (copy: TabRoute)
        ensures
            copy == *self,
    {
        TabRoute { title: self.title.clone(), route: self.route }
    }
}

/// The tabs in order and the index of the current one.
pub struct TabsState {
    pub items: Vec<TabRoute>,
    pub index: usize,
}

/// What a tab bar is to its contracts.
pub struct TabsView {
    pub tabs: Seq<TabRoute>,
    pub index: nat,
}

impl TabsView {
    /// The current index points at a tab (so there is at least one).
    pub open spec fn in_bounds(self) -> bool {
        self.index < self.tabs.len()
    }

    /// The same tabs with `index` current.
    pub open spec fn at(self, index: nat) -> TabsView {
        TabsView { tabs: self.tabs, index }
    }

    /// One tab on, from the last tab back to the first.
    pub open spec fn next(self) -> TabsView {
        self.at(((self.index + 1) as int % self.tabs.len() as int) as nat)
    }

    /// One tab back, from the first tab to the last.
    pub open spec fn previous(self) -> TabsView {
        if self.index > 0 {
            self.at((self.index - 1) as nat)
        } else {
            self.at((self.tabs.len() - 1) as nat)
        }
    }
}

/// Cycling among tabs. From a current tab, one tab on is the next index,
/// or the first tab after the last; either step leaves a current tab;
/// and the two steps undo each other.
pub proof fn lemma_tabs_cycle(tabs: TabsView)
    requires
        tabs.in_bounds(),
    ensures
        tabs.next().index == if tabs.index + 1 < tabs.tabs.len() {
            tabs.index + 1
        } else {
            0
        },
        tabs.next().in_bounds(),
        tabs.previous().in_bounds(),
        tabs.next().previous() == tabs,
        tabs.previous().next() == tabs,
{
    let len = tabs.tabs.len();
    if tabs.index + 1 < len {
        lemma_small_mod(tabs.index + 1, len);
    } else {
        lemma_mod_self_0(len as int);
    }
    if tabs.index > 0 {
        lemma_small_mod(tabs.index, len);
    } else {
        lemma_mod_self_0(len as int);
    }
}

impl View for TabsState {
    type V = TabsView;

    open spec fn view(&self) -> TabsView {
        TabsView { tabs: self.items@, index: self.index as nat }
    }
}

impl Default for TabsState {
    /// A tab bar without tabs. It has no current tab, so it can only be
    /// filled, not navigated.
    fn default() -> (tabs: TabsState)
        ensures
            tabs@.tabs.len() == 0,
            tabs@.index == 0,
    {
        TabsState { items: Vec::new(), index: 0 }
    }
}

impl TabsState {
    /// A tab bar over `items`, which must not be empty, with the first
    /// tab current.
    pub fn new(items: Vec<TabRoute>) -> (tabs: TabsState)
        requires
            items@.len() > 0,
        ensures
            tabs@ == (TabsView { tabs: items@, index: 0 }),
            tabs@.in_bounds(),
    {
        TabsState { items, index: 0 }
    }

    /// Makes the tab at `index` current and returns it.
    pub fn set_index(&mut self, index: usize) -> (tab: &TabRoute)
        requires
            index < old(self)@.tabs.len(),
        ensures
            final(self)@ == old(self)@.at(index as nat),
            final(self)@.in_bounds(),
            *tab == old(self)@.tabs[index as int],
    {
        self.index = index;
        &self.items[self.index]
    }

    /// Where the current tab leads.
    pub fn get_active_route(&self) -> (route: &Route)
        requires
            self@.in_bounds(),
        ensures
            *route == self@.tabs[self@.index as int].route,
    {
        &self.items[self.index].route
    }

    /// Makes the following tab current, the first one after the last.
    pub fn next(&mut self)
        requires
            old(self)@.tabs.len() > 0,
        ensures
            final(self)@ == old(self)@.next(),
            final(self)@.in_bounds(),
            old(self)@.in_bounds() ==> final(self)@.index == if old(self)@.index + 1 < old(
                self,
            )@.tabs.len() {
                old(self)@.index + 1
            } else {
                0
            },
    {
        let len: usize = self.items.len();
        proof {
            lemma_add_mod_noop_right(1, self.index as int, len as int);
            if self@.in_bounds() {
                lemma_tabs_cycle(self@);
            }
        }
        // Reduced first, so that the step cannot leave the machine's range.
        self.index = (self.index % len + 1) % len;
    }

    /// Makes the preceding tab current, the last one before the first.
    pub fn previous(&mut self)
        requires
            old(self)@.tabs.len() > 0,
        ensures
            final(self)@ == old(self)@.previous(),
            old(self)@.in_bounds() ==> final(self)@.in_bounds(),
    {
        if self.index > 0 {
            self.index -= 1;
        } else {
            self.index = self.items.len() - 1;
        }
    }
}

} // verus!
