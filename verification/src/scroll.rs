//! The two-speed step command that every scrollable component answers to.

use vstd::prelude::*;

verus! {

/// How far a line step moves.
pub const LINE_STEP: usize = 1;

/// How far a page step moves.
pub const PAGE_STEP: usize = 10;

/// The magnitude of a step: ten for a page, one for a line.
pub open spec fn step_size(page: bool) -> nat {
    if page {
        PAGE_STEP as nat
    } else {
        LINE_STEP as nat
    }
}

/// A component that can be moved up and down by a number of positions.
///
/// An implementor says, over its view, where a move of `n` positions
/// leads (`scrolled_down`, `scrolled_up`) and provides the two moves.
/// `handle_scroll` is derived from them: it turns a direction and a speed
/// into one move of the matching magnitude.
pub trait Scrollable: View {
    /// The view after moving down by `n` from `model`.
    spec fn scrolled_down(model: Self::V, n: nat) -> Self::V;

    /// The view after moving up by `n` from `model`.
    spec fn scrolled_up(model: Self::V, n: nat) -> Self::V;

    /// Moves by one line or, if `page` is set, by one page, up or down.
    fn handle_scroll(&mut self, up: bool, page: bool)
        ensures
            up ==> final(self)@ == Self::scrolled_up(old(self)@, step_size(page)),
            !up ==> final(self)@ == Self::scrolled_down(old(self)@, step_size(page)),
    {
        let inc_or_dec: usize = if page {
            PAGE_STEP
        } else {
            LINE_STEP
        };
        if up {
            self.scroll_up(inc_or_dec);
        } else {
            self.scroll_down(inc_or_dec);
        }
    }

    /// Moves down by `inc_or_dec` positions.
    fn scroll_down(&mut self, inc_or_dec: usize)
        ensures
            final(self)@ == Self::scrolled_down(old(self)@, inc_or_dec as nat),
    ;

    /// Moves up by `inc_or_dec` positions.
    fn scroll_up(&mut self, inc_or_dec: usize)
        ensures
            final(self)@ == Self::scrolled_up(old(self)@, inc_or_dec as nat),
    ;
}

} // verus!
