//! The mathematical model of a selectable collection.
//!
//! A list and a table are both seen as a sequence of items together with
//! the index of the selected one, if any. The moves that the two make on
//! that index are defined here, once, as functions on the model.

use crate::scroll::step_size;
use vstd::prelude::*;

verus! {

/// `a - b`, or zero where `b` exceeds `a`.
pub open spec fn saturating_sub(a: nat, b: nat) -> nat {
    if a >= b {
        (a - b) as nat
    } else {
        0
    }
}

/// Items in order, and the index of the selected one, if any.
pub struct Selection<T> {
    pub items: Seq<T>,
    pub selected: Option<nat>,
}

impl<T> Selection<T> {
    /// The number of items.
    pub open spec fn len(self) -> nat {
        self.items.len()
    }

    /// The bounds invariant: nothing is selected exactly when there are no
    /// items, and a selected index points at an item.
    pub open spec fn in_bounds(self) -> bool {
        match self.selected {
            Some(i) => i < self.len(),
            None => self.len() == 0,
        }
    }

    /// The state of a collection just made from `items`: the first item is
    /// selected if there is one.
    pub open spec fn fresh(items: Seq<T>) -> Self {
        Selection {
            items,
            selected: if items.len() > 0 {
                Some(0nat)
            } else {
                None
            },
        }
    }

    /// The index a move starts from: the selected one, or zero where
    /// nothing is selected.
    pub open spec fn cursor(self) -> nat {
        match self.selected {
            Some(i) => i,
            None => 0,
        }
    }

    /// The same items with `index` selected.
    pub open spec fn select(self, index: nat) -> Self {
        Selection { items: self.items, selected: Some(index) }
    }

    /// Cyclic move towards the end: from an index at or past the length
    /// less `n` it lands on the first item, from elsewhere `n` later.
    pub open spec fn wrap_down(self, n: nat) -> Self {
        let i = self.cursor();
        if i >= saturating_sub(self.len(), n) {
            self.select(0)
        } else {
            self.select(i + n)
        }
    }

    /// Cyclic move towards the start: from the first item it lands `n`
    /// short of the length, from elsewhere `n` earlier, never below zero.
    pub open spec fn wrap_up(self, n: nat) -> Self {
        let i = self.cursor();
        if i == 0 {
            self.select(saturating_sub(self.len(), n))
        } else {
            self.select(saturating_sub(i, n))
        }
    }

    /// Clamped move towards the end: `n` later where that is still an
    /// item, else the last item. Without a selection nothing moves.
    pub open spec fn clamp_down(self, n: nat) -> Self {
        match self.selected {
            Some(i) => if i + n < self.len() {
                self.select(i + n)
            } else {
                self.select(saturating_sub(self.len(), 1))
            },
            None => self,
        }
    }

    /// Clamped move towards the start: `n` earlier, never below zero.
    /// Without a selection nothing moves.
    pub open spec fn clamp_up(self, n: nat) -> Self {
        match self.selected {
            Some(i) => self.select(saturating_sub(i, n)),
            None => self,
        }
    }

    /// Replacement that keeps the place: with no items left nothing is
    /// selected; else the old index stays where it still points at an
    /// item, falls back to the last item where it does not, and the first
    /// item is selected where nothing was.
    pub open spec fn replace(self, items: Seq<T>) -> Self {
        if items.len() == 0 {
            Selection { items, selected: None }
        } else {
            match self.selected {
                Some(i) => if i < items.len() {
                    Selection { items, selected: Some(i) }
                } else {
                    Selection { items, selected: Some((items.len() - 1) as nat) }
                },
                None => Selection { items, selected: Some(0nat) },
            }
        }
    }
}

/// One operation on a list: a move by a number of positions.
pub enum ListOp {
    ScrollDown(nat),
    ScrollUp(nat),
}

/// One operation on a table: new rows, or a move by a number of
/// positions.
pub enum TableOp<T> {
    Replace(Seq<T>),
    ScrollDown(nat),
    ScrollUp(nat),
}

impl<T> Selection<T> {
    /// The state of a list after `op`.
    pub open spec fn list_op(self, op: ListOp) -> Self {
        match op {
            ListOp::ScrollDown(n) => self.wrap_down(n),
            ListOp::ScrollUp(n) => self.wrap_up(n),
        }
    }

    /// The state of a list after `ops`, first to last.
    pub open spec fn list_ops(self, ops: Seq<ListOp>) -> Self
        decreases ops.len(),
    {
        if ops.len() == 0 {
            self
        } else {
            self.list_ops(ops.drop_last()).list_op(ops.last())
        }
    }

    /// The one move that takes the selection of a list with items past
    /// its end: up by zero positions from the first item.
    pub open spec fn idles_at_top(self, op: ListOp) -> bool {
        op == ListOp::ScrollUp(0) && self.cursor() == 0
    }

    /// The state of a table after `op`.
    pub open spec fn table_op(self, op: TableOp<T>) -> Self {
        match op {
            TableOp::Replace(items) => self.replace(items),
            TableOp::ScrollDown(n) => self.clamp_down(n),
            TableOp::ScrollUp(n) => self.clamp_up(n),
        }
    }

    /// The state of a table after `ops`, first to last.
    pub open spec fn table_ops(self, ops: Seq<TableOp<T>>) -> Self
        decreases ops.len(),
    {
        if ops.len() == 0 {
            self
        } else {
            self.table_ops(ops.drop_last()).table_op(ops.last())
        }
    }
}

/// A collection just made is within its bounds.
pub proof fn lemma_fresh_in_bounds<T>(items: Seq<T>)
    ensures
        Selection::fresh(items).in_bounds(),
        Selection::fresh(items).items == items,
{
}

/// A list with items stays within its bounds under every move but the
/// one of `idles_at_top`, and keeps its items.
pub proof fn lemma_list_op_in_bounds<T>(list: Selection<T>, op: ListOp)
    requires
        list.in_bounds(),
        list.len() > 0,
        !list.idles_at_top(op),
    ensures
        list.list_op(op).in_bounds(),
        list.list_op(op).items == list.items,
{
}

/// A table stays within its bounds under every operation, whatever it
/// held before new rows came.
pub proof fn lemma_table_op_in_bounds<T>(table: Selection<T>, op: TableOp<T>)
    requires
        table.in_bounds() || op is Replace,
    ensures
        table.table_op(op).in_bounds(),
{
}

/// A list with items stays within its bounds under every step command,
/// a line or a page, up or down.
pub proof fn lemma_list_step_in_bounds<T>(list: Selection<T>, up: bool, page: bool)
    requires
        list.in_bounds(),
        list.len() > 0,
    ensures
        up ==> list.wrap_up(step_size(page)).in_bounds(),
        !up ==> list.wrap_down(step_size(page)).in_bounds(),
{
}

/// The bounds invariant of a list: made from at least one item, it is
/// within its bounds after any sequence of moves none of which idles at
/// the top.
pub proof fn lemma_list_bounds_invariant<T>(items: Seq<T>, ops: Seq<ListOp>)
    requires
        items.len() > 0,
        forall|k: int|
            0 <= k < ops.len() ==> !(#[trigger] Selection::fresh(items).list_ops(
                ops.take(k),
            )).idles_at_top(ops[k]),
    ensures
        Selection::fresh(items).list_ops(ops).in_bounds(),
        Selection::fresh(items).list_ops(ops).items == items,
    decreases ops.len(),
{
    if ops.len() > 0 {
        let earlier = ops.drop_last();
        assert forall|k: int| 0 <= k < earlier.len() implies !(#[trigger] Selection::fresh(
            items,
        ).list_ops(earlier.take(k))).idles_at_top(earlier[k]) by {
            assert(earlier.take(k) == ops.take(k));
        }
        lemma_list_bounds_invariant(items, earlier);
        assert(ops.take(ops.len() - 1) == earlier);
        lemma_list_op_in_bounds(Selection::fresh(items).list_ops(earlier), ops.last());
    }
}

/// The bounds invariant of a table: made from any items, it is within
/// its bounds after any sequence of replacements and moves.
pub proof fn lemma_table_bounds_invariant<T>(items: Seq<T>, ops: Seq<TableOp<T>>)
    ensures
        Selection::fresh(items).table_ops(ops).in_bounds(),
    decreases ops.len(),
{
    if ops.len() > 0 {
        lemma_table_bounds_invariant(items, ops.drop_last());
        lemma_table_op_in_bounds(Selection::fresh(items).table_ops(ops.drop_last()), ops.last());
    }
}

/// How a list wraps. From a selected index `i` among `len` items, moving
/// down by `n` gives zero where `i` is at least `len - n` and `i + n`
/// elsewhere; moving up by `n` gives `len - n` from zero and `i - n`
/// from elsewhere, differences taken as zero where they would be
/// negative. Zero comes out of a move down only by wrapping, unless the
/// move is from zero by zero among items; `len - n` comes out of a move
/// up only by wrapping, unless `i` is `len` or `n` reaches both `i` and
/// `len`.
pub proof fn lemma_list_wrap<T>(list: Selection<T>, i: nat, n: nat)
    requires
        list.selected == Some(i),
    ensures
        list.wrap_down(n).selected == Some(
            if i >= saturating_sub(list.len(), n) {
                0
            } else {
                i + n
            },
        ),
        list.wrap_up(n).selected == Some(
            if i == 0 {
                saturating_sub(list.len(), n)
            } else {
                saturating_sub(i, n)
            },
        ),
        i + n > 0 || list.len() == 0 ==> (list.wrap_down(n).selected == Some(0nat) <==> i
            >= saturating_sub(list.len(), n)),
        i == 0 || (i != list.len() && (n < i || n < list.len())) ==> (list.wrap_up(n).selected
            == Some(saturating_sub(list.len(), n)) <==> i == 0),
{
}

/// How a table stops at its ends. Within bounds, a move down never
/// selects an index at or past the length; from the last row any move
/// down stays there; from the first row any move up stays there.
pub proof fn lemma_table_clamp<T>(table: Selection<T>, n: nat)
    requires
        table.in_bounds(),
    ensures
        table.clamp_down(n).selected matches Some(j) ==> j < table.len(),
        table.selected == Some((table.len() - 1) as nat) ==> table.clamp_down(n).selected
            == table.selected,
        table.selected == Some(0nat) ==> table.clamp_up(n).selected == Some(0nat),
        table.selected is None ==> table.clamp_down(n) == table && table.clamp_up(n) == table,
{
}

} // verus!
