//! A pane of text that scrolls by lines and keeps its last two lines from
//! being scrolled out of reach.

use crate::lines::{
    join_lines, lemma_join_split, lemma_split_lines_unbroken, split_lines, unbroken, LINE_BREAK,
};
use crate::scroll::Scrollable;
use crate::selection::saturating_sub;
use vstd::prelude::*;
use vstd::string::StringExecFns;

verus! {

/// The number of lines kept below the furthest offset.
pub const GUARD_BAND: usize = 2;

/// A block of text held as its lines, and the line that the pane starts
/// at.
#[derive(Debug, PartialEq, Eq)]
pub struct ScrollableTxt {
    pub items: Vec<String>,
    pub offset: u16,
}

/// What a text pane is to its contracts: the characters of each line,
/// and the offset.
pub struct TextView {
    pub lines: Seq<Seq<char>>,
    pub offset: nat,
}

impl TextView {
    /// The guard band: the pane is at the top, or more than two lines lie
    /// at or below its offset.
    pub open spec fn guarded(self) -> bool {
        self.offset == 0 || self.offset + GUARD_BAND < self.lines.len()
    }

    /// The same lines seen from `offset`.
    pub open spec fn at(self, offset: nat) -> TextView {
        TextView { lines: self.lines, offset }
    }

    /// Moving down by `n`: only while the offset is below the length less
    /// `n + 2`, and no further than an offset can count.
    pub open spec fn scroll_down(self, n: nat) -> TextView {
        if self.offset < saturating_sub(self.lines.len(), n + GUARD_BAND as nat) {
            if self.offset + n <= u16::MAX {
                self.at(self.offset + n)
            } else {
                self.at(u16::MAX as nat)
            }
        } else {
            self
        }
    }

    /// Moving up by `n`, no further than the top.
    pub open spec fn scroll_up(self, n: nat) -> TextView {
        self.at(saturating_sub(self.offset, n))
    }
}

/// The guard band. A move down that changes the offset leaves more than
/// two lines at or below it; a pane that is at the top or has more than
/// two lines at or below its offset stays so under every move; and no
/// move changes the lines.
pub proof fn lemma_guard_band(pane: TextView, n: nat)
    ensures
        pane.scroll_down(n).offset != pane.offset ==> pane.scroll_down(n).offset + GUARD_BAND
            < pane.lines.len(),
        pane.guarded() ==> pane.scroll_down(n).guarded() && pane.scroll_up(n).guarded(),
        pane.scroll_down(n).offset <= pane.offset + n,
        pane.scroll_up(n).offset <= pane.offset,
        pane.scroll_down(n).lines == pane.lines,
        pane.scroll_up(n).lines == pane.lines,
{
}

/// The characters of each of `items`, in order.
pub open spec fn lines_of(items: Seq<String>) -> Seq<Seq<char>> {
    Seq::new(items.len(), |i: int| items[i]@)
}

impl View for ScrollableTxt {
    type V = TextView;

    open spec fn view(&self) -> TextView {
        TextView { lines: lines_of(self.items@), offset: self.offset as nat }
    }
}

impl Default for ScrollableTxt {
    /// A pane without lines, at the top.
    fn default() -> (txt: ScrollableTxt)
        ensures
            txt@ == (TextView { lines: Seq::empty(), offset: 0 }),
            txt@.guarded(),
    {
        let txt = ScrollableTxt { items: Vec::new(), offset: 0 };
        assert(txt@.lines =~= Seq::<Seq<char>>::empty());
        txt
    }
}

impl ScrollableTxt {
    /// A pane over the lines of `item`, at the top. There is at least one
    /// line, no line holds a line break, and joined again the lines are
    /// `item`.
    pub fn new(item: String) -> (txt: ScrollableTxt)
        ensures
            txt@ == (TextView { lines: split_lines(item@), offset: 0 }),
            txt@.guarded(),
            txt@.lines.len() >= 1,
            forall|k: int| 0 <= k < txt@.lines.len() ==> unbroken(#[trigger] txt@.lines[k]),
            join_lines(txt@.lines) == item@,
    {
        broadcast use vstd::string::group_string_axioms;

        proof {
            lemma_split_lines_unbroken(item@);
            lemma_join_split(item@);
        }

        let mut items: Vec<String> = Vec::new();
        let mut line = String::new();
        let chars = item.as_str().chars();
        for c in it: chars
            invariant
                it.seq() == item@,
                lines_of(items@).push(line@) == split_lines(item@.take(it.index())),
        {
            // The text read so far, less `c`, is what the invariant speaks of.
            assert(item@.take(it.index() + 1).drop_last() == item@.take(it.index()));
            if c == LINE_BREAK {
                items.push(line);
                line = String::new();
            } else {
                line.push(c);
            }
        }
        assert(item@.take(item@.len() as int) == item@);
        assert(lines_of(items@.push(line)) == lines_of(items@).push(line@));
        items.push(line);
        ScrollableTxt { items, offset: 0 }
    }

    /// The whole text: the lines with a line break between each two.
    pub fn get_txt(&self) -> (text: String)
        ensures
            text@ == join_lines(self@.lines),
    {
        let mut text = String::new();
        let mut i: usize = 0;
        while i < self.items.len()
            invariant
                i <= self.items.len(),
                text@ == join_lines(self@.lines.take(i as int)),
            decreases self.items.len() - i,
        {
            // The lines up to and with this one, less this one, are those joined so far.
            assert(self@.lines.take(i + 1).drop_last() == self@.lines.take(i as int));
            if i > 0 {
                text.push(LINE_BREAK);
            }
            text.append(self.items[i].as_str());
            i += 1;
        }
        assert(self@.lines.take(i as int) == self@.lines);
        text
    }
}

impl Scrollable for ScrollableTxt {
    open spec fn scrolled_down(model: TextView, n: nat) -> TextView {
        model.scroll_down(n)
    }

    open spec fn scrolled_up(model: TextView, n: nat) -> TextView {
        model.scroll_up(n)
    }

    /// Moves the pane `increment` lines down, unless that would bring it
    /// within two lines of the end.
    fn scroll_down(&mut self, increment: usize)
        ensures
            final(self)@ == old(self)@.scroll_down(increment as nat),
            old(self)@.guarded() ==> final(self)@.guarded(),
            final(self)@.offset != old(self)@.offset ==> final(self)@.offset + GUARD_BAND
                < final(self)@.lines.len(),
    {
        let limit: usize = self.items.len().saturating_sub(increment.saturating_add(GUARD_BAND));
        if (self.offset as usize) < limit {
            let target: usize = self.offset as usize + increment;
            self.offset = if target > u16::MAX as usize {
                u16::MAX
            } else {
                target as u16
            };
        }
    }

    /// Moves the pane `decrement` lines up, no further than the top.
    fn scroll_up(&mut self, decrement: usize)
        ensures
            final(self)@ == old(self)@.scroll_up(decrement as nat),
            old(self)@.guarded() ==> final(self)@.guarded(),
    {
        if self.offset > 0 {
            self.offset = (self.offset as usize).saturating_sub(decrement) as u16;
        }
    }
}

} // verus!
