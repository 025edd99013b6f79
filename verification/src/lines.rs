//! Text as a sequence of lines: how a block of text is cut at its line
//! breaks, and how the lines are put together again.

use vstd::prelude::*;

verus! {

/// The character that ends a line.
pub const LINE_BREAK: char = '\n';

/// The lines of `text`, cut at each line break. The breaks themselves
/// belong to no line. Read from the left: an empty text is one empty
/// line, a line break opens a new empty line, and any other character
/// extends the last line.
pub open spec fn split_lines(text: Seq<char>) -> Seq<Seq<char>>
    decreases text.len(),
{
    if text.len() == 0 {
        seq![Seq::empty()]
    } else {
        let before = split_lines(text.drop_last());
        if text.last() == LINE_BREAK {
            before.push(Seq::empty())
        } else {
            before.drop_last().push(before.last().push(text.last()))
        }
    }
}

/// The lines put together, with one line break between each two.
pub open spec fn join_lines(lines: Seq<Seq<char>>) -> Seq<char>
    decreases lines.len(),
{
    if lines.len() == 0 {
        Seq::empty()
    } else if lines.len() == 1 {
        lines[0]
    } else {
        join_lines(lines.drop_last()) + seq![LINE_BREAK] + lines.last()
    }
}

/// No line break occurs in `line`.
pub open spec fn unbroken(line: Seq<char>) -> bool {
    forall|i: int| 0 <= i < line.len() ==> line[i] != LINE_BREAK
}

/// Cutting a text gives at least one line, and none of them holds a line
/// break.
pub proof fn lemma_split_lines_unbroken(text: Seq<char>)
    ensures
        split_lines(text).len() >= 1,
        forall|k: int| 0 <= k < split_lines(text).len() ==> unbroken(#[trigger] split_lines(text)[k]),
    decreases text.len(),
{
    if text.len() > 0 {
        lemma_split_lines_unbroken(text.drop_last());
    }
}

/// Round trip: the lines of a text, joined again, are the text.
pub proof fn lemma_join_split(text: Seq<char>)
    ensures
        join_lines(split_lines(text)) == text,
    decreases text.len(),
{
    if text.len() > 0 {
        let shorter = text.drop_last();
        let before = split_lines(shorter);
        lemma_join_split(shorter);
        lemma_split_lines_unbroken(shorter);
        assert(shorter.push(text.last()) == text);
        if text.last() == LINE_BREAK {
            // A new empty line: the join gains the line break.
            assert(before.push(Seq::empty()).drop_last() == before);
        } else if before.len() > 1 {
            // The last line grows: the join gains the character.
            let grown = before.last().push(text.last());
            assert(before.drop_last().push(grown).drop_last() == before.drop_last());
        }
    }
}

/// Cutting a text that ends in an unbroken stretch: the stretch extends
/// the last line of what comes before it.
proof fn lemma_split_append(text: Seq<char>, tail: Seq<char>)
    requires
        unbroken(tail),
    ensures
        split_lines(text + tail) == split_lines(text).drop_last().push(
            split_lines(text).last() + tail,
        ),
    decreases tail.len(),
{
    lemma_split_lines_unbroken(text);
    let lines = split_lines(text);
    if tail.len() == 0 {
        assert(text + tail == text);
        assert(lines.last() + tail == lines.last());
    } else {
        let shorter = tail.drop_last();
        lemma_split_append(text, shorter);
        assert((text + tail).drop_last() == text + shorter);
        assert((lines.last() + shorter).push(tail.last()) == lines.last() + tail);
    }
}

/// The other way round: lines without line breaks, at least one of them,
/// are what cutting their join gives. With `lemma_join_split` this makes
/// `split_lines` the one way to undo `join_lines`.
pub proof fn lemma_split_join(lines: Seq<Seq<char>>)
    requires
        lines.len() >= 1,
        forall|k: int| 0 <= k < lines.len() ==> unbroken(#[trigger] lines[k]),
    ensures
        split_lines(join_lines(lines)) == lines,
    decreases lines.len(),
{
    let empty = Seq::<char>::empty();
    if lines.len() == 1 {
        lemma_split_append(empty, lines[0]);
        assert(empty + lines[0] == lines[0]);
    } else {
        let earlier = lines.drop_last();
        lemma_split_join(earlier);
        // Up to and with the last line break, the join cuts into the
        // earlier lines and one empty line.
        let head = join_lines(earlier) + seq![LINE_BREAK];
        assert(head.drop_last() == join_lines(earlier));
        assert(split_lines(head) == earlier.push(empty));
        lemma_split_append(head, lines.last());
        assert(empty + lines.last() == lines.last());
    }
}

} // verus!
