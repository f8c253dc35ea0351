//! Laws that relate the buffer's operations, stated over the model of `text`.
use crate::text::{
    breaks_before, inserted, lemma_breaks_monotone, lemma_line_start_inner,
    line_count, line_of_char, line_start, removed,
};
use vstd::prelude::*;

verus! {

/// One edit of a text, as `TextBuffer::insert` and `TextBuffer::remove` make it.
pub enum Edit {
    Insert { at: int, text: Seq<char> },
    Remove { start: int, end: int },
}

/// Whether the edit is accepted on `s`.
pub open spec fn edit_accepted(s: Seq<char>, e: Edit) -> bool {
    match e {
        Edit::Insert { at, text } => 0 <= at <= s.len(),
        Edit::Remove { start, end } => 0 <= start <= end <= s.len(),
    }
}

/// The text after the edit.
pub open spec fn apply_edit(s: Seq<char>, e: Edit) -> Seq<char> {
    match e {
        Edit::Insert { at, text } => inserted(s, at, text),
        Edit::Remove { start, end } => removed(s, start, end),
    }
}

/// The text after the edits, in order.
pub open spec fn apply_edits(s: Seq<char>, edits: Seq<Edit>) -> Seq<char>
    decreases edits.len(),
{
    if edits.len() == 0 {
        s
    } else {
        apply_edit(apply_edits(s, edits.drop_last()), edits.last())
    }
}

/// Whether each edit is accepted on the text that the edits before it left.
pub open spec fn edits_accepted(s: Seq<char>, edits: Seq<Edit>) -> bool
    decreases edits.len(),
{
    if edits.len() == 0 {
        true
    } else {
        edits_accepted(s, edits.drop_last()) && edit_accepted(
            apply_edits(s, edits.drop_last()),
            edits.last(),
        )
    }
}

/// The number of characters that the edits insert.
pub open spec fn inserted_total(edits: Seq<Edit>) -> int
    decreases edits.len(),
{
    if edits.len() == 0 {
        0
    } else {
        inserted_total(edits.drop_last()) + match edits.last() {
            Edit::Insert { at, text } => text.len() as int,
            Edit::Remove { .. } => 0,
        }
    }
}

/// The number of characters that the edits remove.
pub open spec fn removed_total(edits: Seq<Edit>) -> int
    decreases edits.len(),
{
    if edits.len() == 0 {
        0
    } else {
        removed_total(edits.drop_last()) + match edits.last() {
            Edit::Insert { .. } => 0,
            Edit::Remove { start, end } => end - start,
        }
    }
}

/// Inserting `t` at `i` and then taking `[i, i + |t|)` gives back `t`.
pub proof fn lemma_insert_then_slice(s: Seq<char>, i: int, t: Seq<char>)
    requires
        0 <= i <= s.len(),
    ensures
        inserted(s, i, t).subrange(i, i + t.len()) == t,
        inserted(s, i, t).len() == s.len() + t.len(),
{
    assert(inserted(s, i, t).subrange(i, i + t.len()) =~= t);
}

/// Inserting at the end of the text appends.
pub proof fn lemma_insert_at_end_appends(s: Seq<char>, t: Seq<char>)
    ensures
        inserted(s, s.len() as int, t) == s + t,
{
    assert(inserted(s, s.len() as int, t) =~= s + t);
}

/// Removing `[a, b)` shortens the text by exactly `b - a`.
pub proof fn lemma_remove_length(s: Seq<char>, a: int, b: int)
    requires
        0 <= a <= b <= s.len(),
    ensures
        removed(s, a, b).len() == s.len() - (b - a),
{
}

/// After any accepted edits, the length is the original length plus what
/// was inserted minus what was removed.
pub proof fn lemma_length_after_edits(s: Seq<char>, edits: Seq<Edit>)
    requires
        edits_accepted(s, edits),
    ensures
        apply_edits(s, edits).len() == s.len() + inserted_total(edits) - removed_total(edits),
    decreases edits.len(),
{
    if edits.len() > 0 {
        lemma_length_after_edits(s, edits.drop_last());
    }
}

/// A text has one line more than it has line breaks; line 0 starts at 0 and
/// one past the last line stands for the end of the text.
pub proof fn lemma_line_counting(s: Seq<char>)
    ensures
        line_count(s) == breaks_before(s, s.len() as int) + 1,
        line_start(s, 0) == 0,
        line_start(s, line_count(s) as int) == s.len(),
{
}

/// Every character lies at or after the start of its line and before the
/// start of the next one (the end of the text, after the last line).
pub proof fn lemma_line_of_char_bounds(s: Seq<char>, c: int)
    requires
        0 <= c < s.len(),
    ensures
        line_of_char(s, c) < line_count(s),
        line_start(s, line_of_char(s, c) as int) <= c < line_start(s, line_of_char(s, c) + 1int),
{
    let l = breaks_before(s, c) as int;
    lemma_breaks_monotone(s, c, s.len() as int);
    if l >= 1 {
        lemma_line_start_inner(s, l);
        let p = line_start(s, l);
        if p > c {
            lemma_breaks_monotone(s, c, p - 1);
        }
    }
    if l + 1 < line_count(s) {
        lemma_line_start_inner(s, l + 1);
        let q = line_start(s, l + 1);
        if q <= c {
            lemma_breaks_monotone(s, q, c);
        }
    }
}

} // verus!
