//! The mathematical model of a text: characters, line breaks, lines and edits.
use vstd::prelude::*;

verus! {

/// The characters that end a line: LF, VT, FF, CR, NEL, LINE SEPARATOR and
/// PARAGRAPH SEPARATOR. A CR directly followed by an LF ends one line, not two.
pub open spec fn is_line_break_char(c: char) -> bool {
    c == '\n' || c == '\u{0B}' || c == '\u{0C}' || c == '\r' || c == '\u{85}' || c == '\u{2028}'
        || c == '\u{2029}'
}

/// A line ends just before position `p`, so a new line starts at `p`.
pub open spec fn ends_line_at(s: Seq<char>, p: int) -> bool {
    &&& 1 <= p <= s.len()
    &&& is_line_break_char(s[p - 1])
    &&& !(s[p - 1] == '\r' && p < s.len() && s[p] == '\n')
}

/// The number of line breaks that are complete before position `p`.
pub open spec fn breaks_before(s: Seq<char>, p: int) -> nat
    decreases p,
{
    if p <= 0 {
        0
    } else {
        breaks_before(s, p - 1) + if ends_line_at(s, p) {
            1nat
        } else {
            0nat
        }
    }
}

/// The number of lines: one more than the number of line breaks.
pub open spec fn line_count(s: Seq<char>) -> nat {
    breaks_before(s, s.len() as int) + 1
}

/// The line that holds the character at `c` (for `c == s.len()`, the last line).
pub open spec fn line_of_char(s: Seq<char>, c: int) -> nat {
    breaks_before(s, c)
}

/// The character index at which line `l` starts; `s.len()` for `l == line_count(s)`.
pub open spec fn line_start(s: Seq<char>, l: int) -> int {
    if l <= 0 {
        0
    } else if l >= line_count(s) {
        s.len() as int
    } else {
        choose|p: int| ends_line_at(s, p) && breaks_before(s, p) == l
    }
}

/// The text of line `l`, with its line break if it is not the last line.
pub open spec fn line_text(s: Seq<char>, l: int) -> Seq<char> {
    s.subrange(line_start(s, l), line_start(s, l + 1))
}

/// `t` spliced into `s` so that it begins at `i`.
pub open spec fn inserted(s: Seq<char>, i: int, t: Seq<char>) -> Seq<char> {
    s.subrange(0, i) + t + s.subrange(i, s.len() as int)
}

/// `s` without the characters in `[a, b)`.
pub open spec fn removed(s: Seq<char>, a: int, b: int) -> Seq<char> {
    s.subrange(0, a) + s.subrange(b, s.len() as int)
}

/// Breaks never disappear as the position moves right.
pub proof fn lemma_breaks_monotone(s: Seq<char>, p: int, q: int)
    requires
        p <= q,
    ensures
        breaks_before(s, p) <= breaks_before(s, q),
    decreases q - p,
{
    if p < q {
        lemma_breaks_monotone(s, p, q - 1);
    }
}

/// Every line after the first starts right after a line break, at a position
/// before which exactly that many breaks are complete.
pub proof fn lemma_line_start_exists(s: Seq<char>, l: int, q: int)
    requires
        1 <= l <= breaks_before(s, q),
        q <= s.len(),
    ensures
        exists|p: int| ends_line_at(s, p) && breaks_before(s, p) == l,
    decreases q,
{
    if breaks_before(s, q - 1) >= l {
        lemma_line_start_exists(s, l, q - 1);
    } else {
        assert(ends_line_at(s, q) && breaks_before(s, q) == l);
    }
}

/// `line_start` of an inner line is a position right after a break that
/// completes exactly that many breaks.
pub proof fn lemma_line_start_inner(s: Seq<char>, l: int)
    requires
        1 <= l < line_count(s),
    ensures
        ends_line_at(s, line_start(s, l)),
        breaks_before(s, line_start(s, l)) == l,
{
    lemma_line_start_exists(s, l, s.len() as int);
}

} // verus!
