//! What this library relies on from the `ropey` crate and from std's UTF-8
//! decoding, each item naming the outside function it calls.
use crate::text::{breaks_before, inserted, line_count, line_start, line_text, removed};
use vstd::prelude::*;
use vstd::utf8::{decode_utf8, encode_utf8, valid_utf8};

verus! {

#[verifier::external_type_specification]
#[verifier::external_body]
pub struct ExRope(ropey::Rope);

/// The characters that a rope holds, in order.
pub uninterp spec fn rope_text(r: ropey::Rope) -> Seq<char>;

/// Relies on ropey::Rope::from_str: the rope holds exactly the characters of `text`.
#[verifier::external_body]
pub(crate) fn rope_from_str(text: &str) -> (r: ropey::Rope)
    ensures
        rope_text(r) == text@,
{
    ropey::Rope::from_str(text)
}

/// Relies on ropey::Rope::len_chars: the number of characters held.
#[verifier::external_body]
pub(crate) fn rope_len_chars(r: &ropey::Rope) -> (n: usize)
    ensures
        n == rope_text(*r).len(),
{
    r.len_chars()
}

/// Relies on ropey::Rope::len_lines: one more than the number of line breaks,
/// where a CR LF pair counts once.
#[verifier::external_body]
pub(crate) fn rope_len_lines(r: &ropey::Rope) -> (n: usize)
    ensures
        n == line_count(rope_text(*r)),
{
    r.len_lines()
}

/// Relies on ropey::Rope::bytes, an iterator over the UTF-8 encoding of the
/// text whose `len` is the number of bytes left, here all of them.
#[verifier::external_body]
pub(crate) fn rope_len_bytes(r: &ropey::Rope) -> (n: usize)
    ensures
        n == encode_utf8(rope_text(*r)).len(),
{
    r.bytes().len()
}

/// Relies on ropey::Rope::insert, which panics only for `char_idx > len_chars()`.
#[verifier::external_body]
pub(crate) fn rope_insert(r: &mut ropey::Rope, char_idx: usize, text: &str)
    requires
        char_idx <= rope_text(*old(r)).len(),
    ensures
        rope_text(*final(r)) == inserted(rope_text(*old(r)), char_idx as int, text@),
{
    r.insert(char_idx, text)
}

/// Relies on ropey::Rope::remove, which panics only for `start > end` or
/// `end > len_chars()`.
#[verifier::external_body]
pub(crate) fn rope_remove(r: &mut ropey::Rope, start: usize, end: usize)
    requires
        start <= end <= rope_text(*old(r)).len(),
    ensures
        rope_text(*final(r)) == removed(rope_text(*old(r)), start as int, end as int),
{
    r.remove(start..end)
}

/// Relies on ropey::Rope::slice, and on the `Display` of the slice, which
/// writes its characters in order.
#[verifier::external_body]
pub(crate) fn rope_slice_string(r: &ropey::Rope, start: usize, end: usize) -> (s: String)
    requires
        start <= end <= rope_text(*r).len(),
    ensures
        s@ == rope_text(*r).subrange(start as int, end as int),
{
    r.slice(start..end).to_string()
}

/// Relies on the `Display` of ropey::Rope, which writes its characters in order.
#[verifier::external_body]
pub(crate) fn rope_to_string(r: &ropey::Rope) -> (s: String)
    ensures
        s@ == rope_text(*r),
{
    r.to_string()
}

/// Relies on ropey::Rope::char, which panics only for `char_idx >= len_chars()`.
#[verifier::external_body]
pub(crate) fn rope_char(r: &ropey::Rope, char_idx: usize) -> (c: char)
    requires
        char_idx < rope_text(*r).len(),
    ensures
        c == rope_text(*r)[char_idx as int],
{
    r.char(char_idx)
}

/// Relies on ropey::Rope::line, the slice from the start of the line to the
/// start of the next (or to the end), collected from its `chars` iterator.
#[verifier::external_body]
pub(crate) fn rope_line_string(r: &ropey::Rope, line_idx: usize) -> (s: String)
    requires
        line_idx < line_count(rope_text(*r)),
    ensures
        s@ == line_text(rope_text(*r), line_idx as int),
{
    r.line(line_idx).chars().collect()
}

/// Relies on ropey::Rope::line and the `len_chars` of the slice it returns.
#[verifier::external_body]
pub(crate) fn rope_line_len(r: &ropey::Rope, line_idx: usize) -> (n: usize)
    requires
        line_idx < line_count(rope_text(*r)),
    ensures
        n == line_text(rope_text(*r), line_idx as int).len(),
{
    r.line(line_idx).len_chars()
}

/// Relies on ropey::Rope::line_to_char: the index of the first character of
/// the line, and the length of the text for one past the last line.
#[verifier::external_body]
pub(crate) fn rope_line_to_char(r: &ropey::Rope, line_idx: usize) -> (n: usize)
    requires
        line_idx <= line_count(rope_text(*r)),
    ensures
        n == line_start(rope_text(*r), line_idx as int),
{
    r.line_to_char(line_idx)
}

/// Relies on ropey::Rope::char_to_line: the number of line breaks complete
/// before the character, the last line for one past the end.
#[verifier::external_body]
pub(crate) fn rope_char_to_line(r: &ropey::Rope, char_idx: usize) -> (n: usize)
    requires
        char_idx <= rope_text(*r).len(),
    ensures
        n == breaks_before(rope_text(*r), char_idx as int),
{
    r.char_to_line(char_idx)
}

/// Relies on std's String::from_utf8: it succeeds exactly on valid UTF-8 and
/// then holds the decoded characters.
#[verifier::external_body]
pub(crate) fn string_from_utf8(bytes: Vec<u8>) -> (r: Option<String>)
    ensures
        r is Some <==> valid_utf8(bytes@),
        r matches Some(s) ==> s@ == decode_utf8(bytes@),
{
    match String::from_utf8(bytes) {
        Ok(s) => Some(s),
        Err(_) => None,
    }
}

} // verus!
