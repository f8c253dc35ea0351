//! The text buffer: a rope of characters edited in place and queried by
//! character and line index.
use crate::rope_specs::{
    rope_char, rope_char_to_line, rope_from_str, rope_insert, rope_len_bytes, rope_len_chars,
    rope_len_lines, rope_line_len, rope_line_string, rope_line_to_char, rope_remove,
    rope_slice_string, rope_text, rope_to_string, string_from_utf8,
};
use crate::text::{inserted, line_count, line_of_char, line_start, line_text, removed};
use vstd::prelude::*;
use vstd::utf8::{decode_utf8, encode_utf8, valid_utf8};

verus! {

/// Why an operation on a buffer was refused.
#[derive(Debug, Clone, Copy, PartialEq, Eq, Structural)]
pub enum BufferError {
    /// An index lies past the end of the text or of its lines.
    OutOfRange,
    /// A range whose start lies after its end.
    InvalidRange,
    /// The source of the text could not be read.
    IoFailure,
    /// The bytes given are not valid UTF-8.
    DecodeFailure,
}

/// A mutable text, addressed by character index and by line index.
pub struct TextBuffer {
    rope: ropey::Rope,
}

impl View for TextBuffer {
    type V = Seq<char>;

    closed spec fn view(&self) -> Seq<char> {
        rope_text(self.rope)
    }
}

impl TextBuffer {
    /// An empty buffer.
    pub fn new() -> (r: Self)
        ensures
            r@ == Seq::<char>::empty(),
    {
        proof {
            reveal_strlit("");
        }
        let r = TextBuffer { rope: rope_from_str("") };
        assert(r@ =~= Seq::<char>::empty());
        r
    }

    /// A buffer holding exactly the characters of `text`.
    pub fn from_text(text: &str) -> (r: Self)
        ensures
            r@ == text@,
    {
        TextBuffer { rope: rope_from_str(text) }
    }

    /// A buffer holding the text that `bytes` encode in UTF-8; fails with
    /// `DecodeFailure` exactly when they are not valid UTF-8.
    pub fn from_utf8(bytes: Vec<u8>) -> (r: Result<Self, BufferError>)
        ensures
            r is Ok <==> valid_utf8(bytes@),
            r matches Ok(b) ==> b@ == decode_utf8(bytes@),
            r matches Err(e) ==> e == BufferError::DecodeFailure,
    {
        match string_from_utf8(bytes) {
            Some(s) => Ok(TextBuffer { rope: rope_from_str(s.as_str()) }),
            None => Err(BufferError::DecodeFailure),
        }
    }

    /// The number of characters.
    pub fn len_chars(&self) -> (n: usize)
        ensures
            n == self@.len(),
    {
        rope_len_chars(&self.rope)
    }

    /// The number of lines: one more than the number of line breaks.
    pub fn len_lines(&self) -> (n: usize)
        ensures
            n == line_count(self@),
    {
        rope_len_lines(&self.rope)
    }

    /// The number of bytes of the text's UTF-8 encoding.
    pub fn len_bytes(&self) -> (n: usize)
        ensures
            n == encode_utf8(self@).len(),
    {
        rope_len_bytes(&self.rope)
    }

    /// Splices `text` in so that it begins at `char_idx`; an index past the
    /// end is refused and leaves the buffer as it was.
    pub fn insert(&mut self, char_idx: usize, text: &str) -> (r: Result<(), BufferError>)
        ensures
            r is Ok <==> char_idx <= old(self)@.len(),
            r is Ok ==> final(self)@ == inserted(old(self)@, char_idx as int, text@),
            r matches Err(e) ==> e == BufferError::OutOfRange && final(self)@ == old(self)@,
    {
        if char_idx > rope_len_chars(&self.rope) {
            return Err(BufferError::OutOfRange);
        }
        rope_insert(&mut self.rope, char_idx, text);
        Ok(())
    }

    /// Deletes the characters in `[start, end)`. A start after the end gives
    /// `InvalidRange`, an end past the text `OutOfRange`; either way the
    /// buffer stays as it was.
    pub fn remove(&mut self, start: usize, end: usize) -> (r: Result<(), BufferError>)
        ensures
            r is Ok <==> start <= end <= old(self)@.len(),
            r is Ok ==> final(self)@ == removed(old(self)@, start as int, end as int),
            r matches Err(e) ==> final(self)@ == old(self)@ && (e == BufferError::InvalidRange
                <==> start > end) && (e == BufferError::OutOfRange <==> start <= end),
    {
        if start > end {
            return Err(BufferError::InvalidRange);
        }
        if end > rope_len_chars(&self.rope) {
            return Err(BufferError::OutOfRange);
        }
        rope_remove(&mut self.rope, start, end);
        Ok(())
    }

    /// A copy of the characters in `[start, end)`, refused as `remove` refuses.
    pub fn slice(&self, start: usize, end: usize) -> (r: Result<String, BufferError>)
        ensures
            r is Ok <==> start <= end <= self@.len(),
            r matches Ok(s) ==> s@ == self@.subrange(start as int, end as int),
            r matches Err(e) ==> (e == BufferError::InvalidRange <==> start > end) && (e
                == BufferError::OutOfRange <==> start <= end),
    {
        if start > end {
            return Err(BufferError::InvalidRange);
        }
        if end > rope_len_chars(&self.rope) {
            return Err(BufferError::OutOfRange);
        }
        Ok(rope_slice_string(&self.rope, start, end))
    }

    /// The whole text.
    pub fn to_string(&self) -> (s: String)
        ensures
            s@ == self@,
    {
        rope_to_string(&self.rope)
    }

    /// The character at `char_idx`, which must lie before the end.
    pub fn char_at(&self, char_idx: usize) -> (r: Result<char, BufferError>)
        ensures
            r is Ok <==> char_idx < self@.len(),
            r matches Ok(c) ==> c == self@[char_idx as int],
            r matches Err(e) ==> e == BufferError::OutOfRange,
    {
        if char_idx >= rope_len_chars(&self.rope) {
            return Err(BufferError::OutOfRange);
        }
        Ok(rope_char(&self.rope, char_idx))
    }

    /// The text of line `line_idx`, its line break included.
    pub fn line(&self, line_idx: usize) -> (r: Result<String, BufferError>)
        ensures
            r is Ok <==> line_idx < line_count(self@),
            r matches Ok(s) ==> s@ == line_text(self@, line_idx as int),
            r matches Err(e) ==> e == BufferError::OutOfRange,
    {
        if line_idx >= rope_len_lines(&self.rope) {
            return Err(BufferError::OutOfRange);
        }
        Ok(rope_line_string(&self.rope, line_idx))
    }

    /// The number of characters of line `line_idx`, its line break included.
    pub fn line_len(&self, line_idx: usize) -> (r: Result<usize, BufferError>)
        ensures
            r is Ok <==> line_idx < line_count(self@),
            r matches Ok(n) ==> n == line_text(self@, line_idx as int).len(),
            r matches Err(e) ==> e == BufferError::OutOfRange,
    {
        if line_idx >= rope_len_lines(&self.rope) {
            return Err(BufferError::OutOfRange);
        }
        Ok(rope_line_len(&self.rope, line_idx))
    }

    /// The index of the first character of line `line_idx`; for one past the
    /// last line, the length of the text.
    pub fn line_to_char(&self, line_idx: usize) -> (r: Result<usize, BufferError>)
        ensures
            r is Ok <==> line_idx <= line_count(self@),
            r matches Ok(n) ==> n == line_start(self@, line_idx as int),
            r matches Err(e) ==> e == BufferError::OutOfRange,
    {
        if line_idx > rope_len_lines(&self.rope) {
            return Err(BufferError::OutOfRange);
        }
        Ok(rope_line_to_char(&self.rope, line_idx))
    }

    /// The line that holds the character at `char_idx`; for the end of the
    /// text, the last line.
    pub fn char_to_line(&self, char_idx: usize) -> (r: Result<usize, BufferError>)
        ensures
            r is Ok <==> char_idx <= self@.len(),
            r matches Ok(n) ==> n == line_of_char(self@, char_idx as int),
            r matches Err(e) ==> e == BufferError::OutOfRange,
    {
        if char_idx > rope_len_chars(&self.rope) {
            return Err(BufferError::OutOfRange);
        }
        Ok(rope_char_to_line(&self.rope, char_idx))
    }
}

} // verus!
