use text_buffer::{BufferError, TextBuffer};

fn lines_of(b: &TextBuffer) -> Vec<String> {
    (0..b.len_lines()).map(|l| b.line(l).unwrap()).collect()
}

#[test]
fn scenario_two_lines_then_edits() {
    let mut b = TextBuffer::from_text("ab\ncd\n");
    assert_eq!(b.len_chars(), 6);
    assert_eq!(b.len_lines(), 3);
    assert_eq!(lines_of(&b), vec!["ab\n", "cd\n", ""]);
    assert_eq!(b.line_to_char(1), Ok(3));
    assert_eq!(b.char_to_line(4), Ok(1));
    assert_eq!(b.insert(2, "X"), Ok(()));
    assert_eq!(b.to_string(), "abX\ncd\n");
    assert_eq!(b.len_chars(), 7);
    assert_eq!(b.remove(0, 3), Ok(()));
    assert_eq!(b.to_string(), "\ncd\n");
}

#[test]
fn empty_buffer() {
    let b = TextBuffer::new();
    assert_eq!(b.len_chars(), 0);
    assert_eq!(b.len_lines(), 1);
    assert_eq!(b.len_bytes(), 0);
    assert_eq!(b.to_string(), "");
    assert_eq!(b.line(0), Ok(String::new()));
    assert_eq!(b.line_to_char(0), Ok(0));
    assert_eq!(b.line_to_char(1), Ok(0));
    assert_eq!(b.char_to_line(0), Ok(0));
    let e = TextBuffer::from_text("");
    assert_eq!(e.len_chars(), 0);
    assert_eq!(e.len_lines(), 1);
}

#[test]
fn round_trip_of_texts() {
    for s in ["", "a", "hello\nworld", "x\r\ny\rz", "h\u{e9}llo \u{1F600}\u{2028}end", "\n\n\n"] {
        assert_eq!(TextBuffer::from_text(s).to_string(), s);
    }
    let long: String = "line of text\n".repeat(20000);
    assert_eq!(TextBuffer::from_text(&long).to_string(), long);
}

#[test]
fn insert_at_end_appends() {
    let mut b = TextBuffer::from_text("abc");
    let n = b.len_chars();
    assert_eq!(b.insert(n, "def"), Ok(()));
    assert_eq!(b.to_string(), "abcdef");
}

#[test]
fn insert_then_slice_gives_inserted_text() {
    let mut b = TextBuffer::from_text("one two three");
    assert_eq!(b.insert(4, "\u{3b1}\u{3b2}\n"), Ok(()));
    assert_eq!(b.slice(4, 7), Ok("\u{3b1}\u{3b2}\n".to_string()));
    assert_eq!(b.to_string(), "one \u{3b1}\u{3b2}\ntwo three");
}

#[test]
fn remove_shortens_by_range_length() {
    let mut b = TextBuffer::from_text("0123456789");
    assert_eq!(b.remove(2, 7), Ok(()));
    assert_eq!(b.len_chars(), 5);
    assert_eq!(b.to_string(), "01789");
    assert_eq!(b.remove(3, 3), Ok(()));
    assert_eq!(b.len_chars(), 5);
}

#[test]
fn insert_past_end_is_out_of_range() {
    let mut b = TextBuffer::from_text("abc");
    assert_eq!(b.insert(4, "x"), Err(BufferError::OutOfRange));
    assert_eq!(b.to_string(), "abc");
    assert_eq!(b.len_chars(), 3);
    assert_eq!(b.len_lines(), 1);
}

#[test]
fn remove_errors_leave_buffer_intact() {
    let mut b = TextBuffer::from_text("ab\ncd");
    assert_eq!(b.remove(3, 2), Err(BufferError::InvalidRange));
    assert_eq!(b.remove(1, 6), Err(BufferError::OutOfRange));
    assert_eq!(b.to_string(), "ab\ncd");
    assert_eq!(b.len_lines(), 2);
    assert_eq!(b.line_to_char(1), Ok(3));
}

#[test]
fn query_errors() {
    let b = TextBuffer::from_text("ab\ncd");
    assert_eq!(b.slice(2, 1), Err(BufferError::InvalidRange));
    assert_eq!(b.slice(0, 6), Err(BufferError::OutOfRange));
    assert_eq!(b.char_at(5), Err(BufferError::OutOfRange));
    assert_eq!(b.line(2), Err(BufferError::OutOfRange));
    assert_eq!(b.line_len(2), Err(BufferError::OutOfRange));
    assert_eq!(b.line_to_char(3), Err(BufferError::OutOfRange));
    assert_eq!(b.char_to_line(6), Err(BufferError::OutOfRange));
}

#[test]
fn char_at_and_slice() {
    let b = TextBuffer::from_text("a\u{e9}\u{1F600}z");
    assert_eq!(b.char_at(0), Ok('a'));
    assert_eq!(b.char_at(2), Ok('\u{1F600}'));
    assert_eq!(b.char_at(3), Ok('z'));
    assert_eq!(b.slice(1, 3), Ok("\u{e9}\u{1F600}".to_string()));
    assert_eq!(b.slice(4, 4), Ok(String::new()));
}

#[test]
fn byte_length_counts_utf8() {
    let b = TextBuffer::from_text("a\u{e9}\u{20ac}\u{1F600}");
    assert_eq!(b.len_chars(), 4);
    assert_eq!(b.len_bytes(), 1 + 2 + 3 + 4);
}

#[test]
fn crlf_is_one_line_break() {
    let b = TextBuffer::from_text("a\r\nb\rc\nd");
    assert_eq!(b.len_lines(), 4);
    assert_eq!(lines_of(&b), vec!["a\r\n", "b\r", "c\n", "d"]);
    assert_eq!(b.char_to_line(1), Ok(0));
    assert_eq!(b.char_to_line(2), Ok(0));
    assert_eq!(b.char_to_line(3), Ok(1));
    assert_eq!(b.line_to_char(2), Ok(5));
    assert_eq!(b.line_len(0), Ok(3));
    assert_eq!(b.line_len(3), Ok(1));
}

#[test]
fn unicode_line_breaks() {
    let b = TextBuffer::from_text("a\u{2028}b\u{2029}c\u{85}d\u{0B}e\u{0C}f");
    assert_eq!(b.len_lines(), 6);
    assert_eq!(b.line(1), Ok("b\u{2029}".to_string()));
    assert_eq!(b.char_to_line(10), Ok(5));
}

#[test]
fn line_counting_and_sentinels() {
    let b = TextBuffer::from_text("x\ny\nz");
    assert_eq!(b.len_lines(), 3);
    assert_eq!(b.line_to_char(0), Ok(0));
    assert_eq!(b.line_to_char(3), Ok(b.len_chars()));
    assert_eq!(b.char_to_line(b.len_chars()), Ok(2));
}

#[test]
fn line_of_each_char_lies_within_its_line() {
    let b = TextBuffer::from_text("first\n\nthird line\r\nfourth");
    for c in 0..b.len_chars() {
        let l = b.char_to_line(c).unwrap();
        assert!(b.line_to_char(l).unwrap() <= c);
        assert!(c < b.line_to_char(l + 1).unwrap());
    }
}

#[test]
fn from_utf8_decodes_or_fails() {
    let b = TextBuffer::from_utf8("h\u{e9}\nx".as_bytes().to_vec()).unwrap();
    assert_eq!(b.to_string(), "h\u{e9}\nx");
    assert_eq!(b.len_lines(), 2);
    assert!(matches!(TextBuffer::from_utf8(vec![0x61, 0xff, 0x62]), Err(BufferError::DecodeFailure)));
    assert!(matches!(TextBuffer::from_utf8(vec![0xc3]), Err(BufferError::DecodeFailure)));
    assert_eq!(TextBuffer::from_utf8(Vec::new()).unwrap().len_chars(), 0);
}

#[test]
fn many_edits_on_a_large_document() {
    let base = "some text \u{e9}\n".repeat(100_000);
    let mut b = TextBuffer::from_text(&base);
    let mut model: Vec<char> = base.chars().collect();
    let mut seed: u64 = 12345;
    let mut next = |m: usize| {
        seed = seed.wrapping_mul(6364136223846793005).wrapping_add(1442695040888963407);
        ((seed >> 33) as usize) % m
    };
    let mut inserted_total: usize = 0;
    let mut removed_total: usize = 0;
    for step in 0..2000 {
        if step % 2 == 0 {
            let at = next(model.len() + 1);
            let text = "ins\u{1F600}\n";
            assert_eq!(b.insert(at, text), Ok(()));
            let tail: Vec<char> = model.split_off(at);
            model.extend(text.chars());
            model.extend(tail);
            inserted_total += 5;
        } else {
            let a = next(model.len() + 1);
            let e = a + next(model.len() - a + 1).min(50);
            assert_eq!(b.remove(a, e), Ok(()));
            model.drain(a..e);
            removed_total += e - a;
        }
    }
    assert_eq!(b.len_chars(), base.chars().count() + inserted_total - removed_total);
    assert_eq!(b.len_chars(), model.len());
    let s: String = model.iter().collect();
    assert_eq!(b.to_string(), s);
    assert_eq!(b.len_lines(), s.matches('\n').count() + 1);
}
