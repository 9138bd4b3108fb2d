use hecto::buffer::Buffer;
use hecto::line::Line;
use hecto::location::Location;

fn line_texts(buffer: &Buffer) -> Vec<String> {
    buffer.lines.iter().map(|l| l.text()).collect()
}

#[test]
fn line_from_segments_clusters() {
    let line = Line::from("e\u{301}a\u{310}x");
    assert_eq!(line.grapheme_count(), 3);
    assert_eq!(line.text(), "e\u{301}a\u{310}x");
    assert_eq!(Line::from("").grapheme_count(), 0);
}

#[test]
fn width_until_counts_columns() {
    let line = Line::from("a你b");
    assert_eq!(line.width_until(0), 0);
    assert_eq!(line.width_until(1), 1);
    assert_eq!(line.width_until(2), 3);
    assert_eq!(line.width_until(3), 4);
    assert_eq!(line.width_until(99), 4);
}

#[test]
fn width_until_never_decreases() {
    let line = Line::from("a你b好c\u{301}");
    let widths: Vec<usize> = (0..=line.grapheme_count()).map(|i| line.width_until(i)).collect();
    for pair in widths.windows(2) {
        assert!(pair[0] <= pair[1]);
    }
}

#[test]
fn visible_graphemes_clip_wide_clusters() {
    let line = Line::from("a你b好c");
    assert_eq!(line.get_visible_graphemes(0..7), "a你b好c");
    assert_eq!(line.get_visible_graphemes(0..2), "a");
    assert_eq!(line.get_visible_graphemes(2..5), "b");
    assert_eq!(line.get_visible_graphemes(1..6), "你b好");
    assert_eq!(line.get_visible_graphemes(3..3), "");
    assert_eq!(line.get_visible_graphemes(5..2), "");
    assert_eq!(line.get_visible_graphemes(6..100), "c");
}

#[test]
fn line_edits() {
    let mut line = Line::from("abc");
    line.insert_char('x', 1);
    assert_eq!(line.text(), "axbc");
    line.insert_char('y', 4);
    assert_eq!(line.text(), "axbcy");
    line.insert_char('z', 9);
    assert_eq!(line.text(), "axbcy");
    line.delete(0);
    assert_eq!(line.text(), "xbcy");
    line.delete(4);
    assert_eq!(line.text(), "xbcy");
    let rest = line.split(1);
    assert_eq!(line.text(), "x");
    assert_eq!(rest.text(), "bcy");
    let none = line.split(5);
    assert_eq!(none.grapheme_count(), 0);
    line.append(&rest);
    assert_eq!(line.text(), "xbcy");
    assert_eq!(line.grapheme_count(), 4);
}

#[test]
fn load_splits_lines() {
    let b = Buffer::load_from("f", "one\r\ntwo\n\nthree");
    assert_eq!(line_texts(&b), vec!["one", "two", "", "three"]);
    assert!(!b.dirty);
    assert_eq!(b.file_info.path.as_deref(), Some("f"));
    assert_eq!(line_texts(&Buffer::load_from("f", "a\n")), vec!["a"]);
    assert!(Buffer::load_from("f", "").is_empty());
    assert_eq!(line_texts(&Buffer::load_from("f", "a\r")), vec!["a\r"]);
}

#[test]
fn save_then_load_round_trips() {
    let lines = vec!["first", "sécond 你好", "", "x"];
    let mut b = Buffer::new();
    for (i, l) in lines.iter().enumerate() {
        b.insert_newline(Location { line_index: i, grapheme_index: 0 });
        for (j, c) in l.chars().enumerate() {
            b.insert_char(c, Location { line_index: i, grapheme_index: j });
        }
    }
    assert_eq!(line_texts(&b), lines);
    let text = b.contents();
    assert_eq!(text, "first\nsécond 你好\n\nx\n");
    let back = Buffer::load_from("f", &text);
    assert_eq!(line_texts(&back), lines);
}

#[test]
fn buffer_insert_cases() {
    let mut b = Buffer::load_from("f", "ab");
    b.insert_char('z', Location { line_index: 3, grapheme_index: 0 });
    assert_eq!(line_texts(&b), vec!["ab"]);
    assert!(!b.dirty);
    b.insert_char('c', Location { line_index: 0, grapheme_index: 2 });
    assert_eq!(line_texts(&b), vec!["abc"]);
    assert!(b.dirty);
    b.insert_char('d', Location { line_index: 1, grapheme_index: 0 });
    assert_eq!(line_texts(&b), vec!["abc", "d"]);
    assert_eq!(b.height(), 2);
}

#[test]
fn buffer_delete_cases() {
    let mut b = Buffer::load_from("f", "abc\ndef");
    b.delete(Location { line_index: 1, grapheme_index: 3 });
    assert_eq!(line_texts(&b), vec!["abc", "def"]);
    assert!(!b.dirty);
    b.delete(Location { line_index: 5, grapheme_index: 0 });
    assert!(!b.dirty);
    b.delete(Location { line_index: 0, grapheme_index: 7 });
    assert_eq!(line_texts(&b), vec!["abcdef"]);
    assert!(b.dirty);
    b.delete(Location { line_index: 0, grapheme_index: 1 });
    assert_eq!(line_texts(&b), vec!["acdef"]);
}

#[test]
fn buffer_newline_cases() {
    let mut b = Buffer::load_from("f", "abcdef");
    b.insert_newline(Location { line_index: 0, grapheme_index: 3 });
    assert_eq!(line_texts(&b), vec!["abc", "def"]);
    b.insert_newline(Location { line_index: 2, grapheme_index: 0 });
    assert_eq!(line_texts(&b), vec!["abc", "def", ""]);
    b.insert_newline(Location { line_index: 1, grapheme_index: 9 });
    assert_eq!(line_texts(&b), vec!["abc", "def", "", ""]);
    let before = line_texts(&b);
    let mut c = Buffer::load_from("f", "x");
    c.insert_newline(Location { line_index: 4, grapheme_index: 0 });
    assert_eq!(line_texts(&c), vec!["x"]);
    assert!(!c.dirty);
    assert_eq!(before.len(), 4);
}

#[test]
fn save_request_and_outcome() {
    let mut b = Buffer::load_from("notes.txt", "a\nb");
    b.insert_char('c', Location { line_index: 1, grapheme_index: 1 });
    let req = b.save_request().expect("file is known");
    assert_eq!(req.path, "notes.txt");
    assert_eq!(req.contents, "a\nbc\n");
    b.finish_save(false);
    assert!(b.dirty);
    b.finish_save(true);
    assert!(!b.dirty);
    assert!(Buffer::new().save_request().is_none());
}

#[test]
fn insert_past_line_end_leaves_buffer_clean() {
    let mut b = Buffer::load_from("f", "ab\ncd");
    b.insert_char('z', Location { line_index: 0, grapheme_index: 5 });
    assert_eq!(line_texts(&b), vec!["ab", "cd"]);
    assert!(!b.dirty);
}
