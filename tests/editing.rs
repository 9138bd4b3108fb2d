use hecto::buffer::Buffer;
use hecto::editorcommand::{Direction, EditorCommand};
use hecto::location::Location;
use hecto::terminal::{Position, Size};
use hecto::uicomponent::UIComponent;
use hecto::view::View;

fn texts(view: &View) -> Vec<String> {
    view.buffer().lines.iter().map(|l| l.text()).collect()
}

fn view_on(contents: &str, size: Size) -> View {
    let mut view = View::new(size);
    view.load(Buffer::load_from("doc.txt", contents));
    view
}

fn put_caret(view: &mut View, line: usize, grapheme: usize) {
    for _ in 0..line {
        view.handle_command(EditorCommand::Move(Direction::Down));
    }
    view.handle_command(EditorCommand::Move(Direction::Home));
    for _ in 0..grapheme {
        view.handle_command(EditorCommand::Move(Direction::Right));
    }
    assert_eq!(
        view.text_location(),
        Location { line_index: line, grapheme_index: grapheme }
    );
}

const SIZE: Size = Size { height: 10, width: 40 };

#[test]
fn delete_at_line_end_merges() {
    let mut view = view_on("abc\ndef", SIZE);
    put_caret(&mut view, 0, 3);
    view.handle_command(EditorCommand::Delete);
    assert_eq!(texts(&view), vec!["abcdef".to_string()]);
    assert_eq!(view.text_location(), Location { line_index: 0, grapheme_index: 3 });
}

#[test]
fn backspace_at_line_start_merges() {
    let mut view = view_on("abc\ndef", SIZE);
    put_caret(&mut view, 1, 0);
    view.handle_command(EditorCommand::Backspace);
    assert_eq!(texts(&view), vec!["abcdef".to_string()]);
    assert_eq!(view.text_location(), Location { line_index: 0, grapheme_index: 3 });
}

#[test]
fn enter_splits_line() {
    let mut view = view_on("abcdef", SIZE);
    put_caret(&mut view, 0, 3);
    view.handle_command(EditorCommand::Enter);
    assert_eq!(texts(&view), vec!["abc".to_string(), "def".to_string()]);
    assert_eq!(view.text_location(), Location { line_index: 1, grapheme_index: 0 });
}

#[test]
fn moving_down_snaps_to_shorter_line() {
    let mut view = view_on("abcdefgh\nab", SIZE);
    put_caret(&mut view, 0, 7);
    view.handle_command(EditorCommand::Move(Direction::Down));
    assert_eq!(view.text_location(), Location { line_index: 1, grapheme_index: 2 });
}

#[test]
fn right_then_left_returns() {
    let mut view = view_on("ab\ncd", SIZE);
    for (line, g) in [(0, 0), (0, 1), (0, 2), (1, 0), (1, 2)] {
        let mut v = view_on("ab\ncd", SIZE);
        put_caret(&mut v, line, g);
        v.handle_command(EditorCommand::Move(Direction::Right));
        v.handle_command(EditorCommand::Move(Direction::Left));
        assert_eq!(v.text_location(), Location { line_index: line, grapheme_index: g });
    }
    put_caret(&mut view, 0, 2);
    view.handle_command(EditorCommand::Move(Direction::Right));
    assert_eq!(view.text_location(), Location { line_index: 1, grapheme_index: 0 });
}

#[test]
fn caret_stays_in_view_while_moving() {
    let text: String = (0..50).map(|i| format!("line number {i} {}\n", "x".repeat(i))).collect();
    let size = Size { height: 5, width: 12 };
    let mut view = view_on(&text, size);
    let moves = [
        Direction::Down,
        Direction::End,
        Direction::PageDown,
        Direction::PageDown,
        Direction::Right,
        Direction::Down,
        Direction::End,
        Direction::PageUp,
        Direction::Home,
        Direction::Left,
        Direction::Up,
        Direction::End,
        Direction::PageDown,
    ];
    for _ in 0..6 {
        for dir in moves {
            view.handle_command(EditorCommand::Move(dir));
            let caret = view.caret_position();
            let loc = view.text_location();
            let off = view.scroll_offset();
            assert!(off.row <= loc.line_index);
            assert!(caret.row < size.height);
            assert!(caret.col < size.width);
        }
    }
}

#[test]
fn scrolling_follows_caret() {
    let mut view = view_on("a\nb\nc\nd\ne\nf", Size { height: 3, width: 10 });
    for _ in 0..4 {
        view.handle_command(EditorCommand::Move(Direction::Down));
    }
    assert_eq!(view.scroll_offset(), Position { row: 2, col: 0 });
    assert_eq!(view.caret_position(), Position { row: 2, col: 0 });
    view.handle_command(EditorCommand::Move(Direction::PageUp));
    assert_eq!(view.text_location(), Location { line_index: 2, grapheme_index: 0 });
    assert_eq!(view.scroll_offset(), Position { row: 2, col: 0 });
    view.handle_command(EditorCommand::Move(Direction::Up));
    assert_eq!(view.scroll_offset(), Position { row: 1, col: 0 });
}

#[test]
fn horizontal_scroll_counts_wide_clusters() {
    let mut view = view_on("你好世界", Size { height: 3, width: 4 });
    view.handle_command(EditorCommand::Move(Direction::End));
    assert_eq!(view.text_location(), Location { line_index: 0, grapheme_index: 4 });
    assert_eq!(view.scroll_offset(), Position { row: 0, col: 5 });
    assert_eq!(view.caret_position(), Position { row: 0, col: 3 });
}

#[test]
fn dirty_flag_follows_edits_and_saves() {
    let mut view = view_on("abc", SIZE);
    assert!(!view.buffer().dirty);
    view.handle_command(EditorCommand::Insert('x'));
    assert!(view.buffer().dirty);
    let request = view.handle_command(EditorCommand::Save).expect("a save request");
    assert_eq!(request.path, "doc.txt");
    assert_eq!(request.contents, "xabc\n");
    view.save_finished(false);
    assert!(view.buffer().dirty);
    view.save_finished(true);
    assert!(!view.buffer().dirty);
    put_caret(&mut view, 0, 4);
    view.handle_command(EditorCommand::Delete);
    assert!(!view.buffer().dirty);
    view.handle_command(EditorCommand::Enter);
    assert!(view.buffer().dirty);
}

#[test]
fn delete_sets_dirty() {
    let mut view = view_on("abc", SIZE);
    view.handle_command(EditorCommand::Delete);
    assert!(view.buffer().dirty);
    assert_eq!(texts(&view), vec!["bc".to_string()]);
}

#[test]
fn save_without_file_asks_nothing() {
    let mut view = View::new(SIZE);
    view.handle_command(EditorCommand::Insert('a'));
    assert!(view.handle_command(EditorCommand::Save).is_none());
    assert!(view.buffer().dirty);
}

#[test]
fn insert_past_end_starts_line() {
    let mut view = View::new(SIZE);
    view.handle_command(EditorCommand::Insert('h'));
    view.handle_command(EditorCommand::Insert('i'));
    assert_eq!(texts(&view), vec!["hi".to_string()]);
    assert_eq!(view.text_location(), Location { line_index: 0, grapheme_index: 2 });
    view.handle_command(EditorCommand::Enter);
    view.handle_command(EditorCommand::Insert('!'));
    assert_eq!(texts(&view), vec!["hi".to_string(), "!".to_string()]);
    assert_eq!(view.text_location(), Location { line_index: 1, grapheme_index: 1 });
}

#[test]
fn backspace_at_start_does_nothing() {
    let mut view = view_on("abc", SIZE);
    view.handle_command(EditorCommand::Backspace);
    assert_eq!(texts(&view), vec!["abc".to_string()]);
    assert!(!view.buffer().dirty);
}

#[test]
fn resize_scrolls_caret_into_view() {
    let mut view = view_on("a\nb\nc\nd\ne\nf", SIZE);
    for _ in 0..5 {
        view.handle_command(EditorCommand::Move(Direction::Down));
    }
    view.mark_redraw(false);
    view.handle_command(EditorCommand::Resize(Size { height: 2, width: 10 }));
    assert_eq!(view.size(), Size { height: 2, width: 10 });
    assert_eq!(view.scroll_offset(), Position { row: 4, col: 0 });
    assert!(view.needs_redraw());
}

#[test]
fn rows_show_visible_text_and_fillers() {
    let mut view = view_on("hello\nworld", Size { height: 4, width: 3 });
    view.handle_command(EditorCommand::Move(Direction::End));
    let rows = view.draw_rows(0, "hecto", "0.1.0");
    assert_eq!(rows, vec!["lo", "ld", "~", "~"]);
}

#[test]
fn rows_of_empty_document_greet() {
    let view = View::new(Size { height: 6, width: 31 });
    let rows = view.draw_rows(0, "hecto", "0.1.0");
    assert_eq!(rows.len(), 6);
    assert_eq!(rows[2], "~hecto editor -- version 0.1.0 ");
    assert_eq!(rows[0], "~");
    assert_eq!(rows[5], "~");
}

#[test]
fn welcome_message_fits_or_hides() {
    assert_eq!(View::build_welcome_message(0, "hecto", "0.1.0"), " ");
    assert_eq!(View::build_welcome_message(10, "hecto", "0.1.0"), "~");
    assert_eq!(View::build_welcome_message(29, "hecto", "0.1.0"), "~");
    assert_eq!(
        View::build_welcome_message(30, "hecto", "0.1.0"),
        "~hecto editor -- version 0.1.0"
    );
    assert_eq!(
        View::build_welcome_message(32, "hecto", "0.1.0"),
        "~ hecto editor -- version 0.1.0 "
    );
}

#[test]
fn status_reflects_document() {
    let mut view = view_on("a\nb\nc", SIZE);
    view.handle_command(EditorCommand::Move(Direction::Down));
    let status = view.get_status();
    assert_eq!(status.total_lines, 3);
    assert_eq!(status.current_line_index, 1);
    assert_eq!(status.filename, "doc.txt");
    assert!(!status.is_modified);
    let empty = View::new(SIZE).get_status();
    assert_eq!(empty.filename, "[No Name]");
}

#[test]
fn left_at_document_start_does_nothing() {
    let mut view = view_on("abc", SIZE);
    view.handle_command(EditorCommand::Move(Direction::Left));
    assert_eq!(view.text_location(), Location { line_index: 0, grapheme_index: 0 });
    put_caret(&mut view, 0, 2);
    view.handle_command(EditorCommand::Move(Direction::Left));
    assert_eq!(view.text_location(), Location { line_index: 0, grapheme_index: 1 });
}
