use hecto::buffer::Buffer;
use hecto::documentstatus::DocumentStatus;
use hecto::editor::Editor;
use hecto::editorcommand::{Direction, EditorCommand, InputEvent, Key, Modifiers};
use hecto::fileinfo::FileInfo;
use hecto::location::Location;
use hecto::statusbar::StatusBar;
use hecto::terminal::{Position, Size};
use hecto::uicomponent::UIComponent;

#[test]
fn position_saturating_sub() {
    let p = Position::new(3, 10).saturating_sub(Position::new(5, 4));
    assert_eq!(p, Position { col: 0, row: 6 });
}

#[test]
fn file_info_names() {
    assert_eq!(FileInfo::from("/tmp/dir/notes.txt").display_name(), "notes.txt");
    assert_eq!(FileInfo::from("/").display_name(), "[No Name]");
    assert_eq!(FileInfo { path: None }.display_name(), "[No Name]");
}

#[test]
fn status_bar_redraws_only_on_change() {
    let mut bar = StatusBar::new();
    let status = DocumentStatus {
        total_lines: 2,
        current_line_index: 0,
        filename: "a".to_string(),
        is_modified: false,
    };
    bar.update_status(status.clone());
    assert!(bar.needs_redraw());
    bar.mark_redraw(false);
    bar.update_status(status.clone());
    assert!(!bar.needs_redraw());
    assert_eq!(bar.current_status(), &status);
    bar.resize(Size { height: 1, width: 20 });
    assert!(bar.needs_redraw());
    assert_eq!(bar.size(), Size { height: 1, width: 20 });
}

#[test]
fn editor_lays_out_and_quits() {
    let mut editor = Editor::new(Size { height: 12, width: 30 });
    assert_eq!(editor.view().size(), Size { height: 10, width: 30 });
    assert_eq!(editor.status_bar().size(), Size { height: 1, width: 30 });
    editor.evaluate_command(EditorCommand::Resize(Size { height: 1, width: 8 }));
    assert_eq!(editor.terminal_size(), Size { height: 1, width: 8 });
    assert_eq!(editor.view().size(), Size { height: 0, width: 8 });
    assert!(!editor.should_quit());
    editor.evaluate_command(EditorCommand::Quit);
    assert!(editor.should_quit());
}

#[test]
fn editor_title_changes_once() {
    let mut editor = Editor::new(Size { height: 12, width: 30 });
    editor.load(Buffer::load_from("dir/a.txt", "x\ny"));
    let title = editor.refresh_status("hecto").expect("a new title");
    assert_eq!(title, "a.txt - hecto");
    assert_eq!(editor.status_bar().current_status().total_lines, 2);
    editor.title_set(title);
    assert!(editor.refresh_status("hecto").is_none());
}

#[test]
fn editor_passes_edits_to_view() {
    let mut editor = Editor::new(Size { height: 12, width: 30 });
    editor.evaluate_command(EditorCommand::Insert('a'));
    editor.evaluate_command(EditorCommand::Move(Direction::Left));
    assert_eq!(editor.view().text_location(), Location { line_index: 0, grapheme_index: 0 });
    assert!(editor.view().buffer().dirty);
    assert!(editor.evaluate_command(EditorCommand::Save).is_none());
    editor.view_drawn();
    assert!(!editor.view().needs_redraw());
}

fn key(key: Key, shift: bool, control: bool) -> InputEvent {
    InputEvent::Key { key, modifiers: Modifiers { shift, control, other: false }, press: true }
}

#[test]
fn events_decode_to_commands() {
    assert_eq!(EditorCommand::from_event(key(Key::Char('q'), false, true)), Some(EditorCommand::Quit));
    assert_eq!(EditorCommand::from_event(key(Key::Char('s'), false, true)), Some(EditorCommand::Save));
    assert_eq!(
        EditorCommand::from_event(key(Key::Char('Q'), true, false)),
        Some(EditorCommand::Insert('Q'))
    );
    assert_eq!(EditorCommand::from_event(key(Key::Char('x'), false, true)), None);
    assert_eq!(
        EditorCommand::from_event(key(Key::PageDown, false, false)),
        Some(EditorCommand::Move(Direction::PageDown))
    );
    assert_eq!(EditorCommand::from_event(key(Key::Enter, false, false)), Some(EditorCommand::Enter));
    assert_eq!(EditorCommand::from_event(key(Key::Other, false, false)), None);
    let release = InputEvent::Key {
        key: Key::Char('a'),
        modifiers: Modifiers { shift: false, control: false, other: false },
        press: false,
    };
    assert_eq!(EditorCommand::from_event(release), None);
    let alt = InputEvent::Key {
        key: Key::Char('a'),
        modifiers: Modifiers { shift: false, control: false, other: true },
        press: true,
    };
    assert_eq!(EditorCommand::from_event(alt), None);
    assert_eq!(
        EditorCommand::from_event(InputEvent::Resize { columns: 80, rows: 24 }),
        Some(EditorCommand::Resize(Size { height: 24, width: 80 }))
    );
    assert_eq!(EditorCommand::from_event(InputEvent::Other), None);
}

fn bar_with(status: DocumentStatus, width: usize) -> StatusBar {
    let mut bar = StatusBar::new();
    bar.update_status(status);
    bar.set_size(Size { height: 1, width });
    bar
}

#[test]
fn status_text_aligns_position() {
    let status = DocumentStatus {
        total_lines: 12,
        current_line_index: 3,
        filename: "a.txt".to_string(),
        is_modified: true,
    };
    assert_eq!(
        bar_with(status.clone(), 40).status_text(),
        "a.txt - 12 lines (modified)         4/12"
    );
    assert_eq!(bar_with(status.clone(), 31).status_text(), "a.txt - 12 lines (modified)4/12");
    assert_eq!(bar_with(status, 30).status_text(), "");
    let clean = DocumentStatus {
        total_lines: 0,
        current_line_index: 0,
        filename: "[No Name]".to_string(),
        is_modified: false,
    };
    assert_eq!(bar_with(clean, 25).status_text(), "[No Name] - 0 lines   1/0");
}

#[test]
fn parts_fit_the_screen() {
    assert_eq!(Editor::new(Size { height: 0, width: 10 }).parts_to_draw(), (false, false, false));
    assert_eq!(Editor::new(Size { height: 5, width: 0 }).parts_to_draw(), (false, false, false));
    assert_eq!(Editor::new(Size { height: 1, width: 10 }).parts_to_draw(), (true, false, false));
    assert_eq!(Editor::new(Size { height: 2, width: 10 }).parts_to_draw(), (true, true, false));
    assert_eq!(Editor::new(Size { height: 3, width: 10 }).parts_to_draw(), (true, true, true));
}

#[test]
fn status_bar_redraws_when_status_changes() {
    let mut editor = Editor::new(Size { height: 12, width: 30 });
    editor.refresh_status("hecto");
    editor.status_bar_drawn();
    editor.refresh_status("hecto");
    assert!(!editor.status_bar().needs_redraw());
    editor.evaluate_command(EditorCommand::Insert('a'));
    editor.refresh_status("hecto");
    assert!(editor.status_bar().needs_redraw());
    assert_eq!(editor.status_bar().size(), Size { height: 1, width: 30 });
}

#[test]
fn resize_keeps_caret_and_redraws() {
    let mut editor = Editor::new(Size { height: 12, width: 30 });
    editor.load(Buffer::load_from("f", "abc\ndef"));
    editor.evaluate_command(EditorCommand::Move(Direction::Down));
    editor.view_drawn();
    editor.status_bar_drawn();
    editor.evaluate_command(EditorCommand::Resize(Size { height: 20, width: 50 }));
    assert_eq!(editor.view().text_location(), Location { line_index: 1, grapheme_index: 0 });
    assert!(editor.view().needs_redraw());
    assert!(editor.status_bar().needs_redraw());
}
