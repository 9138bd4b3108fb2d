use crate::terminal::Size;
use vstd::prelude::*;

verus! {

/// A direction in which the caret can move.
#[derive(Copy, Clone, Debug, PartialEq, Eq, Structural)]
pub enum Direction {
    PageUp,
    PageDown,
    Home,
    End,
    Up,
    Left,
    Right,
    Down,
}

/// A decoded request from the user.
#[derive(Copy, Clone, Debug, PartialEq, Eq, Structural)]
pub enum EditorCommand {
    Move(Direction),
    Resize(Size),
    Insert(char),
    Backspace,
    Delete,
    Enter,
    Save,
    Quit,
}

/// A key, as the keyboard reports it.
#[derive(Copy, Clone, Debug, PartialEq, Eq, Structural)]
pub enum Key {
    Char(char),
    Up,
    Down,
    Left,
    Right,
    PageUp,
    PageDown,
    Home,
    End,
    Delete,
    Backspace,
    Enter,
    Other,
}

/// The modifier keys held with a key: Shift, Control, and whether any other
/// (Alt, Super, Hyper, Meta) was held.
#[derive(Copy, Clone, Debug, PartialEq, Eq, Structural)]
pub struct Modifiers {
    pub shift: bool,
    pub control: bool,
    pub other: bool,
}

/// An event from the terminal.
#[derive(Copy, Clone, Debug, PartialEq, Eq, Structural)]
pub enum InputEvent {
    /// A key went down (`press`), repeated or went up.
    Key { key: Key, modifiers: Modifiers, press: bool },
    /// The terminal now has `columns` columns and `rows` rows.
    Resize { columns: u16, rows: u16 },
    Other,
}

/// Whether exactly the modifiers `shift` and `control` say were held.
pub open spec fn only(m: Modifiers, shift: bool, control: bool) -> bool {
    m.shift == shift && m.control == control && !m.other
}

/// The command an event stands for: Ctrl-Q quits and Ctrl-S saves; a
/// character typed alone or with Shift is inserted; the arrow, page, Home
/// and End keys move; Delete, Backspace and Enter edit; a resize resizes.
/// Releases, repeats, and other keys and events stand for nothing.
pub open spec fn command_of(event: InputEvent) -> Option<EditorCommand> {
    match event {
        InputEvent::Key { key, modifiers, press } => {
            if !press {
                None
            } else {
                match key {
                    Key::Char(c) => if c == 'q' && only(modifiers, false, true) {
                        Some(EditorCommand::Quit)
                    } else if c == 's' && only(modifiers, false, true) {
                        Some(EditorCommand::Save)
                    } else if only(modifiers, false, false) || only(modifiers, true, false) {
                        Some(EditorCommand::Insert(c))
                    } else {
                        None
                    },
                    Key::Up => Some(EditorCommand::Move(Direction::Up)),
                    Key::Down => Some(EditorCommand::Move(Direction::Down)),
                    Key::Left => Some(EditorCommand::Move(Direction::Left)),
                    Key::Right => Some(EditorCommand::Move(Direction::Right)),
                    Key::PageUp => Some(EditorCommand::Move(Direction::PageUp)),
                    Key::PageDown => Some(EditorCommand::Move(Direction::PageDown)),
                    Key::Home => Some(EditorCommand::Move(Direction::Home)),
                    Key::End => Some(EditorCommand::Move(Direction::End)),
                    Key::Delete => Some(EditorCommand::Delete),
                    Key::Backspace => Some(EditorCommand::Backspace),
                    Key::Enter => Some(EditorCommand::Enter),
                    Key::Other => None,
                }
            }
        },
        InputEvent::Resize { columns, rows } => Some(
            EditorCommand::Resize(Size { height: rows as usize, width: columns as usize }),
        ),
        InputEvent::Other => None,
    }
}

impl EditorCommand {
    /// The command `event` stands for, if any.
    pub fn from_event(event: InputEvent) -> (r: Option<EditorCommand>)
        ensures
            r == command_of(event),
    {
        match event {
            InputEvent::Key { key, modifiers, press } => {
                if !press {
                    return None;
                }
                let control_only = modifiers.control && !modifiers.shift && !modifiers.other;
                let plain = !modifiers.control && !modifiers.other;
                match key {
                    Key::Char(c) => {
                        if c == 'q' && control_only {
                            Some(EditorCommand::Quit)
                        } else if c == 's' && control_only {
                            Some(EditorCommand::Save)
                        } else if plain {
                            Some(EditorCommand::Insert(c))
                        } else {
                            None
                        }
                    },
                    Key::Up => Some(EditorCommand::Move(Direction::Up)),
                    Key::Down => Some(EditorCommand::Move(Direction::Down)),
                    Key::Left => Some(EditorCommand::Move(Direction::Left)),
                    Key::Right => Some(EditorCommand::Move(Direction::Right)),
                    Key::PageUp => Some(EditorCommand::Move(Direction::PageUp)),
                    Key::PageDown => Some(EditorCommand::Move(Direction::PageDown)),
                    Key::Home => Some(EditorCommand::Move(Direction::Home)),
                    Key::End => Some(EditorCommand::Move(Direction::End)),
                    Key::Delete => Some(EditorCommand::Delete),
                    Key::Backspace => Some(EditorCommand::Backspace),
                    Key::Enter => Some(EditorCommand::Enter),
                    Key::Other => None,
                }
            },
            InputEvent::Resize { columns, rows } => Some(
                EditorCommand::Resize(Size { height: rows as usize, width: columns as usize }),
            ),
            InputEvent::Other => None,
        }
    }
}

} // verus!
