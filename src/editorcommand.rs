//! The closed set of editor commands, and the dispatch of input events to them.

use vstd::prelude::*;

use crate::terminal::Size;

verus! {

/// A direction in which the cursor can be moved.
#[derive(Clone, Copy, Debug, PartialEq, Eq, Structural)]
pub enum Direction {
    PageUp,
    PageDown,
    Home,
    End,
    Up,
    Left,
    Right,
    Down,
}

/// What the editor is asked to do in response to one input event.
#[derive(Clone, Copy, Debug, PartialEq, Eq, Structural)]
pub enum EditorCommand {
    Move(Direction),
    Resize(Size),
    Quit,
}

/// The identity of a key, as far as the editor tells keys apart.
#[derive(Clone, Copy, Debug, PartialEq, Eq, Structural)]
pub enum KeyCode {
    Char(char),
    Up,
    Down,
    Left,
    Right,
    PageUp,
    PageDown,
    Home,
    End,
    /// Any other key.
    Other,
}

/// The modifier keys held with a key.
#[derive(Clone, Copy, Debug, PartialEq, Eq, Structural)]
pub struct Modifiers {
    pub control: bool,
    /// Some modifier other than control (shift, alt, ...) was held.
    pub others: bool,
}

/// Whether a key went down, repeated, or came up.
#[derive(Clone, Copy, Debug, PartialEq, Eq, Structural)]
pub enum KeyEventKind {
    Press,
    Repeat,
    Release,
}

/// One key event.
#[derive(Clone, Copy, Debug, PartialEq, Eq, Structural)]
pub struct KeyEvent {
    pub code: KeyCode,
    pub modifiers: Modifiers,
    pub kind: KeyEventKind,
}

/// An input event, as delivered by the input source.
#[derive(Clone, Copy, Debug, PartialEq, Eq, Structural)]
pub enum Event {
    Key(KeyEvent),
    /// The terminal now has this many columns and rows.
    Resize(u16, u16),
    /// Any other event (focus, mouse, paste, ...).
    Other,
}

/// Why an event maps to no command.
#[derive(Clone, Copy, Debug, PartialEq, Eq, Structural)]
pub enum UnsupportedEvent {
    /// A key event other than a press.
    NotPressed,
    /// A press of a key that has no command.
    Key(KeyCode),
    /// An event that is neither a key nor a resize.
    Other,
}

/// The direction that a navigation key moves the cursor in.
pub open spec fn direction_of(code: KeyCode) -> Option<Direction> {
    match code {
        KeyCode::Up => Some(Direction::Up),
        KeyCode::Down => Some(Direction::Down),
        KeyCode::Left => Some(Direction::Left),
        KeyCode::Right => Some(Direction::Right),
        KeyCode::PageUp => Some(Direction::PageUp),
        KeyCode::PageDown => Some(Direction::PageDown),
        KeyCode::Home => Some(Direction::Home),
        KeyCode::End => Some(Direction::End),
        _ => None,
    }
}

/// The key chord that quits: `q` with control and no other modifier.
pub open spec fn is_quit(key: KeyEvent) -> bool {
    key.code == KeyCode::Char('q') && key.modifiers.control && !key.modifiers.others
}

/// The command for an event: control-q quits, a navigation key moves the
/// cursor whatever the modifiers, a resize carries the new dimensions; only
/// key presses count, and every other event is unsupported.
pub open spec fn command_of(event: Event) -> Result<EditorCommand, UnsupportedEvent> {
    match event {
        Event::Key(key) => {
            if key.kind != KeyEventKind::Press {
                Err(UnsupportedEvent::NotPressed)
            } else if is_quit(key) {
                Ok(EditorCommand::Quit)
            } else if let Some(direction) = direction_of(key.code) {
                Ok(EditorCommand::Move(direction))
            } else {
                Err(UnsupportedEvent::Key(key.code))
            }
        },
        Event::Resize(columns, rows) => Ok(
            EditorCommand::Resize(Size { height: rows as usize, width: columns as usize }),
        ),
        Event::Other => Err(UnsupportedEvent::Other),
    }
}

impl TryFrom<Event> for EditorCommand {
    type Error = UnsupportedEvent;

    fn try_from(event: Event) -> (r: Result<Self, Self::Error>)
        ensures
            r == command_of(event),
    {
        match event {
            Event::Key(KeyEvent { code, modifiers, kind }) => {
                if kind != KeyEventKind::Press {
                    return Err(UnsupportedEvent::NotPressed);
                }
                match code {
                    KeyCode::Char('q') if modifiers.control && !modifiers.others => Ok(Self::Quit),
                    KeyCode::Up => Ok(Self::Move(Direction::Up)),
                    KeyCode::Down => Ok(Self::Move(Direction::Down)),
                    KeyCode::Left => Ok(Self::Move(Direction::Left)),
                    KeyCode::Right => Ok(Self::Move(Direction::Right)),
                    KeyCode::PageDown => Ok(Self::Move(Direction::PageDown)),
                    KeyCode::PageUp => Ok(Self::Move(Direction::PageUp)),
                    KeyCode::End => Ok(Self::Move(Direction::End)),
                    KeyCode::Home => Ok(Self::Move(Direction::Home)),
                    _ => Err(UnsupportedEvent::Key(code)),
                }
            },
            Event::Resize(columns, rows) => {
                let width = columns as usize;
                let height = rows as usize;
                Ok(Self::Resize(Size { height, width }))
            },
            Event::Other => Err(UnsupportedEvent::Other),
        }
    }
}

impl vstd::std_specs::convert::TryFromSpecImpl<Event> for EditorCommand {
    open spec fn obeys_try_from_spec() -> bool {
        true
    }

    open spec fn try_from_spec(event: Event) -> Result<Self, Self::Error> {
        command_of(event)
    }
}

} // verus!
