//! Core of a terminal text viewer: the document buffer, cursor movement,
//! scroll-into-view reconciliation of the viewport, the redraw engine and
//! the dispatch of input events to editor commands.
//!
//! Terminal I/O is not part of this library: callers hand it plain values
//! (sizes, decoded input events, file contents) and write out the rows that
//! the redraw engine produces.

pub mod buffer;
pub mod editor;
pub mod editorcommand;
pub mod location;
pub mod terminal;
mod text;
pub mod view;

pub use buffer::{Buffer, LoadError};
pub use editor::{Editor, Frame};
pub use editorcommand::{
    Direction, EditorCommand, Event, KeyCode, KeyEvent, KeyEventKind, Modifiers, UnsupportedEvent,
};
pub use location::Location;
pub use terminal::{Position, Size};
pub use view::View;
