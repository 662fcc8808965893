//! The editor controller: owns the view, applies the command for each input
//! event, and says what to draw before the next event is awaited.

use vstd::prelude::*;
use vstd::view::View as _;

use crate::editorcommand::{command_of, EditorCommand, Event, UnsupportedEvent};
use crate::terminal::Position;
use crate::view::View;

verus! {

/// What the terminal shows after a refresh: the rows to rewrite, top to
/// bottom (none when nothing is stale), and where the cursor goes.
pub struct Frame {
    pub rows: Vec<String>,
    pub cursor: Position,
}

/// The editor's state for the life of the process.
pub struct Editor {
    /// Set once the quit chord was pressed; the event loop then stops.
    pub should_quit: bool,
    pub view: View,
}

impl Editor {
    /// The state after one event, when the event maps to a command.
    pub open spec fn after_event(self, command: EditorCommand) -> Editor {
        match command {
            EditorCommand::Quit => Editor { should_quit: true, ..self },
            _ => Editor { view: self.view.after_command(command), ..self },
        }
    }

    /// An editor over `view` that has not been asked to quit.
    pub fn new(view: View) -> (r: Editor)
        ensures
            !r.should_quit,
            r.view == view,
    {
        Editor { should_quit: false, view }
    }

    /// Applies the command that `event` maps to. An event that maps to no
    /// command changes nothing, and the reason is handed back.
    pub fn evaluate_event(&mut self, event: Event) -> (r: Result<(), UnsupportedEvent>)
        ensures
            match command_of(event) {
                Ok(command) => r is Ok && *final(self) == old(self).after_event(command),
                Err(e) => r == Err::<(), UnsupportedEvent>(e) && *final(self) == *old(self),
            },
    {
        match EditorCommand::try_from(event) {
            Ok(command) => {
                if matches!(command, EditorCommand::Quit) {
                    self.should_quit = true;
                } else {
                    self.view.handle_command(command);
                }
                Ok(())
            },
            Err(e) => Err(e),
        }
    }

    /// Renders the view and places the cursor at its document position.
    pub fn refresh_screen(&mut self) -> (frame: Frame)
        ensures
            frame.rows@.map_values(|s: String| s@) == old(self).view.frame(),
            frame.cursor.x == old(self).view.location.x,
            frame.cursor.y == old(self).view.location.y,
            final(self).view == old(self).view.rendered(),
            final(self).should_quit == old(self).should_quit,
    {
        let rows = self.view.render();
        let cursor = self.view.getposition();
        Frame { rows, cursor }
    }
}

} // verus!
