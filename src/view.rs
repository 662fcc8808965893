//! The viewport over the document: cursor movement, scroll-into-view
//! reconciliation and the redraw engine.

use vstd::prelude::*;
use vstd::view::View as _;

use crate::buffer::{lines_of, Buffer, LoadError};
use crate::editorcommand::{Direction, EditorCommand};
use crate::location::Location;
use crate::terminal::{Position, Size};

verus! {

/// The program's name, shown in the welcome banner.
pub const NAME: &'static str = "nanoview";

/// The program's version, shown in the welcome banner.
pub const VERSION: &'static str = "0.1.0";

/// The glyph drawn on rows past the end of the document.
pub const FILLER: &'static str = "~";

/// The banner text, `"<name> -- <version>"`.
pub open spec fn banner() -> Seq<char> {
    NAME@ + " -- "@ + VERSION@
}

/// `n` blanks.
pub open spec fn spaces(n: nat) -> Seq<char> {
    Seq::new(n, |_i: int| ' ')
}

/// The welcome line for a window `width` cells wide: the filler glyph, then
/// the banner centred in what is left, or the filler glyph alone when the
/// banner does not fit.
pub open spec fn welcome_message(width: usize) -> Seq<char> {
    if width <= banner().len() {
        FILLER@
    } else {
        FILLER@ + spaces(((width - banner().len() - 1) / 2) as nat) + banner()
    }
}

/// The characters of `line` that fall in columns `[from, from + width)`;
/// a line that ends before `from` gives nothing.
pub open spec fn line_slice(line: Seq<char>, from: usize, width: usize) -> Seq<char> {
    if from < line.len() {
        line.subrange(from as int, vstd::math::min(from + width, line.len() as int))
    } else {
        Seq::empty()
    }
}

/// The scroll offset on one axis that keeps `pos` inside a window of
/// `extent` cells starting at `offset`, with the smallest jump: snap the
/// window's start to the cursor when it left at the start, snap the window's
/// end to the cursor when it left at the end, else keep the offset.
pub open spec fn scroll_axis(pos: usize, offset: usize, extent: usize) -> usize {
    if pos < offset {
        pos
    } else if pos >= offset.saturating_add(extent) {
        pos.saturating_sub(extent).saturating_add(1)
    } else {
        offset
    }
}

/// Where the cursor goes for one movement, inside a window of `size`.
/// Arithmetic saturates at zero; nothing clamps to the document's length.
pub open spec fn moved(loc: Location, direction: Direction, size: Size) -> Location {
    match direction {
        Direction::Up => Location { x: loc.x, y: loc.y.saturating_sub(1) },
        Direction::Down => Location { x: loc.x, y: loc.y.saturating_add(1) },
        Direction::Left => Location { x: loc.x.saturating_sub(1), y: loc.y },
        Direction::Right => Location { x: loc.x.saturating_add(1), y: loc.y },
        Direction::PageUp => Location { x: loc.x, y: 0 },
        Direction::PageDown => Location { x: loc.x, y: size.height.saturating_sub(1) },
        Direction::Home => Location { x: 0, y: loc.y },
        Direction::End => Location { x: size.width.saturating_sub(1), y: loc.y },
    }
}

/// The document, the cursor and the window onto them.
pub struct View {
    pub buffer: Buffer,
    pub size: Size,
    /// Set by every change that makes the screen stale, cleared by a render.
    pub need_redraw: bool,
    /// The cursor, in document coordinates.
    pub location: Location,
    /// The document coordinate shown in the top-left cell.
    pub scroll_offset: Location,
}

impl View {
    /// The scroll offset that brings the cursor back into the window.
    pub open spec fn scroll_target(self) -> Location {
        Location {
            x: scroll_axis(self.location.x, self.scroll_offset.x, self.size.width),
            y: scroll_axis(self.location.y, self.scroll_offset.y, self.size.height),
        }
    }

    /// The view after scroll-into-view: the offset moved to the target, and
    /// the view marked stale when the offset changed.
    pub open spec fn reconciled(self) -> View {
        View {
            scroll_offset: self.scroll_target(),
            need_redraw: self.need_redraw || self.scroll_target() != self.scroll_offset,
            ..self
        }
    }

    /// The view after one cursor movement and the reconciliation that follows.
    pub open spec fn after_move(self, direction: Direction) -> View {
        View { location: moved(self.location, direction, self.size), ..self }.reconciled()
    }

    /// The view after the window took the size `to`: reconciled, and marked
    /// stale when the size or the offset changed.
    pub open spec fn resized(self, to: Size) -> View {
        let reshaped = View { size: to, ..self }.reconciled();
        View { need_redraw: reshaped.need_redraw || to != self.size, ..reshaped }
    }

    /// The view after one command; `Quit` leaves it as it is.
    pub open spec fn after_command(self, command: EditorCommand) -> View {
        match command {
            EditorCommand::Resize(size) => self.resized(size),
            EditorCommand::Move(direction) => self.after_move(direction),
            EditorCommand::Quit => self,
        }
    }

    /// The cursor lies inside the window on both axes.
    pub open spec fn cursor_visible(self) -> bool {
        &&& self.scroll_offset.y <= self.location.y < self.scroll_offset.y + self.size.height
        &&& self.scroll_offset.x <= self.location.x < self.scroll_offset.x + self.size.width
    }

    /// The view after a sequence of movements, the first one applied first.
    pub open spec fn after_moves(self, directions: Seq<Direction>) -> View
        decreases directions.len(),
    {
        if directions.len() == 0 {
            self
        } else {
            self.after_moves(directions.drop_last()).after_move(directions.last())
        }
    }

    /// The text of screen row `row`: the visible part of the document line
    /// shown there, else the welcome banner on the row a third of the way
    /// down when the document is empty, else the filler glyph.
    pub open spec fn row_text(self, row: int) -> Seq<char> {
        let index = row + self.scroll_offset.y;
        if index < self.buffer.lines@.len() {
            line_slice(self.buffer.lines@[index]@, self.scroll_offset.x, self.size.width)
        } else if self.buffer.lines@.len() == 0 && row == self.size.height / 3 {
            welcome_message(self.size.width)
        } else {
            FILLER@
        }
    }

    /// A render has something to draw: the view is stale and the window is
    /// not degenerate.
    pub open spec fn renders(self) -> bool {
        self.need_redraw && self.size.height > 0 && self.size.width > 0
    }

    /// A view of an empty document in a window of `size`, with the cursor
    /// and the scroll offset at the origin, waiting for its first render.
    pub fn new(size: Size) -> (r: View)
        ensures
            r.buffer.lines@.len() == 0,
            r.size == size,
            r.need_redraw,
            r.location == (Location { x: 0, y: 0 }),
            r.scroll_offset == (Location { x: 0, y: 0 }),
    {
        View {
            buffer: Buffer { lines: Vec::new() },
            size,
            need_redraw: true,
            location: Location { x: 0, y: 0 },
            scroll_offset: Location { x: 0, y: 0 },
        }
    }

    /// Replaces the document with the lines of the text that was read, and
    /// marks the view stale. When reading failed the view is left exactly as
    /// it was and the error is handed back.
    pub fn load(&mut self, source: Result<String, LoadError>) -> (r: Result<(), LoadError>)
        ensures
            match source {
                Ok(text) => {
                    &&& r is Ok
                    &&& final(self).buffer.view_lines() == lines_of(text@)
                    &&& *final(self) == View {
                        buffer: final(self).buffer,
                        need_redraw: true,
                        ..*old(self)
                    }
                },
                Err(e) => r == Err::<(), LoadError>(e) && *final(self) == *old(self),
            },
    {
        match source {
            Ok(text) => {
                self.buffer = Buffer::load(text.as_str());
                self.need_redraw = true;
                Ok(())
            },
            Err(e) => Err(e),
        }
    }

    /// What a render draws: the text of each screen row, top to bottom, when
    /// the view is stale and the window has cells; nothing otherwise.
    pub open spec fn frame(self) -> Seq<Seq<char>> {
        if self.renders() {
            Seq::new(self.size.height as nat, |r: int| self.row_text(r))
        } else {
            Seq::empty()
        }
    }

    /// The view after a render: marked fresh when something was drawn.
    pub open spec fn rendered(self) -> View {
        if self.renders() {
            View { need_redraw: false, ..self }
        } else {
            self
        }
    }

    /// The cursor's position, in document coordinates.
    pub fn getposition(&self) -> (r: Position)
        ensures
            r.x == self.location.x,
            r.y == self.location.y,
    {
        Position::from(self.location)
    }

    /// The text of every screen row, top to bottom, when the view is stale;
    /// the view is then marked fresh. Nothing is produced, and nothing
    /// changes, when the view is fresh or the window has no cells.
    pub fn render(&mut self) -> (rows: Vec<String>)
        ensures
            rows@.map_values(|s: String| s@) == old(self).frame(),
            *final(self) == old(self).rendered(),
    {
        let mut rows: Vec<String> = Vec::new();
        if !self.need_redraw {
            assert(rows@.map_values(|s: String| s@) =~= self.frame());
            return rows;
        }
        let Size { height, width } = self.size;
        if height == 0 || width == 0 {
            assert(rows@.map_values(|s: String| s@) =~= self.frame());
            return rows;
        }

        let y_centre = height / 3;
        let top = self.scroll_offset.y;
        let left = self.scroll_offset.x;
        let mut row: usize = 0;
        while row < height
            invariant
                row <= height,
                height == self.size.height,
                width == self.size.width,
                width > 0,
                y_centre == height / 3,
                top == self.scroll_offset.y,
                left == self.scroll_offset.x,
                rows@.len() == row,
                forall|r: int| 0 <= r < row ==> #[trigger] rows@[r]@ == self.row_text(r),
            decreases height - row,
        {
            let index = row.saturating_add(top);
            if index < self.buffer.lines.len() {
                let line = self.buffer.lines[index].as_str();
                let len = line.unicode_len();
                let right = left.saturating_add(width);
                let end = if right < len { right } else { len };
                if left < len {
                    rows.push(line.substring_char(left, end).to_owned());
                } else {
                    rows.push(String::new());
                }
            } else if row == y_centre && self.buffer.is_empty() {
                rows.push(Self::build_welcome_message(width));
            } else {
                rows.push(FILLER.to_owned());
            }
            row = row + 1;
        }
        assert(rows@.map_values(|s: String| s@) =~= self.frame());
        self.need_redraw = false;
        rows
    }

    /// The welcome line for a window `width` cells wide.
    pub fn build_welcome_message(width: usize) -> (r: String)
        ensures
            r@ == welcome_message(width),
            r@.len() <= vstd::math::max(width as int, 1),
            width == 0 ==> r@ == FILLER@,
    {
        proof {
            reveal_strlit("~");
        }
        let mut message = NAME.to_owned();
        message.append(" -- ");
        message.append(VERSION);
        let len = message.as_str().unicode_len();
        if width <= len {
            return FILLER.to_owned();
        }

        let padding = (width - len - 1) / 2;
        let mut composed = FILLER.to_owned();
        let mut i: usize = 0;
        while i < padding
            invariant
                i <= padding,
                composed@ == FILLER@ + spaces(i as nat),
            decreases padding - i,
        {
            composed.push(' ');
            i = i + 1;
            assert(composed@ =~= FILLER@ + spaces(i as nat));
        }
        composed.append(message.as_str());
        composed
    }

    /// Takes the new window size and scrolls the cursor back into view.
    pub fn resize(&mut self, to: Size)
        ensures
            *final(self) == old(self).resized(to),
    {
        let size_changed = to != self.size;
        self.size = to;
        self.scroll_into_view();
        if size_changed {
            self.need_redraw = true;
        }
    }

    /// Moves the scroll offset by the smallest jump that shows the cursor,
    /// on each axis, and marks the view stale when the offset changed.
    fn scroll_into_view(&mut self)
        ensures
            *final(self) == old(self).reconciled(),
            old(self).size.height > 0 && old(self).size.width > 0 ==> {
                &&& final(self).cursor_visible()
                &&& final(self).reconciled() == *final(self)
            },
    {
        let Location { x, y } = self.location;
        let Size { width, height } = self.size;
        let before = self.scroll_offset;

        if y < self.scroll_offset.y {
            self.scroll_offset.y = y;
        } else if y >= self.scroll_offset.y.saturating_add(height) {
            self.scroll_offset.y = y.saturating_sub(height).saturating_add(1);
        }

        if x < self.scroll_offset.x {
            self.scroll_offset.x = x;
        } else if x >= self.scroll_offset.x.saturating_add(width) {
            self.scroll_offset.x = x.saturating_sub(width).saturating_add(1);
        }

        let offset_changed = self.scroll_offset != before;
        self.need_redraw = self.need_redraw || offset_changed;
    }

    /// Moves the cursor one step in `direction`, then scrolls it into view.
    pub fn move_pointer(&mut self, direction: &Direction)
        ensures
            *final(self) == old(self).after_move(*direction),
    {
        let Location { mut x, mut y } = self.location;
        let Size { height, width } = self.size;

        match direction {
            Direction::Up => {
                y = y.saturating_sub(1);
            },
            Direction::Down => {
                y = y.saturating_add(1);
            },
            Direction::Left => {
                x = x.saturating_sub(1);
            },
            Direction::Right => {
                x = x.saturating_add(1);
            },
            Direction::PageUp => {
                y = 0;
            },
            Direction::PageDown => {
                y = height.saturating_sub(1);
            },
            Direction::Home => {
                x = 0;
            },
            Direction::End => {
                x = width.saturating_sub(1);
            },
        }
        self.location = Location { x, y };
        self.scroll_into_view();
    }

    /// Applies a movement or a resize; `Quit` is the controller's concern
    /// and changes nothing here.
    pub fn handle_command(&mut self, command: EditorCommand)
        ensures
            *final(self) == old(self).after_command(command),
    {
        match command {
            EditorCommand::Resize(size) => self.resize(size),
            EditorCommand::Move(direction) => self.move_pointer(&direction),
            EditorCommand::Quit => {},
        }
    }
}

/// Reconciliation always leaves the cursor inside a window of positive size.
pub proof fn lemma_reconciled_cursor_visible(view: View)
    requires
        view.size.height > 0,
        view.size.width > 0,
    ensures
        view.reconciled().cursor_visible(),
{
}

/// After any non-empty sequence of movements, each followed by
/// reconciliation, the cursor lies inside a window of positive size.
pub proof fn lemma_moves_keep_cursor_visible(view: View, directions: Seq<Direction>)
    requires
        directions.len() > 0,
        view.size.height > 0,
        view.size.width > 0,
    ensures
        view.after_moves(directions).cursor_visible(),
        view.after_moves(directions).size == view.size,
    decreases directions.len(),
{
    if directions.len() > 1 {
        lemma_moves_keep_cursor_visible(view, directions.drop_last());
    }
    let before = view.after_moves(directions.drop_last());
    lemma_reconciled_cursor_visible(
        View { location: moved(before.location, directions.last(), before.size), ..before },
    );
}

/// Reconciling twice in a row, with no cursor change in between, changes
/// nothing the second time (for a window of positive size).
pub proof fn lemma_reconcile_idempotent(view: View)
    requires
        view.size.height > 0,
        view.size.width > 0,
    ensures
        view.reconciled().reconciled() == view.reconciled(),
{
}

/// Shrinking the window's height so that the cursor's row falls below it
/// moves the vertical scroll offset and marks the view stale.
pub proof fn lemma_shrink_scrolls(view: View, to: Size)
    requires
        to.height > 0,
        view.scroll_offset.y <= view.location.y,
        view.location.y >= view.scroll_offset.y + to.height,
    ensures
        view.resized(to).scroll_offset.y != view.scroll_offset.y,
        view.resized(to).scroll_offset.y == view.location.y - to.height + 1,
        view.resized(to).need_redraw,
{
}

/// A second resize to the same dimensions changes nothing, and in
/// particular does not mark the view stale again (for a window of positive
/// size).
pub proof fn lemma_resize_twice(view: View, to: Size)
    requires
        to.height > 0,
        to.width > 0,
    ensures
        view.resized(to).resized(to) == view.resized(to),
{
}

} // verus!
