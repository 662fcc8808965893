//! A position in document coordinates (column, row).

use vstd::prelude::*;

use crate::terminal::Position;

verus! {

/// Column `x` and row `y` of the cursor in the document, independent of
/// what is currently visible.
#[derive(Clone, Copy, Debug, PartialEq, Eq, Structural)]
pub struct Location {
    pub x: usize,
    pub y: usize,
}

impl From<Location> for Position {
    fn from(loc: Location) -> (r: Position)
        ensures
            r.x == loc.x,
            r.y == loc.y,
    {
        Position { x: loc.x, y: loc.y }
    }
}

impl vstd::std_specs::convert::FromSpecImpl<Location> for Position {
    open spec fn obeys_from_spec() -> bool {
        true
    }

    open spec fn from_spec(loc: Location) -> Position {
        Position { x: loc.x, y: loc.y }
    }
}

} // verus!
