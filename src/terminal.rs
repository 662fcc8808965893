//! Plain geometry shared by the viewport and the terminal sink.

use vstd::prelude::*;

verus! {

/// Dimensions of the terminal window, in character cells.
#[derive(Clone, Copy, Debug, PartialEq, Eq, Structural)]
pub struct Size {
    pub height: usize,
    pub width: usize,
}

/// A cell position on the terminal screen.
#[derive(Clone, Copy, Debug, PartialEq, Eq, Structural)]
pub struct Position {
    pub x: usize,
    pub y: usize,
}

} // verus!
