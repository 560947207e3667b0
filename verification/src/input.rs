//! What the host window reports to the map in one frame.

use vstd::prelude::*;
use crate::geometry::{Pos2, Vec2};

verus! {

/// What the pointer did on the empty canvas behind the nodes.
#[derive(Clone, Copy, Debug, PartialEq, Eq, Structural)]
pub struct BackgroundInput {
    /// The secondary (right) button is held down.
    pub right_button_down: bool,
    /// A drag began on the background in this frame.
    pub drag_started: bool,
    /// The background is being dragged.
    pub dragged: bool,
    /// A drag of the background ended in this frame.
    pub drag_stopped: bool,
    /// The background was clicked in this frame.
    pub clicked: bool,
    /// Where the pointer is, in screen space, if it is known.
    pub pointer: Option<Pos2>,
}

/// What the pointer did on one node's rectangle.
#[derive(Clone, Copy, Debug, PartialEq, Eq, Structural)]
pub struct NodeInput {
    /// The node is being dragged.
    pub dragged: bool,
    /// How far the pointer moved since the last frame.
    pub drag_delta: Vec2,
    /// The node was clicked in this frame.
    pub clicked: bool,
}

} // verus!
