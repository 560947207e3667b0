//! A mind map on an unbounded, pannable canvas: labeled, colored, resizable
//! rectangular nodes that can be added, selected, dragged and edited.
//!
//! The crate holds the state of the map and every rule that changes it. A
//! host window feeds it one event at a time (a button click, a pointer drag,
//! an edit made in the side panel) and draws what [`MindMapApp::render`]
//! returns.

pub mod color;
pub mod geometry;
pub mod input;
pub mod label;
pub mod laws;
pub mod mind_map;
pub mod model;
pub mod node;
pub mod render;

pub use color::Color;
pub use geometry::{Pos2, Rect, Vec2};
pub use input::{BackgroundInput, NodeInput};
pub use mind_map::MindMapApp;
pub use model::{Action, MindMap, PanState};
pub use node::{Node, NodeModel};
pub use render::{DrawCommand, DrawModel};
