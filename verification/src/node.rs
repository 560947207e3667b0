//! A single node of the mind map.

use vstd::prelude::*;
use crate::color::Color;
use crate::geometry::{clamp, clamp_between, Pos2, Rect, Vec2};
use crate::label::{label_text, make_label};

verus! {

/// The smallest width a node can be given.
pub const MIN_WIDTH: i64 = 30;

/// The largest width a node can be given.
pub const MAX_WIDTH: i64 = 200;

/// The smallest height a node can be given.
pub const MIN_HEIGHT: i64 = 20;

/// The largest height a node can be given.
pub const MAX_HEIGHT: i64 = 150;

/// The width of a node that has just been created.
pub const DEFAULT_WIDTH: i64 = 60;

/// The height of a node that has just been created.
pub const DEFAULT_HEIGHT: i64 = 40;

/// A node of the mind map: a labeled, colored rectangle.
#[derive(Debug)]
pub struct Node {
    /// The node's identifier, given at creation and never changed.
    pub id: usize,
    /// The center of the node, in canvas space.
    pub pos: Pos2,
    /// The text shown inside the node.
    pub label: String,
    /// The fill of the node.
    pub color: Color,
    /// The extent of the node: width and height.
    pub size: Vec2,
}

/// What a [`Node`] stands for: the same record with an unbounded identifier
/// and the label as a sequence of characters.
pub struct NodeModel {
    pub id: nat,
    pub pos: Pos2,
    pub label: Seq<char>,
    pub color: Color,
    pub size: Vec2,
}

impl View for Node {
    type V = NodeModel;

    open spec fn view(&self) -> NodeModel {
        NodeModel {
            id: self.id as nat,
            pos: self.pos,
            label: self.label@,
            color: self.color,
            size: self.size,
        }
    }
}

/// Whether `size` lies within the bounds that a node's extent must keep.
pub open spec fn size_in_bounds(size: Vec2) -> bool {
    &&& MIN_WIDTH <= size.x <= MAX_WIDTH
    &&& MIN_HEIGHT <= size.y <= MAX_HEIGHT
}

impl NodeModel {
    /// The node that is created with identifier `id`, centered on `pos`: it is
    /// labeled with its ordinal `id + 1` and has the default fill and extent.
    pub open spec fn created(id: nat, pos: Pos2) -> NodeModel {
        NodeModel {
            id,
            pos,
            label: label_text(id + 1),
            color: Color::node_default(),
            size: Vec2 { x: DEFAULT_WIDTH, y: DEFAULT_HEIGHT },
        }
    }

    /// This node with its center moved by `delta`.
    pub open spec fn moved(self, delta: Vec2) -> NodeModel {
        NodeModel { pos: self.pos.translate(delta), ..self }
    }

    /// This node with `label` as its text.
    pub open spec fn with_label(self, label: Seq<char>) -> NodeModel {
        NodeModel { label, ..self }
    }

    /// This node filled with `color`.
    pub open spec fn with_color(self, color: Color) -> NodeModel {
        NodeModel { color, ..self }
    }

    /// This node with the width nearest to `width` that the bounds allow.
    pub open spec fn with_width(self, width: i64) -> NodeModel {
        NodeModel {
            size: Vec2 {
                x: clamp_between(width as int, MIN_WIDTH as int, MAX_WIDTH as int) as i64,
                y: self.size.y,
            },
            ..self
        }
    }

    /// This node with the height nearest to `height` that the bounds allow.
    pub open spec fn with_height(self, height: i64) -> NodeModel {
        NodeModel {
            size: Vec2 {
                x: self.size.x,
                y: clamp_between(height as int, MIN_HEIGHT as int, MAX_HEIGHT as int) as i64,
            },
            ..self
        }
    }

    /// The rectangle that the node covers on screen when the canvas is
    /// panned by `offset`.
    pub open spec fn screen_rect(self, offset: Vec2) -> Rect {
        Rect { center: self.pos.translate(offset), size: self.size }
    }
}

impl Node {
    /// Creates the node with identifier `id`, centered on `pos`.
    pub fn new(id: usize, pos: Pos2) -> (node: Node)
        requires
            id < usize::MAX,
        ensures
            node@ == NodeModel::created(id as nat, pos),
            size_in_bounds(node.size),
    {
        Node {
            id,
            pos,
            label: make_label(id + 1),
            color: Color::node_default(),
            size: Vec2::new(DEFAULT_WIDTH, DEFAULT_HEIGHT),
        }
    }

    /// Moves the node's center by `delta`.
    pub fn move_by(&mut self, delta: Vec2)
        ensures
            final(self)@ == old(self)@.moved(delta),
    {
        self.pos = self.pos.translate(delta);
    }

    /// Replaces the node's text.
    pub fn set_label(&mut self, label: String)
        ensures
            final(self)@ == old(self)@.with_label(label@),
    {
        self.label = label;
    }

    /// Replaces the node's fill.
    pub fn set_color(&mut self, color: Color)
        ensures
            final(self)@ == old(self)@.with_color(color),
    {
        self.color = color;
    }

    /// Sets the node's width to the value nearest to `width` that the bounds
    /// allow.
    pub fn set_width(&mut self, width: i64)
        ensures
            final(self)@ == old(self)@.with_width(width),
            MIN_WIDTH <= final(self).size.x <= MAX_WIDTH,
    {
        self.size.x = clamp(width, MIN_WIDTH, MAX_WIDTH);
    }

    /// Sets the node's height to the value nearest to `height` that the
    /// bounds allow.
    pub fn set_height(&mut self, height: i64)
        ensures
            final(self)@ == old(self)@.with_height(height),
            MIN_HEIGHT <= final(self).size.y <= MAX_HEIGHT,
    {
        self.size.y = clamp(height, MIN_HEIGHT, MAX_HEIGHT);
    }

    /// The rectangle that the node covers on screen when the canvas is
    /// panned by `offset`.
    pub fn screen_rect(&self, offset: Vec2) -> (rect: Rect)
        ensures
            rect == self@.screen_rect(offset),
    {
        Rect::from_center_size(self.pos.translate(offset), self.size)
    }
}

} // verus!
