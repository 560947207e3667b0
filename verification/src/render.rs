//! What is drawn in one frame.
//!
//! Drawing keeps no state of its own: the picture follows from the nodes,
//! the pan of the canvas and the selection. Each node is a filled rounded
//! rectangle with its label centered in it; the selected node also has an
//! outline inside its rectangle. The picture is a list of drawing commands
//! for the host window to carry out in order.

use vstd::prelude::*;
use crate::color::Color;
use crate::geometry::{Pos2, Rect};
use crate::mind_map::MindMapApp;
use crate::model::MindMap;

verus! {

/// The radius of the rounded corners of a node's rectangle, in canvas units.
pub const CORNER_RADIUS: i64 = 10;

/// The size of the font of a node's label, in canvas units.
pub const LABEL_FONT_SIZE: i64 = 18;

/// The width of the outline of the selected node, in canvas units.
pub const OUTLINE_WIDTH: i64 = 2;

/// One thing for the host window to draw. Positions are in screen space.
#[derive(Debug, PartialEq, Eq)]
pub enum DrawCommand {
    /// A filled rectangle with rounded corners.
    FilledRect { rect: Rect, corner_radius: i64, color: Color },
    /// A line of text whose middle lies on `center`.
    CenteredText { center: Pos2, text: String, font_size: i64, color: Color },
    /// The outline of a rectangle with rounded corners, `width` wide and
    /// drawn inside the rectangle.
    StrokedRect { rect: Rect, corner_radius: i64, width: i64, color: Color },
}

/// What a [`DrawCommand`] stands for.
pub enum DrawModel {
    FilledRect { rect: Rect, corner_radius: i64, color: Color },
    CenteredText { center: Pos2, text: Seq<char>, font_size: i64, color: Color },
    StrokedRect { rect: Rect, corner_radius: i64, width: i64, color: Color },
}

impl View for DrawCommand {
    type V = DrawModel;

    open spec fn view(&self) -> DrawModel {
        match *self {
            DrawCommand::FilledRect { rect, corner_radius, color } => DrawModel::FilledRect {
                rect,
                corner_radius,
                color,
            },
            DrawCommand::CenteredText {
                center,
                text,
                font_size,
                color,
            } => DrawModel::CenteredText { center, text: text@, font_size, color },
            DrawCommand::StrokedRect {
                rect,
                corner_radius,
                width,
                color,
            } => DrawModel::StrokedRect { rect, corner_radius, width, color },
        }
    }
}

/// What a list of drawing commands stands for.
pub open spec fn draw_models(commands: Seq<DrawCommand>) -> Seq<DrawModel> {
    commands.map_values(|command: DrawCommand| command@)
}

impl MindMap {
    /// The filled rectangle of the node at `index`: where the node is on
    /// screen, in the node's own fill.
    pub open spec fn draw_fill(self, index: int) -> DrawModel
        recommends
            0 <= index < self.nodes.len(),
    {
        DrawModel::FilledRect {
            rect: self.screen_rect(index),
            corner_radius: CORNER_RADIUS,
            color: self.nodes[index].color,
        }
    }

    /// The label of the node at `index`, centered on the node.
    pub open spec fn draw_label(self, index: int) -> DrawModel
        recommends
            0 <= index < self.nodes.len(),
    {
        DrawModel::CenteredText {
            center: self.screen_rect(index).center,
            text: self.nodes[index].label,
            font_size: LABEL_FONT_SIZE,
            color: Color::label_text(),
        }
    }

    /// The outline that marks the node at `index` as the selected one.
    pub open spec fn draw_outline(self, index: int) -> DrawModel
        recommends
            0 <= index < self.nodes.len(),
    {
        DrawModel::StrokedRect {
            rect: self.screen_rect(index),
            corner_radius: CORNER_RADIUS,
            width: OUTLINE_WIDTH,
            color: Color::selection_outline(),
        }
    }

    /// How the node at `index` is drawn: its filled rectangle, its label over
    /// that and, if it is the selected node, its outline over both.
    pub open spec fn draw_node(self, index: int) -> Seq<DrawModel>
        recommends
            0 <= index < self.nodes.len(),
    {
        if self.is_selected(index) {
            seq![self.draw_fill(index), self.draw_label(index), self.draw_outline(index)]
        } else {
            seq![self.draw_fill(index), self.draw_label(index)]
        }
    }

    /// How the first `count` nodes are drawn, one after another in the order
    /// of the list.
    pub open spec fn draw_first(self, count: nat) -> Seq<DrawModel>
        recommends
            count <= self.nodes.len(),
        decreases count,
    {
        if count == 0 {
            Seq::empty()
        } else {
            self.draw_first((count - 1) as nat) + self.draw_node(count - 1)
        }
    }

    /// The picture of the map: every node in the order of the list, so that
    /// a later node is drawn over an earlier one.
    pub open spec fn picture(self) -> Seq<DrawModel> {
        self.draw_first(self.nodes.len())
    }
}

impl MindMapApp {
    /// The picture of the map in its present state, as the commands that
    /// draw it.
    pub fn render(&self) -> (commands: Vec<DrawCommand>)
        ensures
            draw_models(commands@) == self@.picture(),
    {
        let count: usize = self.nodes.len();
        let mut commands: Vec<DrawCommand> = Vec::new();
        let mut i: usize = 0;
        while i < count
            invariant
                i <= count,
                count == self.nodes.len(),
                draw_models(commands@) == self@.draw_first(i as nat),
            decreases count - i,
        {
            let node = &self.nodes[i];
            let rect = self.node_screen_rect(i);
            commands.push(
                DrawCommand::FilledRect { rect, corner_radius: CORNER_RADIUS, color: node.color },
            );
            commands.push(
                DrawCommand::CenteredText {
                    center: rect.center,
                    text: node.label.clone(),
                    font_size: LABEL_FONT_SIZE,
                    color: Color::label_text(),
                },
            );
            if self.is_selected(i) {
                commands.push(
                    DrawCommand::StrokedRect {
                        rect,
                        corner_radius: CORNER_RADIUS,
                        width: OUTLINE_WIDTH,
                        color: Color::selection_outline(),
                    },
                );
            }
            i += 1;
        }
        commands
    }
}

} // verus!
