//! The mind map as a mathematical value, and the rules that change it.
//!
//! [`MindMap`] is what a [`crate::MindMapApp`] stands for. Every function
//! here is a specification: the executable methods of `MindMapApp` are proved
//! to follow them.

use vstd::prelude::*;
use crate::color::Color;
use crate::geometry::{Pos2, Rect, Vec2};
use crate::input::{BackgroundInput, NodeInput};
use crate::node::{size_in_bounds, NodeModel};

verus! {

/// Whether the canvas is being panned.
pub enum PanState {
    /// No pan is under way.
    Idle,
    /// A pan is under way. The pointer was at `start` (in screen space) and
    /// the canvas was panned by `baseline` when it began.
    Panning { start: Pos2, baseline: Vec2 },
}

/// The state of a mind map.
pub struct MindMap {
    /// The nodes, in the order in which they were created.
    pub nodes: Seq<NodeModel>,
    /// The identifier that the next new node gets.
    pub next_id: nat,
    /// The index of the selected node, if one is selected.
    pub selected: Option<nat>,
    /// How far the canvas is panned: screen space is canvas space moved by
    /// this.
    pub offset: Vec2,
    /// Whether a pan is under way.
    pub pan: PanState,
}

/// One thing that the user does to the map.
pub enum Action {
    /// Presses the button that adds a node, while `view_center` is the
    /// center of the visible canvas in screen space.
    AddNode { view_center: Pos2 },
    /// Acts on the background for one frame.
    Background { frame: BackgroundInput },
    /// Acts on the rectangle of the node at `index` for one frame.
    Node { index: nat, input: NodeInput },
    /// Edits the label of the selected node in the side panel.
    EditLabel { label: Seq<char> },
    /// Edits the fill of the selected node in the side panel.
    EditColor { color: Color },
    /// Edits the width of the selected node in the side panel.
    EditWidth { width: i64 },
    /// Edits the height of the selected node in the side panel.
    EditHeight { height: i64 },
}

impl MindMap {
    /// The map with no node, nothing selected and the canvas not panned.
    pub open spec fn empty() -> MindMap {
        MindMap {
            nodes: Seq::empty(),
            next_id: 0,
            selected: None,
            offset: Vec2::zero(),
            pan: PanState::Idle,
        }
    }

    /// The invariant of the map: identifiers grow strictly along the list and
    /// stay below the next one to be given, every node's extent keeps the
    /// bounds, and the selection refers to a node of the list.
    pub open spec fn wf(self) -> bool {
        &&& forall|i: int, j: int|
            0 <= i < j < self.nodes.len() ==> self.nodes[i].id < self.nodes[j].id
        &&& forall|i: int| 0 <= i < self.nodes.len() ==> self.nodes[i].id < self.next_id
        &&& forall|i: int|
            0 <= i < self.nodes.len() ==> size_in_bounds(#[trigger] self.nodes[i].size)
        &&& self.selected matches Some(index) ==> index < self.nodes.len()
    }

    /// The canvas-space position that appears at `screen` on screen.
    pub open spec fn to_canvas(self, screen: Pos2) -> Pos2 {
        screen.translate_back(self.offset)
    }

    /// The map after a node was added whose center appears at `view_center`
    /// on screen: the node goes to the end of the list with the next
    /// identifier, and that identifier is used up.
    pub open spec fn add_node(self, view_center: Pos2) -> MindMap {
        MindMap {
            nodes: self.nodes.push(NodeModel::created(self.next_id, self.to_canvas(view_center))),
            next_id: self.next_id + 1,
            ..self
        }
    }

    /// The map after nodes were added one after another, the first at
    /// `view_centers[0]`.
    pub open spec fn add_nodes(self, view_centers: Seq<Pos2>) -> MindMap
        decreases view_centers.len(),
    {
        if view_centers.len() == 0 {
            self
        } else {
            self.add_nodes(view_centers.drop_last()).add_node(view_centers.last())
        }
    }

    /// The map with the node at `index` selected.
    pub open spec fn select(self, index: nat) -> MindMap {
        MindMap { selected: Some(index), ..self }
    }

    /// The map with no node selected.
    pub open spec fn clear_selection(self) -> MindMap {
        MindMap { selected: None, ..self }
    }

    /// The map after the node at `index` was dragged by `delta`.
    pub open spec fn drag_node(self, index: nat, delta: Vec2) -> MindMap
        recommends
            index < self.nodes.len(),
    {
        MindMap {
            nodes: self.nodes.update(index as int, self.nodes[index as int].moved(delta)),
            ..self
        }
    }

    /// The map after a pan began with the pointer at `pointer`. A pointer
    /// whose position is not known counts as being at the origin.
    pub open spec fn begin_pan(self, pointer: Option<Pos2>) -> MindMap {
        MindMap {
            pan: PanState::Panning {
                start: match pointer {
                    Some(p) => p,
                    None => Pos2::zero(),
                },
                baseline: self.offset,
            },
            ..self
        }
    }

    /// The map after the pointer moved to `current` during a pan: the canvas
    /// is panned by what it was panned by when the pan began, and by the way
    /// the pointer has gone since. Outside a pan nothing changes.
    pub open spec fn pan_to(self, current: Pos2) -> MindMap {
        match self.pan {
            PanState::Panning { start, baseline } => MindMap {
                offset: baseline.plus(current.offset_from(start)),
                ..self
            },
            PanState::Idle => self,
        }
    }

    /// The map after a pan ended.
    pub open spec fn end_pan(self) -> MindMap {
        MindMap { pan: PanState::Idle, ..self }
    }

    /// The map after one frame's input on the background.
    ///
    /// With the right button down, a drag that starts begins a pan, and a
    /// drag that goes on moves the canvas with the pointer. The pan ends as
    /// soon as the right button is up or the drag stops. A click without the
    /// right button clears the selection.
    pub open spec fn background(self, input: BackgroundInput) -> MindMap {
        let begun = if input.right_button_down && input.drag_started {
            self.begin_pan(input.pointer)
        } else {
            self
        };
        let panned = if input.right_button_down && input.dragged && input.pointer is Some {
            begun.pan_to(input.pointer->0)
        } else {
            begun
        };
        let ended = if !input.right_button_down || input.drag_stopped {
            panned.end_pan()
        } else {
            panned
        };
        if input.clicked && !input.right_button_down {
            ended.clear_selection()
        } else {
            ended
        }
    }

    /// The map after one frame's input on the node at `index`: a drag moves
    /// the node by the pointer's movement, a click selects it.
    pub open spec fn node_input(self, index: nat, input: NodeInput) -> MindMap
        recommends
            index < self.nodes.len(),
    {
        let dragged = if input.dragged {
            self.drag_node(index, input.drag_delta)
        } else {
            self
        };
        if input.clicked {
            dragged.select(index)
        } else {
            dragged
        }
    }

    /// The map with the node at `index` replaced by `node`.
    pub open spec fn with_node(self, index: nat, node: NodeModel) -> MindMap
        recommends
            index < self.nodes.len(),
    {
        MindMap { nodes: self.nodes.update(index as int, node), ..self }
    }

    /// Whether a node is selected that the list holds.
    pub open spec fn has_selection(self) -> bool {
        self.selected matches Some(index) && index < self.nodes.len()
    }

    /// The selected node.
    pub open spec fn selected_node(self) -> NodeModel
        recommends
            self.has_selection(),
    {
        self.nodes[self.selected->0 as int]
    }

    /// The map after the selected node's label was edited to `label`. With
    /// nothing selected nothing changes.
    pub open spec fn edit_label(self, label: Seq<char>) -> MindMap {
        if self.has_selection() {
            self.with_node(self.selected->0, self.selected_node().with_label(label))
        } else {
            self
        }
    }

    /// The map after the selected node's fill was edited to `color`. With
    /// nothing selected nothing changes.
    pub open spec fn edit_color(self, color: Color) -> MindMap {
        if self.has_selection() {
            self.with_node(self.selected->0, self.selected_node().with_color(color))
        } else {
            self
        }
    }

    /// The map after the selected node's width was edited to `width`, held
    /// to the bounds. With nothing selected nothing changes.
    pub open spec fn edit_width(self, width: i64) -> MindMap {
        if self.has_selection() {
            self.with_node(self.selected->0, self.selected_node().with_width(width))
        } else {
            self
        }
    }

    /// The map after the selected node's height was edited to `height`, held
    /// to the bounds. With nothing selected nothing changes.
    pub open spec fn edit_height(self, height: i64) -> MindMap {
        if self.has_selection() {
            self.with_node(self.selected->0, self.selected_node().with_height(height))
        } else {
            self
        }
    }

    /// The map after `action`. An action on a node that the list does not
    /// hold changes nothing.
    pub open spec fn step(self, action: Action) -> MindMap {
        match action {
            Action::AddNode { view_center } => self.add_node(view_center),
            Action::Background { frame } => self.background(frame),
            Action::Node { index, input } => if index < self.nodes.len() {
                self.node_input(index, input)
            } else {
                self
            },
            Action::EditLabel { label } => self.edit_label(label),
            Action::EditColor { color } => self.edit_color(color),
            Action::EditWidth { width } => self.edit_width(width),
            Action::EditHeight { height } => self.edit_height(height),
        }
    }

    /// The map after `actions`, the first of them first.
    pub open spec fn run(self, actions: Seq<Action>) -> MindMap
        decreases actions.len(),
    {
        if actions.len() == 0 {
            self
        } else {
            self.run(actions.drop_last()).step(actions.last())
        }
    }

    /// The rectangle that the node at `index` covers on screen.
    pub open spec fn screen_rect(self, index: int) -> Rect
        recommends
            0 <= index < self.nodes.len(),
    {
        self.nodes[index].screen_rect(self.offset)
    }

    /// Whether the node at `index` is the selected one.
    pub open spec fn is_selected(self, index: int) -> bool {
        self.selected == Some(index as nat) && index >= 0
    }
}

} // verus!
