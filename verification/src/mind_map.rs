//! The executable state of the mind map.

use vstd::prelude::*;
use crate::color::Color;
use crate::geometry::{Pos2, Rect, Vec2};
use crate::input::{BackgroundInput, NodeInput};
use crate::model::{MindMap, PanState};
use crate::node::{
    size_in_bounds, Node, NodeModel, MAX_HEIGHT, MAX_WIDTH, MIN_HEIGHT, MIN_WIDTH,
};

verus! {

/// The state of the mind map: its nodes, the selection and the pan of the
/// canvas.
pub struct MindMapApp {
    /// All nodes of the map, in the order in which they were created.
    pub nodes: Vec<Node>,
    /// The identifier that the next new node gets.
    pub next_id: usize,
    /// The index of the selected node, if one is selected.
    pub selected_node: Option<usize>,
    /// How far the canvas is panned.
    pub canvas_offset: Vec2,
    /// Whether a pan is under way.
    pub is_panning: bool,
    /// Where the pointer was, in screen space, when the pan began. It means
    /// something only while `is_panning` holds.
    pub pan_start: Pos2,
    /// How far the canvas was panned when the pan began. It means something
    /// only while `is_panning` holds.
    pub pan_offset_start: Vec2,
}

/// What a list of nodes stands for.
pub open spec fn node_models(nodes: Seq<Node>) -> Seq<NodeModel> {
    nodes.map_values(|node: Node| node@)
}

impl View for MindMapApp {
    type V = MindMap;

    open spec fn view(&self) -> MindMap {
        MindMap {
            nodes: node_models(self.nodes@),
            next_id: self.next_id as nat,
            selected: match self.selected_node {
                Some(index) => Some(index as nat),
                None => None,
            },
            offset: self.canvas_offset,
            pan: if self.is_panning {
                PanState::Panning { start: self.pan_start, baseline: self.pan_offset_start }
            } else {
                PanState::Idle
            },
        }
    }
}

impl MindMapApp {
    /// The invariant of the state: that of the map it stands for.
    pub open spec fn wf(&self) -> bool {
        self@.wf()
    }

    /// Creates the map with no node, nothing selected and the canvas not
    /// panned.
    pub fn new() -> (app: MindMapApp)
        ensures
            app@ == MindMap::empty(),
            app.wf(),
            app.pan_start == Pos2::zero(),
            app.pan_offset_start == Vec2::zero(),
    {
        let app = MindMapApp {
            nodes: Vec::new(),
            next_id: 0,
            selected_node: None,
            canvas_offset: Vec2::zero(),
            is_panning: false,
            pan_start: Pos2::zero(),
            pan_offset_start: Vec2::zero(),
        };
        assert(app@.nodes =~= Seq::<NodeModel>::empty());
        app
    }

    /// Adds a node whose center appears at `view_center` on screen, the
    /// center of the visible canvas. The node gets the next identifier, the
    /// label `Node` with its ordinal, and the default fill and extent.
    pub fn add_node(&mut self, view_center: Pos2)
        requires
            old(self).next_id < usize::MAX,
        ensures
            final(self)@ == old(self)@.add_node(view_center),
            old(self).wf() ==> final(self).wf(),
            final(self).nodes.len() == old(self).nodes.len() + 1,
            final(self).nodes@.drop_last() == old(self).nodes@,
            final(self).nodes@.last().id == old(self).next_id,
            final(self).nodes@.last().pos == view_center.translate_back(old(self).canvas_offset),
            final(self).next_id == old(self).next_id + 1,
            final(self).pan_start == old(self).pan_start,
            final(self).pan_offset_start == old(self).pan_offset_start,
    {
        let pos = view_center.translate_back(self.canvas_offset);
        let node = Node::new(self.next_id, pos);
        self.nodes.push(node);
        self.next_id = self.next_id + 1;
        assert(self@.nodes =~= old(self)@.nodes.push(node@));
    }

    /// Selects the node at `index`.
    pub fn select(&mut self, index: usize)
        requires
            index < old(self).nodes.len(),
        ensures
            final(self)@ == old(self)@.select(index as nat),
            old(self).wf() ==> final(self).wf(),
            final(self).nodes@ == old(self).nodes@,
            final(self).selected_node == Some(index),
            final(self).pan_start == old(self).pan_start,
            final(self).pan_offset_start == old(self).pan_offset_start,
    {
        self.selected_node = Some(index);
    }

    /// Clears the selection.
    pub fn clear_selection(&mut self)
        ensures
            final(self)@ == old(self)@.clear_selection(),
            old(self).wf() ==> final(self).wf(),
            final(self).nodes@ == old(self).nodes@,
            final(self).selected_node.is_none(),
            final(self).pan_start == old(self).pan_start,
            final(self).pan_offset_start == old(self).pan_offset_start,
    {
        self.selected_node = None;
    }

    /// Moves the node at `index` by `delta`. No other node changes.
    pub fn drag_node(&mut self, index: usize, delta: Vec2)
        requires
            index < old(self).nodes.len(),
        ensures
            final(self)@ == old(self)@.drag_node(index as nat, delta),
            old(self).wf() ==> final(self).wf(),
            final(self).nodes.len() == old(self).nodes.len(),
            final(self).nodes[index as int].pos == old(self).nodes[index as int].pos.translate(
                delta,
            ),
            forall|other: int|
                0 <= other < old(self).nodes.len() && other != index ==> final(self).nodes[other]
                    == old(self).nodes[other],
            final(self).pan_start == old(self).pan_start,
            final(self).pan_offset_start == old(self).pan_offset_start,
    {
        self.nodes[index].move_by(delta);
        assert(self@.nodes =~= old(self)@.nodes.update(
            index as int,
            old(self)@.nodes[index as int].moved(delta),
        ));
    }

    /// Begins a pan with the pointer at `pointer`, in screen space. A pointer
    /// whose position is not known counts as being at the origin.
    pub fn begin_pan(&mut self, pointer: Option<Pos2>)
        ensures
            final(self)@ == old(self)@.begin_pan(pointer),
            old(self).wf() ==> final(self).wf(),
            final(self).nodes@ == old(self).nodes@,
            final(self).is_panning,
    {
        self.is_panning = true;
        self.pan_start = match pointer {
            Some(p) => p,
            None => Pos2::zero(),
        };
        self.pan_offset_start = self.canvas_offset;
    }

    /// Follows the pointer to `current`, in screen space, during a pan.
    /// Outside a pan nothing changes.
    pub fn pan_to(&mut self, current: Pos2)
        ensures
            final(self)@ == old(self)@.pan_to(current),
            old(self).wf() ==> final(self).wf(),
            final(self).nodes@ == old(self).nodes@,
            final(self).is_panning == old(self).is_panning,
            final(self).pan_start == old(self).pan_start,
            final(self).pan_offset_start == old(self).pan_offset_start,
    {
        if self.is_panning {
            let delta = current.offset_from(self.pan_start);
            self.canvas_offset = self.pan_offset_start.plus(delta);
        }
    }

    /// Ends the pan, if one is under way.
    pub fn end_pan(&mut self)
        ensures
            final(self)@ == old(self)@.end_pan(),
            old(self).wf() ==> final(self).wf(),
            final(self).nodes@ == old(self).nodes@,
            !final(self).is_panning,
            final(self).pan_start == old(self).pan_start,
            final(self).pan_offset_start == old(self).pan_offset_start,
    {
        self.is_panning = false;
    }

    /// Takes one frame's input on the background: it begins, continues or
    /// ends a pan with the right button, and clears the selection on a click
    /// without it.
    pub fn handle_background(&mut self, input: BackgroundInput)
        ensures
            final(self)@ == old(self)@.background(input),
            old(self).wf() ==> final(self).wf(),
            final(self).nodes@ == old(self).nodes@,
            input.clicked && !input.right_button_down ==> final(self).selected_node is None,
    {
        if input.right_button_down && input.drag_started {
            self.begin_pan(input.pointer);
        }
        if self.is_panning && input.right_button_down && input.dragged {
            if let Some(current) = input.pointer {
                self.pan_to(current);
            }
        }
        if self.is_panning && (!input.right_button_down || input.drag_stopped) {
            self.end_pan();
        }
        if input.clicked && !input.right_button_down {
            self.clear_selection();
        }
    }

    /// Takes one frame's input on the node at `index`: a drag moves the node
    /// by the pointer's movement, a click selects it.
    pub fn handle_node(&mut self, index: usize, input: NodeInput)
        requires
            index < old(self).nodes.len(),
        ensures
            final(self)@ == old(self)@.node_input(index as nat, input),
            old(self).wf() ==> final(self).wf(),
            final(self).nodes.len() == old(self).nodes.len(),
            input.clicked ==> final(self).selected_node == Some(index),
    {
        if input.dragged {
            self.drag_node(index, input.drag_delta);
        }
        if input.clicked {
            self.select(index);
        }
    }

    /// The selected node, for the side panel to show.
    pub fn selected(&self) -> (node: Option<&Node>)
        ensures
            node is Some == self@.has_selection(),
            node matches Some(n) ==> *n == self.nodes[self.selected_node->0 as int]
                && n@ == self@.selected_node(),
    {
        match self.selected_node {
            Some(index) => if index < self.nodes.len() {
                Some(&self.nodes[index])
            } else {
                None
            },
            None => None,
        }
    }

    /// Replaces the label of the selected node. With nothing selected
    /// nothing changes.
    pub fn edit_label(&mut self, label: String)
        ensures
            final(self)@ == old(self)@.edit_label(label@),
            old(self).wf() ==> final(self).wf(),
            final(self).nodes.len() == old(self).nodes.len(),
            final(self).pan_start == old(self).pan_start,
            final(self).pan_offset_start == old(self).pan_offset_start,
    {
        if let Some(index) = self.selected_node {
            if index < self.nodes.len() {
                self.nodes[index].set_label(label);
                assert(self@.nodes =~= old(self)@.nodes.update(
                    index as int,
                    old(self)@.nodes[index as int].with_label(label@),
                ));
            }
        }
    }

    /// Replaces the fill of the selected node. With nothing selected
    /// nothing changes.
    pub fn edit_color(&mut self, color: Color)
        ensures
            final(self)@ == old(self)@.edit_color(color),
            old(self).wf() ==> final(self).wf(),
            final(self).nodes.len() == old(self).nodes.len(),
            final(self).pan_start == old(self).pan_start,
            final(self).pan_offset_start == old(self).pan_offset_start,
    {
        if let Some(index) = self.selected_node {
            if index < self.nodes.len() {
                self.nodes[index].set_color(color);
                assert(self@.nodes =~= old(self)@.nodes.update(
                    index as int,
                    old(self)@.nodes[index as int].with_color(color),
                ));
            }
        }
    }

    /// Sets the width of the selected node to the value nearest to `width`
    /// that the bounds allow. With nothing selected nothing changes.
    pub fn edit_width(&mut self, width: i64)
        ensures
            final(self)@ == old(self)@.edit_width(width),
            old(self).wf() ==> final(self).wf(),
            final(self).nodes.len() == old(self).nodes.len(),
            final(self)@.has_selection() ==> MIN_WIDTH <= final(self)@.selected_node().size.x
                <= MAX_WIDTH,
            final(self).pan_start == old(self).pan_start,
            final(self).pan_offset_start == old(self).pan_offset_start,
    {
        if let Some(index) = self.selected_node {
            if index < self.nodes.len() {
                self.nodes[index].set_width(width);
                assert(self@.nodes =~= old(self)@.nodes.update(
                    index as int,
                    old(self)@.nodes[index as int].with_width(width),
                ));
            }
        }
    }

    /// Sets the height of the selected node to the value nearest to `height`
    /// that the bounds allow. With nothing selected nothing changes.
    pub fn edit_height(&mut self, height: i64)
        ensures
            final(self)@ == old(self)@.edit_height(height),
            old(self).wf() ==> final(self).wf(),
            final(self).nodes.len() == old(self).nodes.len(),
            final(self)@.has_selection() ==> MIN_HEIGHT <= final(self)@.selected_node().size.y
                <= MAX_HEIGHT,
            final(self).pan_start == old(self).pan_start,
            final(self).pan_offset_start == old(self).pan_offset_start,
    {
        if let Some(index) = self.selected_node {
            if index < self.nodes.len() {
                self.nodes[index].set_height(height);
                assert(self@.nodes =~= old(self)@.nodes.update(
                    index as int,
                    old(self)@.nodes[index as int].with_height(height),
                ));
            }
        }
    }

    /// The rectangle that the node at `index` covers on screen: its canvas
    /// rectangle moved by the pan of the canvas.
    pub fn node_screen_rect(&self, index: usize) -> (rect: Rect)
        requires
            index < self.nodes.len(),
        ensures
            rect == self@.screen_rect(index as int),
    {
        self.nodes[index].screen_rect(self.canvas_offset)
    }

    /// Whether the node at `index` is the selected one.
    pub fn is_selected(&self, index: usize) -> (yes: bool)
        ensures
            yes == self@.is_selected(index as int),
    {
        match self.selected_node {
            Some(selected) => selected == index,
            None => false,
        }
    }

    /// Checks the invariant of a state whose fields were set by hand.
    pub fn is_well_formed(&self) -> (ok: bool)
        ensures
            ok == self.wf(),
    {
        if let Some(index) = self.selected_node {
            if index >= self.nodes.len() {
                return false;
            }
        }
        let count: usize = self.nodes.len();
        let mut i: usize = 0;
        while i < count
            invariant
                i <= count,
                count == self.nodes.len(),
                forall|a: int, b: int| 0 <= a < b < i ==> self.nodes[a].id < self.nodes[b].id,
                forall|a: int| 0 <= a < i ==> self.nodes[a].id < self.next_id,
                forall|a: int| 0 <= a < i ==> size_in_bounds(#[trigger] self.nodes[a].size),
            decreases count - i,
        {
            let node = &self.nodes[i];
            if node.id >= self.next_id {
                assert(self@.nodes[i as int].id == node.id);
                return false;
            }
            if i > 0 && self.nodes[i - 1].id >= node.id {
                assert(self@.nodes[i - 1].id == self.nodes[i - 1].id);
                assert(self@.nodes[i as int].id == node.id);
                return false;
            }
            if node.size.x < MIN_WIDTH || node.size.x > MAX_WIDTH || node.size.y < MIN_HEIGHT
                || node.size.y > MAX_HEIGHT {
                assert(self@.nodes[i as int].size == node.size);
                return false;
            }
            i += 1;
        }
        true
    }
}

impl Default for MindMapApp {
    fn default() -> (app: MindMapApp)
        ensures
            app@ == MindMap::empty(),
            app.wf(),
    {
        MindMapApp::new()
    }
}

} // verus!
