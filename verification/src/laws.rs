//! What holds of every mind map, whatever the user does.

use vstd::prelude::*;
use crate::geometry::{clamp_coord, is_coord, Pos2, Vec2};
use crate::input::{BackgroundInput, NodeInput};
use crate::model::{Action, MindMap};
use crate::node::{MAX_HEIGHT, MAX_WIDTH, MIN_HEIGHT, MIN_WIDTH};

verus! {

/// Background inputs as actions, in the same order.
pub open spec fn background_actions(inputs: Seq<BackgroundInput>) -> Seq<Action> {
    inputs.map_values(|frame: BackgroundInput| Action::Background { frame })
}

/// The empty map keeps the invariant.
pub proof fn lemma_empty_is_well_formed()
    ensures
        MindMap::empty().wf(),
{
}

/// No action breaks the invariant.
pub proof fn lemma_step_keeps_invariant(map: MindMap, action: Action)
    requires
        map.wf(),
    ensures
        map.step(action).wf(),
{
}

/// No sequence of actions breaks the invariant.
pub proof fn lemma_run_keeps_invariant(map: MindMap, actions: Seq<Action>)
    requires
        map.wf(),
    ensures
        map.run(actions).wf(),
    decreases actions.len(),
{
    if actions.len() > 0 {
        lemma_run_keeps_invariant(map, actions.drop_last());
        lemma_step_keeps_invariant(map.run(actions.drop_last()), actions.last());
    }
}

/// In every state that the user can reach from the empty map, identifiers
/// grow strictly along the list, so no two nodes share one; every node is
/// between 30 and 200 wide and between 20 and 150 high; and the selection,
/// if there is one, refers to a node of the list.
pub proof fn lemma_reachable_states(actions: Seq<Action>)
    ensures
        ({
            let map = MindMap::empty().run(actions);
            &&& forall|i: int, j: int|
                0 <= i < j < map.nodes.len() ==> map.nodes[i].id < map.nodes[j].id
            &&& forall|i: int, j: int|
                0 <= i < map.nodes.len() && 0 <= j < map.nodes.len() && i != j
                    ==> map.nodes[i].id != map.nodes[j].id
            &&& forall|i: int|
                0 <= i < map.nodes.len() ==> 30 <= (#[trigger] map.nodes[i].size).x <= 200 && 20
                    <= map.nodes[i].size.y <= 150
            &&& map.selected matches Some(index) ==> index < map.nodes.len()
        }),
{
    lemma_run_keeps_invariant(MindMap::empty(), actions);
}

/// No action removes a node, moves it in the list or changes its
/// identifier.
pub proof fn lemma_step_keeps_identifiers(map: MindMap, action: Action)
    ensures
        map.step(action).nodes.len() >= map.nodes.len(),
        forall|i: int|
            0 <= i < map.nodes.len() ==> (#[trigger] map.step(action).nodes[i]).id
                == map.nodes[i].id,
{
}

/// Nodes that are added one after another get consecutive identifiers,
/// beginning with the next one of the map. The nodes that were there keep
/// their places, and in the whole list identifiers grow strictly, so no two
/// nodes share one.
pub proof fn lemma_added_ids_increase(map: MindMap, view_centers: Seq<Pos2>)
    requires
        map.wf(),
    ensures
        ({
            let after = map.add_nodes(view_centers);
            &&& after.wf()
            &&& after.nodes.len() == map.nodes.len() + view_centers.len()
            &&& after.next_id == map.next_id + view_centers.len()
            &&& forall|i: int| 0 <= i < map.nodes.len() ==> after.nodes[i] == map.nodes[i]
            &&& forall|k: int|
                0 <= k < view_centers.len() ==> (#[trigger] after.nodes[map.nodes.len() + k]).id
                    == map.next_id + k
            &&& forall|i: int, j: int|
                0 <= i < j < after.nodes.len() ==> after.nodes[i].id < after.nodes[j].id
            &&& forall|i: int, j: int|
                0 <= i < after.nodes.len() && 0 <= j < after.nodes.len() && i != j
                    ==> after.nodes[i].id != after.nodes[j].id
        }),
    decreases view_centers.len(),
{
    if view_centers.len() > 0 {
        lemma_added_ids_increase(map, view_centers.drop_last());
    }
}

/// Input on the background changes no node and uses up no identifier.
pub proof fn lemma_background_keeps_nodes(map: MindMap, input: BackgroundInput)
    ensures
        map.background(input).nodes == map.nodes,
        map.background(input).next_id == map.next_id,
{
}

/// A new node lies, in canvas space, where the center of the view was less
/// the pan of the canvas at that moment, and panning the canvas afterwards,
/// for however many frames, does not move it.
///
/// The difference has to be a coordinate in both directions.
pub proof fn lemma_new_node_position(
    map: MindMap,
    view_center: Pos2,
    later: Seq<BackgroundInput>,
)
    requires
        is_coord(view_center.x - map.offset.x),
        is_coord(view_center.y - map.offset.y),
    ensures
        ({
            let created = map.add_node(view_center);
            let after = created.run(background_actions(later));
            &&& created.nodes.len() == map.nodes.len() + 1
            &&& created.nodes.last().pos.x == view_center.x - map.offset.x
            &&& created.nodes.last().pos.y == view_center.y - map.offset.y
            &&& after.nodes == created.nodes
        }),
    decreases later.len(),
{
    let created = map.add_node(view_center);
    if later.len() > 0 {
        lemma_new_node_position(map, view_center, later.drop_last());
        let before = created.run(background_actions(later.drop_last()));
        assert(background_actions(later).drop_last() =~= background_actions(later.drop_last()));
        lemma_background_keeps_nodes(before, later.last());
    }
}

/// Dragging a node by `delta` moves that node's center by exactly `delta`
/// and changes nothing else: not the rest of that node, not another node,
/// not the selection and not the pan.
///
/// The sum has to be a coordinate in both directions.
pub proof fn lemma_drag_moves_one_node(map: MindMap, index: nat, delta: Vec2)
    requires
        index < map.nodes.len(),
        is_coord(map.nodes[index as int].pos.x + delta.x),
        is_coord(map.nodes[index as int].pos.y + delta.y),
    ensures
        ({
            let after = map.drag_node(index, delta);
            let node = map.nodes[index as int];
            let moved = after.nodes[index as int];
            &&& moved.pos.x == node.pos.x + delta.x
            &&& moved.pos.y == node.pos.y + delta.y
            &&& moved.id == node.id
            &&& moved.label == node.label
            &&& moved.color == node.color
            &&& moved.size == node.size
            &&& after.nodes.len() == map.nodes.len()
            &&& forall|j: int|
                0 <= j < map.nodes.len() && j != index ==> after.nodes[j] == map.nodes[j]
            &&& after.next_id == map.next_id
            &&& after.selected == map.selected
            &&& after.offset == map.offset
            &&& after.pan == map.pan
        }),
{
}

/// A node's center moves only when that node is dragged.
pub proof fn lemma_only_a_drag_moves(map: MindMap, action: Action, index: int)
    requires
        0 <= index < map.nodes.len(),
        !(action matches Action::Node { index: target, input } && target == index
            && input.dragged),
    ensures
        map.step(action).nodes[index].pos == map.nodes[index].pos,
{
}

/// A click on a node's rectangle selects that node.
pub proof fn lemma_click_selects(map: MindMap, index: nat, input: NodeInput)
    requires
        index < map.nodes.len(),
        input.clicked,
    ensures
        map.node_input(index, input).selected == Some(index),
{
}

/// A click on the background without the right button clears the selection.
pub proof fn lemma_background_click_clears(map: MindMap, input: BackgroundInput)
    requires
        input.clicked,
        !input.right_button_down,
    ensures
        map.background(input).selected is None,
{
}

/// During a pan the canvas follows the pointer: how far it is panned
/// depends on where the pointer is now, not on the way it took.
pub proof fn lemma_pan_follows_pointer(map: MindMap, detour: Pos2, pointer: Pos2)
    ensures
        map.pan_to(detour).pan_to(pointer) == map.pan_to(pointer),
{
}

/// A pan in which the pointer comes back to where it began leaves the canvas
/// panned by exactly what it was panned by before, wherever the pointer went
/// in between.
pub proof fn lemma_pan_there_and_back(map: MindMap, start: Pos2, there: Pos2)
    ensures
        map.begin_pan(Some(start)).pan_to(there).pan_to(start).offset == map.offset,
        map.begin_pan(Some(start)).pan_to(there).pan_to(start).end_pan() == map.end_pan(),
{
}

/// A pan that moves the pointer by `v` and then back by `-v` leaves the
/// canvas panned by exactly what it was panned by before.
///
/// Where the pointer goes has to be a position: `pointer` moved by `v` must
/// have coordinates.
pub proof fn lemma_pan_round_trip(map: MindMap, pointer: Pos2, v: Vec2)
    requires
        is_coord(pointer.x + v.x),
        is_coord(pointer.y + v.y),
    ensures
        ({
            let there = pointer.translate(v);
            let back = there.translate_back(v);
            let begun = map.begin_pan(Some(pointer));
            &&& back == pointer
            &&& begun.pan_to(there).offset.x == clamp_coord(map.offset.x + v.x)
            &&& begun.pan_to(there).offset.y == clamp_coord(map.offset.y + v.y)
            &&& begun.pan_to(there).pan_to(back).offset == map.offset
        }),
{
}

/// An edit of the width or the height in the side panel leaves the selected
/// node between 30 and 200 wide and between 20 and 150 high, whatever value
/// was entered; the width becomes the entered value where that lies between
/// 30 and 200, and likewise the height.
pub proof fn lemma_edited_size_in_bounds(map: MindMap, width: i64, height: i64)
    requires
        map.wf(),
        map.has_selection(),
    ensures
        ({
            let widened = map.edit_width(width).selected_node();
            let heightened = map.edit_height(height).selected_node();
            &&& MIN_WIDTH <= widened.size.x <= MAX_WIDTH
            &&& MIN_HEIGHT <= widened.size.y <= MAX_HEIGHT
            &&& MIN_WIDTH <= heightened.size.x <= MAX_WIDTH
            &&& MIN_HEIGHT <= heightened.size.y <= MAX_HEIGHT
            &&& MIN_WIDTH <= width <= MAX_WIDTH ==> widened.size.x == width
            &&& MIN_HEIGHT <= height <= MAX_HEIGHT ==> heightened.size.y == height
            &&& widened.size.y == map.selected_node().size.y
            &&& heightened.size.x == map.selected_node().size.x
        }),
{
}

} // verus!
