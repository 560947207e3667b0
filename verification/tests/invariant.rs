use mindmap::{BackgroundInput, Color, MindMapApp, Node, NodeInput, Pos2, Vec2};

fn node(id: usize, width: i64, height: i64) -> Node {
    Node {
        id,
        pos: Pos2 { x: 0, y: 0 },
        label: String::from("n"),
        color: Color { r: 0, g: 0, b: 0 },
        size: Vec2 { x: width, y: height },
    }
}

fn map_of(nodes: Vec<Node>, next_id: usize, selected_node: Option<usize>) -> MindMapApp {
    MindMapApp {
        nodes,
        next_id,
        selected_node,
        canvas_offset: Vec2 { x: 0, y: 0 },
        is_panning: false,
        pan_start: Pos2 { x: 0, y: 0 },
        pan_offset_start: Vec2 { x: 0, y: 0 },
    }
}

#[test]
fn hand_built_map_that_keeps_the_invariant_is_accepted() {
    let app = map_of(vec![node(2, 30, 20), node(5, 200, 150), node(6, 60, 40)], 7, Some(2));
    assert!(app.is_well_formed());
    let gaps = map_of(vec![node(0, 60, 40)], usize::MAX, None);
    assert!(gaps.is_well_formed());
}

#[test]
fn selection_outside_the_list_is_rejected() {
    assert!(!map_of(vec![], 0, Some(0)).is_well_formed());
    assert!(!map_of(vec![node(0, 60, 40)], 1, Some(1)).is_well_formed());
    assert!(map_of(vec![node(0, 60, 40)], 1, Some(0)).is_well_formed());
}

#[test]
fn repeated_or_falling_ids_are_rejected() {
    assert!(!map_of(vec![node(1, 60, 40), node(1, 60, 40)], 5, None).is_well_formed());
    assert!(!map_of(vec![node(2, 60, 40), node(1, 60, 40)], 5, None).is_well_formed());
    assert!(
        !map_of(vec![node(0, 60, 40), node(3, 60, 40), node(2, 60, 40)], 5, None).is_well_formed()
    );
}

#[test]
fn id_not_below_the_next_one_is_rejected() {
    assert!(!map_of(vec![node(0, 60, 40)], 0, None).is_well_formed());
    assert!(!map_of(vec![node(0, 60, 40), node(4, 60, 40)], 4, None).is_well_formed());
    assert!(map_of(vec![node(0, 60, 40), node(4, 60, 40)], 5, None).is_well_formed());
}

#[test]
fn size_outside_the_bounds_is_rejected() {
    assert!(!map_of(vec![node(0, 29, 40)], 1, None).is_well_formed());
    assert!(!map_of(vec![node(0, 201, 40)], 1, None).is_well_formed());
    assert!(!map_of(vec![node(0, 60, 19)], 1, None).is_well_formed());
    assert!(!map_of(vec![node(0, 60, 151)], 1, None).is_well_formed());
    assert!(!map_of(vec![node(0, 60, 40), node(1, 0, 0)], 2, None).is_well_formed());
}

#[test]
fn every_action_keeps_the_invariant() {
    let mut app = MindMapApp::new();
    assert!(app.is_well_formed());
    for round in 0..6i64 {
        app.add_node(Pos2::new(100 * round, 50));
        assert!(app.is_well_formed());
        let last = app.nodes.len() - 1;
        app.handle_node(
            last,
            NodeInput {
                dragged: true,
                drag_delta: Vec2::new(round, -round),
                clicked: round % 2 == 0,
            },
        );
        assert!(app.is_well_formed());
        app.edit_width(1000 * round - 500);
        app.edit_height(40 * round);
        app.edit_label(format!("round {}", round));
        app.edit_color(Color::from_rgb(1, 2, 3));
        assert!(app.is_well_formed());
        app.handle_background(BackgroundInput {
            right_button_down: round % 3 != 0,
            drag_started: round % 3 == 1,
            dragged: true,
            drag_stopped: round % 3 == 2,
            clicked: round % 3 == 0,
            pointer: Some(Pos2::new(7 * round, 11 * round)),
        });
        assert!(app.is_well_formed());
    }
    assert_eq!(app.nodes.len(), 6);
    for (index, node) in app.nodes.iter().enumerate() {
        assert_eq!(node.id, index);
        assert!(30 <= node.size.x && node.size.x <= 200);
        assert!(20 <= node.size.y && node.size.y <= 150);
    }
}

#[test]
fn selection_outside_the_list_is_ignored_by_panel_and_picture() {
    let mut app = map_of(vec![node(0, 60, 40)], 1, Some(5));
    assert!(app.selected().is_none());
    app.edit_label(String::from("x"));
    app.edit_color(Color::from_rgb(9, 9, 9));
    app.edit_width(100);
    app.edit_height(100);
    assert_eq!(app.nodes[0].label, "n");
    assert_eq!(app.nodes[0].color, Color { r: 0, g: 0, b: 0 });
    assert_eq!(app.nodes[0].size, Vec2 { x: 60, y: 40 });
    assert_eq!(app.selected_node, Some(5));
    assert_eq!(app.render().len(), 2);
    assert!(!app.is_selected(0));
    assert!(app.is_selected(5));
}
