use mindmap::node::{
    DEFAULT_HEIGHT, DEFAULT_WIDTH, MAX_HEIGHT, MAX_WIDTH, MIN_HEIGHT, MIN_WIDTH,
};
use mindmap::{Color, MindMapApp, Node, Pos2, Rect, Vec2};

fn map_with_selected_node() -> MindMapApp {
    let mut app = MindMapApp::new();
    app.add_node(Pos2::new(10, 10));
    app.add_node(Pos2::new(20, 20));
    app.select(1);
    app
}

#[test]
fn size_bounds_and_defaults_have_their_values() {
    assert_eq!(MIN_WIDTH, 30);
    assert_eq!(MAX_WIDTH, 200);
    assert_eq!(MIN_HEIGHT, 20);
    assert_eq!(MAX_HEIGHT, 150);
    assert_eq!(DEFAULT_WIDTH, 60);
    assert_eq!(DEFAULT_HEIGHT, 40);
    assert_eq!(Color::node_default(), Color { r: 100, g: 150, b: 250 });
    assert_eq!(Color::label_text(), Color { r: 255, g: 255, b: 255 });
    assert_eq!(Color::selection_outline(), Color { r: 255, g: 255, b: 0 });
    assert_eq!(Color::from_rgb(1, 2, 3), Color { r: 1, g: 2, b: 3 });
}

#[test]
fn width_inside_the_bounds_is_taken_as_it_is() {
    let mut app = map_with_selected_node();
    app.edit_width(123);
    assert_eq!(app.nodes[1].size, Vec2 { x: 123, y: 40 });
    app.edit_width(30);
    assert_eq!(app.nodes[1].size.x, 30);
    app.edit_width(200);
    assert_eq!(app.nodes[1].size.x, 200);
    assert_eq!(app.nodes[0].size, Vec2 { x: 60, y: 40 });
}

#[test]
fn width_outside_the_bounds_is_clamped() {
    let mut app = map_with_selected_node();
    app.edit_width(201);
    assert_eq!(app.nodes[1].size.x, 200);
    app.edit_width(29);
    assert_eq!(app.nodes[1].size.x, 30);
    app.edit_width(i64::MAX);
    assert_eq!(app.nodes[1].size.x, 200);
    app.edit_width(i64::MIN);
    assert_eq!(app.nodes[1].size.x, 30);
    app.edit_width(0);
    assert_eq!(app.nodes[1].size, Vec2 { x: 30, y: 40 });
}

#[test]
fn height_inside_the_bounds_is_taken_as_it_is() {
    let mut app = map_with_selected_node();
    app.edit_height(77);
    assert_eq!(app.nodes[1].size, Vec2 { x: 60, y: 77 });
    app.edit_height(20);
    assert_eq!(app.nodes[1].size.y, 20);
    app.edit_height(150);
    assert_eq!(app.nodes[1].size.y, 150);
    assert_eq!(app.nodes[0].size, Vec2 { x: 60, y: 40 });
}

#[test]
fn height_outside_the_bounds_is_clamped() {
    let mut app = map_with_selected_node();
    app.edit_height(151);
    assert_eq!(app.nodes[1].size.y, 150);
    app.edit_height(19);
    assert_eq!(app.nodes[1].size.y, 20);
    app.edit_height(i64::MAX);
    assert_eq!(app.nodes[1].size.y, 150);
    app.edit_height(-40);
    assert_eq!(app.nodes[1].size, Vec2 { x: 60, y: 20 });
}

#[test]
fn edited_sizes_never_leave_the_bounds() {
    let mut app = map_with_selected_node();
    let entered = [i64::MIN, -1, 0, 19, 20, 29, 30, 31, 149, 150, 151, 199, 200, 201, i64::MAX];
    for width in entered {
        for height in entered {
            app.edit_width(width);
            app.edit_height(height);
            let size = app.nodes[1].size;
            assert!(30 <= size.x && size.x <= 200);
            assert!(20 <= size.y && size.y <= 150);
            assert!(app.is_well_formed());
        }
    }
}

#[test]
fn label_edit_replaces_the_text_of_the_selected_node() {
    let mut app = map_with_selected_node();
    app.edit_label(String::from("Idea"));
    assert_eq!(app.nodes[1].label, "Idea");
    assert_eq!(app.nodes[0].label, "Node 1");
    app.edit_label(String::new());
    assert_eq!(app.nodes[1].label, "");
    assert_eq!(app.nodes[1].id, 1);
}

#[test]
fn color_edit_replaces_the_fill_of_the_selected_node() {
    let mut app = map_with_selected_node();
    app.edit_color(Color::from_rgb(1, 2, 3));
    assert_eq!(app.nodes[1].color, Color { r: 1, g: 2, b: 3 });
    assert_eq!(app.nodes[0].color, Color { r: 100, g: 150, b: 250 });
}

#[test]
fn edits_without_selection_change_nothing() {
    let mut app = MindMapApp::new();
    app.add_node(Pos2::new(10, 10));
    app.edit_label(String::from("x"));
    app.edit_color(Color::from_rgb(0, 0, 0));
    app.edit_width(100);
    app.edit_height(100);
    assert_eq!(app.nodes[0].label, "Node 1");
    assert_eq!(app.nodes[0].color, Color { r: 100, g: 150, b: 250 });
    assert_eq!(app.nodes[0].size, Vec2 { x: 60, y: 40 });
}

#[test]
fn edits_leave_position_selection_and_pan_alone() {
    let mut app = map_with_selected_node();
    app.edit_label(String::from("x"));
    app.edit_color(Color::from_rgb(9, 9, 9));
    app.edit_width(90);
    app.edit_height(90);
    assert_eq!(app.nodes[1].pos, Pos2 { x: 20, y: 20 });
    assert_eq!(app.selected_node, Some(1));
    assert_eq!(app.canvas_offset, Vec2 { x: 0, y: 0 });
    assert_eq!(app.next_id, 2);
}

#[test]
fn node_methods_change_one_field_each() {
    let mut node = Node::new(4, Pos2::new(-5, 8));
    assert_eq!(node.id, 4);
    assert_eq!(node.label, "Node 5");
    assert_eq!(node.pos, Pos2 { x: -5, y: 8 });
    assert_eq!(node.color, Color { r: 100, g: 150, b: 250 });
    assert_eq!(node.size, Vec2 { x: 60, y: 40 });

    node.move_by(Vec2::new(5, -8));
    assert_eq!(node.pos, Pos2 { x: 0, y: 0 });
    node.set_label(String::from("root"));
    assert_eq!(node.label, "root");
    node.set_color(Color::from_rgb(7, 8, 9));
    assert_eq!(node.color, Color { r: 7, g: 8, b: 9 });
    node.set_width(1000);
    node.set_height(1);
    assert_eq!(node.size, Vec2 { x: 200, y: 20 });
    assert_eq!(node.id, 4);
    assert_eq!(
        node.screen_rect(Vec2::new(3, 4)),
        Rect { center: Pos2 { x: 3, y: 4 }, size: Vec2 { x: 200, y: 20 } }
    );
}
