use mindmap::render::{CORNER_RADIUS, LABEL_FONT_SIZE, OUTLINE_WIDTH};
use mindmap::{Color, DrawCommand, MindMapApp, Pos2, Rect, Vec2};

fn fill(center: Pos2, size: Vec2, color: Color) -> DrawCommand {
    DrawCommand::FilledRect { rect: Rect { center, size }, corner_radius: 10, color }
}

fn text(center: Pos2, text: &str) -> DrawCommand {
    DrawCommand::CenteredText {
        center,
        text: String::from(text),
        font_size: 18,
        color: Color { r: 255, g: 255, b: 255 },
    }
}

fn outline(center: Pos2, size: Vec2) -> DrawCommand {
    DrawCommand::StrokedRect {
        rect: Rect { center, size },
        corner_radius: 10,
        width: 2,
        color: Color { r: 255, g: 255, b: 0 },
    }
}

#[test]
fn empty_map_draws_nothing() {
    let app = MindMapApp::new();
    assert!(app.render().is_empty());
}

#[test]
fn drawing_constants_have_their_values() {
    assert_eq!(CORNER_RADIUS, 10);
    assert_eq!(LABEL_FONT_SIZE, 18);
    assert_eq!(OUTLINE_WIDTH, 2);
}

#[test]
fn each_node_is_a_filled_rectangle_under_its_label() {
    let mut app = MindMapApp::new();
    app.add_node(Pos2::new(100, 100));
    app.add_node(Pos2::new(200, 300));
    app.add_node(Pos2::new(-50, 0));
    let blue = Color { r: 100, g: 150, b: 250 };
    let size = Vec2 { x: 60, y: 40 };
    assert_eq!(
        app.render(),
        vec![
            fill(Pos2 { x: 100, y: 100 }, size, blue),
            text(Pos2 { x: 100, y: 100 }, "Node 1"),
            fill(Pos2 { x: 200, y: 300 }, size, blue),
            text(Pos2 { x: 200, y: 300 }, "Node 2"),
            fill(Pos2 { x: -50, y: 0 }, size, blue),
            text(Pos2 { x: -50, y: 0 }, "Node 3"),
        ]
    );
}

#[test]
fn only_the_selected_node_is_outlined() {
    let mut app = MindMapApp::new();
    app.add_node(Pos2::new(0, 0));
    app.add_node(Pos2::new(10, 10));
    app.add_node(Pos2::new(20, 20));
    app.select(1);
    let blue = Color { r: 100, g: 150, b: 250 };
    let size = Vec2 { x: 60, y: 40 };
    assert_eq!(
        app.render(),
        vec![
            fill(Pos2 { x: 0, y: 0 }, size, blue),
            text(Pos2 { x: 0, y: 0 }, "Node 1"),
            fill(Pos2 { x: 10, y: 10 }, size, blue),
            text(Pos2 { x: 10, y: 10 }, "Node 2"),
            outline(Pos2 { x: 10, y: 10 }, size),
            fill(Pos2 { x: 20, y: 20 }, size, blue),
            text(Pos2 { x: 20, y: 20 }, "Node 3"),
        ]
    );
    app.clear_selection();
    let commands = app.render();
    assert_eq!(commands.len(), 6);
    assert!(commands.iter().all(|command| !matches!(command, DrawCommand::StrokedRect { .. })));
}

#[test]
fn picture_follows_pan_and_edits() {
    let mut app = MindMapApp::new();
    app.add_node(Pos2::new(100, 100));
    app.select(0);
    app.edit_label(String::from("Plan"));
    app.edit_color(Color::from_rgb(10, 20, 30));
    app.edit_width(90);
    app.edit_height(50);
    app.drag_node(0, Vec2::new(5, 5));
    app.begin_pan(Some(Pos2::new(0, 0)));
    app.pan_to(Pos2::new(-20, 30));
    app.end_pan();

    let center = Pos2 { x: 85, y: 135 };
    let size = Vec2 { x: 90, y: 50 };
    assert_eq!(
        app.render(),
        vec![
            fill(center, size, Color { r: 10, g: 20, b: 30 }),
            text(center, "Plan"),
            outline(center, size),
        ]
    );
    assert_eq!(app.node_screen_rect(0), Rect { center, size });
    assert_eq!(app.nodes[0].pos, Pos2 { x: 105, y: 105 });
}

#[test]
fn rendering_changes_nothing() {
    let mut app = MindMapApp::new();
    app.add_node(Pos2::new(1, 2));
    app.select(0);
    let first = app.render();
    let second = app.render();
    assert_eq!(first, second);
    assert_eq!(app.nodes.len(), 1);
    assert_eq!(app.nodes[0].pos, Pos2 { x: 1, y: 2 });
    assert_eq!(app.selected_node, Some(0));
}
