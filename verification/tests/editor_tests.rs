use iomha::editor::{title, Editor, Effect, Layer, Message, Shape, ShapeKind, Tool};
use iomha::geometry::Point;
use iomha::paint::{palette_color, Paint};

fn pt(x: i32, y: i32) -> Point {
    Point { x, y }
}

fn send(e: &mut Editor, m: Message) -> Effect {
    e.update(m)
}

#[test]
fn starts_with_brush_and_two_visible_layers() {
    let e = Editor::default();
    assert_eq!(e.tool(), Tool::Brush);
    assert_eq!(e.stroke_width(), 6);
    assert_eq!(e.layers(), &vec![Layer { visible: true }, Layer { visible: true }]);
    assert_eq!(e.active_layer(), 1);
    assert!(e.shapes().is_empty());
    assert!(e.draft().is_none());
    assert!(e.loaded_image().is_none());
    assert_eq!(e.status(), "File -> Open loads PNG, JPEG, JPG, and BMP images.");
}

#[test]
fn window_title() {
    assert_eq!(title(&Editor::default()), "iomha");
}

#[test]
fn tool_labels() {
    assert_eq!(Tool::Select.label(), "Select");
    assert_eq!(Tool::Brush.label(), "Brush");
    assert_eq!(Tool::Rectangle.label(), "Rectangle");
    assert_eq!(Tool::Ellipse.label(), "Ellipse");
}

#[test]
fn tool_button_label_brackets_selected_tool() {
    let e = Editor::default();
    assert_eq!(e.tool_button_label(Tool::Brush), "[Brush]");
    assert_eq!(e.tool_button_label(Tool::Ellipse), "Ellipse");
}

#[test]
fn selecting_tools_sets_status() {
    let mut e = Editor::default();
    let cases = [
        (Tool::Select, "Select mode is still a placeholder."),
        (Tool::Brush, "Brush ready. Drag on the artboard to paint."),
        (Tool::Rectangle, "Rectangle tool ready. Drag to place a shape."),
        (Tool::Ellipse, "Ellipse tool ready. Drag to place a shape."),
    ];
    for (tool, status) in cases {
        assert_eq!(send(&mut e, Message::ToolSelected(tool)), Effect::Idle);
        assert_eq!(e.tool(), tool);
        assert_eq!(e.status(), status);
    }
}

#[test]
fn stroke_width_status_is_whole_pixels() {
    let mut e = Editor::default();
    send(&mut e, Message::StrokeWidthChanged(12));
    assert_eq!(e.stroke_width(), 12);
    assert_eq!(e.status(), "Stroke width set to 12px.");
    send(&mut e, Message::StrokeWidthChanged(1));
    assert_eq!(e.status(), "Stroke width set to 1px.");
    send(&mut e, Message::StrokeWidthChanged(0));
    assert_eq!(e.status(), "Stroke width set to 0px.");
    send(&mut e, Message::StrokeWidthChanged(4294967295));
    assert_eq!(e.status(), "Stroke width set to 4294967295px.");
    send(&mut e, Message::StrokeWidthChanged(100));
    assert_eq!(e.status(), "Stroke width set to 100px.");
}

#[test]
fn open_request_asks_for_dialog() {
    let mut e = Editor::default();
    assert_eq!(send(&mut e, Message::OpenFileRequested), Effect::PickImageFile);
    assert_eq!(e.status(), "Choose an image to open.");
}

#[test]
fn no_other_message_asks_for_dialog() {
    let mut e = Editor::default();
    assert_eq!(send(&mut e, Message::Noop), Effect::Idle);
    assert_eq!(send(&mut e, Message::OpenFileSelected(None)), Effect::Idle);
    assert_eq!(send(&mut e, Message::CanvasPressed(pt(5000, 5000))), Effect::Idle);
}

#[test]
fn noop_changes_nothing() {
    let mut e = Editor::default();
    send(&mut e, Message::Noop);
    assert_eq!(e.status(), "File -> Open loads PNG, JPEG, JPG, and BMP images.");
    assert_eq!(e.tool(), Tool::Brush);
}

#[test]
fn opening_a_file_names_it() {
    let mut e = Editor::default();
    send(&mut e, Message::OpenFileSelected(Some("/home/me/pictures/cat.png".to_string())));
    assert_eq!(e.loaded_image().as_deref(), Some("/home/me/pictures/cat.png"));
    assert_eq!(e.status(), "Opened cat.png.");
}

#[test]
fn opening_a_path_without_file_name_says_image() {
    let mut e = Editor::default();
    send(&mut e, Message::OpenFileSelected(Some("/".to_string())));
    assert_eq!(e.loaded_image().as_deref(), Some("/"));
    assert_eq!(e.status(), "Opened image.");
}

#[test]
fn apply_uses_the_given_file_name() {
    let mut e = Editor::default();
    e.apply(Message::OpenFileSelected(Some("x".to_string())), Some("shown.bmp".to_string()));
    assert_eq!(e.status(), "Opened shown.bmp.");
    e.apply(Message::OpenFileSelected(Some("y".to_string())), None);
    assert_eq!(e.status(), "Opened image.");
    assert_eq!(e.loaded_image().as_deref(), Some("y"));
}

#[test]
fn cancelling_open_keeps_the_image() {
    let mut e = Editor::default();
    send(&mut e, Message::OpenFileSelected(Some("a/b.jpg".to_string())));
    send(&mut e, Message::OpenFileSelected(None));
    assert_eq!(e.status(), "Open cancelled.");
    assert_eq!(e.loaded_image().as_deref(), Some("a/b.jpg"));
}

#[test]
fn rectangle_gesture_commits_rectangle() {
    let mut e = Editor::default();
    send(&mut e, Message::ToolSelected(Tool::Rectangle));
    send(&mut e, Message::CanvasPressed(pt(5000, 6000)));
    send(&mut e, Message::CanvasDragged(pt(9000, 100)));
    send(&mut e, Message::CanvasDragged(pt(5001, 6001)));
    send(&mut e, Message::CanvasReleased(pt(7000, 4000)));
    assert!(e.draft().is_none());
    assert_eq!(
        e.shapes(),
        &vec![Shape {
            layer: 1,
            kind: ShapeKind::Rectangle { start: pt(5000, 6000), end: pt(7000, 4000) },
            stroke: palette_color(0),
            fill: palette_color(6),
            stroke_width: 6,
        }]
    );
    assert_eq!(e.status(), "Rectangle committed.");
}

#[test]
fn ellipse_gesture_commits_ellipse_with_current_width() {
    let mut e = Editor::default();
    send(&mut e, Message::ToolSelected(Tool::Ellipse));
    send(&mut e, Message::CanvasPressed(pt(4500, 4500)));
    send(&mut e, Message::StrokeWidthChanged(20));
    send(&mut e, Message::CanvasReleased(pt(4600, 8000)));
    assert_eq!(
        e.shapes(),
        &vec![Shape {
            layer: 1,
            kind: ShapeKind::Ellipse { start: pt(4500, 4500), end: pt(4600, 8000) },
            stroke: palette_color(1),
            fill: palette_color(7),
            stroke_width: 20,
        }]
    );
    assert_eq!(e.status(), "Ellipse committed.");
}

#[test]
fn brush_click_is_ignored() {
    let mut e = Editor::default();
    send(&mut e, Message::CanvasPressed(pt(5000, 5000)));
    send(&mut e, Message::CanvasReleased(pt(9000, 9000)));
    assert!(e.shapes().is_empty());
    assert!(e.draft().is_none());
    assert_eq!(e.status(), "Ignored a brush stroke that was too short.");
}

#[test]
fn brush_records_samples_more_than_one_and_a_half_pixels_apart() {
    let mut e = Editor::default();
    send(&mut e, Message::CanvasPressed(pt(5000, 5000)));
    send(&mut e, Message::CanvasDragged(pt(5100, 5000))); // 1 px: skipped
    send(&mut e, Message::CanvasDragged(pt(5150, 5000))); // exactly 1.5 px: skipped
    send(&mut e, Message::CanvasDragged(pt(5151, 5000))); // just over: recorded
    send(&mut e, Message::CanvasDragged(pt(5251, 5100))); // sqrt 2 px: skipped
    send(&mut e, Message::CanvasDragged(pt(5251, 5300))); // 3 px: recorded
    {
        let d = e.draft().as_ref().unwrap();
        assert_eq!(d.tool, Tool::Brush);
        assert_eq!(d.origin, pt(5000, 5000));
        assert_eq!(d.current, pt(5251, 5300));
        assert_eq!(d.points, vec![pt(5000, 5000), pt(5151, 5000), pt(5251, 5300)]);
    }
    send(&mut e, Message::CanvasReleased(pt(1, 1)));
    assert_eq!(
        e.shapes(),
        &vec![Shape {
            layer: 1,
            kind: ShapeKind::BrushStroke(vec![pt(5000, 5000), pt(5151, 5000), pt(5251, 5300)]),
            stroke: palette_color(0),
            fill: Paint::transparent(),
            stroke_width: 6,
        }]
    );
    assert_eq!(e.status(), "Brush committed.");
}

#[test]
fn select_press_starts_nothing() {
    let mut e = Editor::default();
    send(&mut e, Message::ToolSelected(Tool::Select));
    send(&mut e, Message::CanvasPressed(pt(5000, 5000)));
    assert!(e.draft().is_none());
    assert_eq!(e.status(), "Select mode is not implemented yet.");
    send(&mut e, Message::CanvasReleased(pt(6000, 6000)));
    assert!(e.shapes().is_empty());
    assert_eq!(e.status(), "Select mode is not implemented yet.");
}

#[test]
fn pointer_without_draft_changes_nothing() {
    let mut e = Editor::default();
    send(&mut e, Message::CanvasDragged(pt(5000, 5000)));
    send(&mut e, Message::CanvasReleased(pt(5000, 5000)));
    assert!(e.draft().is_none());
    assert!(e.shapes().is_empty());
    assert_eq!(e.status(), "File -> Open loads PNG, JPEG, JPG, and BMP images.");
}

#[test]
fn switching_tool_mid_gesture_keeps_the_draft_tool() {
    let mut e = Editor::default();
    send(&mut e, Message::ToolSelected(Tool::Rectangle));
    send(&mut e, Message::CanvasPressed(pt(4000, 4000)));
    send(&mut e, Message::ToolSelected(Tool::Ellipse));
    send(&mut e, Message::CanvasReleased(pt(6000, 6000)));
    assert_eq!(e.shapes().len(), 1);
    assert!(matches!(e.shapes()[0].kind, ShapeKind::Rectangle { .. }));
    assert_eq!(e.status(), "Rectangle committed.");
}

#[test]
fn shapes_accumulate_in_order() {
    let mut e = Editor::default();
    send(&mut e, Message::ToolSelected(Tool::Rectangle));
    send(&mut e, Message::CanvasPressed(pt(4000, 4000)));
    send(&mut e, Message::CanvasReleased(pt(5000, 5000)));
    send(&mut e, Message::ToolSelected(Tool::Ellipse));
    send(&mut e, Message::CanvasPressed(pt(6000, 6000)));
    send(&mut e, Message::CanvasReleased(pt(7000, 7000)));
    assert_eq!(e.shapes().len(), 2);
    assert!(matches!(e.shapes()[0].kind, ShapeKind::Rectangle { .. }));
    assert!(matches!(e.shapes()[1].kind, ShapeKind::Ellipse { .. }));
    assert_eq!(e.layers().len(), 2);
    assert_eq!(e.active_layer(), 1);
}

#[test]
fn opening_a_plain_name_names_it() {
    let mut e = Editor::default();
    send(&mut e, Message::OpenFileSelected(Some("photo.bmp".to_string())));
    assert_eq!(e.status(), "Opened photo.bmp.");
    send(&mut e, Message::OpenFileSelected(Some("pics/..".to_string())));
    assert_eq!(e.status(), "Opened image.");
}
