use iomha::editor::{Editor, Message, Shape, ShapeKind, Tool};
use iomha::geometry::Point;
use iomha::paint::{palette_color, Paint};

fn pt(x: i32, y: i32) -> Point {
    Point { x, y }
}

#[test]
fn no_preview_without_draft() {
    assert!(Editor::default().preview_shape().is_none());
}

#[test]
fn rectangle_preview_follows_pointer_translucently() {
    let mut e = Editor::default();
    e.update(Message::ToolSelected(Tool::Rectangle));
    e.update(Message::StrokeWidthChanged(3));
    e.update(Message::CanvasPressed(pt(4000, 4000)));
    e.update(Message::CanvasDragged(pt(6000, 5000)));
    assert_eq!(
        e.preview_shape(),
        Some(Shape {
            layer: 1,
            kind: ShapeKind::Rectangle { start: pt(4000, 4000), end: pt(6000, 5000) },
            stroke: palette_color(0),
            fill: Paint { r: 238, g: 196, b: 197, alpha: 35 },
            stroke_width: 3,
        })
    );
}

#[test]
fn ellipse_preview() {
    let mut e = Editor::default();
    e.update(Message::ToolSelected(Tool::Ellipse));
    e.update(Message::CanvasPressed(pt(4000, 4000)));
    let preview = e.preview_shape().unwrap();
    assert_eq!(preview.kind, ShapeKind::Ellipse { start: pt(4000, 4000), end: pt(4000, 4000) });
    assert_eq!(preview.stroke, palette_color(1));
    assert_eq!(preview.fill, Paint { r: 170, g: 219, b: 211, alpha: 35 });
}

#[test]
fn brush_preview_shows_samples_and_needs_two() {
    let mut e = Editor::default();
    e.update(Message::CanvasPressed(pt(4000, 4000)));
    let preview = e.preview_shape().unwrap();
    assert_eq!(preview.kind, ShapeKind::BrushStroke(vec![pt(4000, 4000)]));
    assert_eq!(preview.fill, Paint::transparent());
    assert!(!preview.has_outline());
    e.update(Message::CanvasDragged(pt(4500, 4000)));
    let preview = e.preview_shape().unwrap();
    assert_eq!(preview.kind, ShapeKind::BrushStroke(vec![pt(4000, 4000), pt(4500, 4000)]));
    assert!(preview.has_outline());
}

#[test]
fn visible_shapes_in_commit_order() {
    let mut e = Editor::default();
    assert!(e.visible_shape_indices().is_empty());
    for (tool, x) in [(Tool::Rectangle, 4000), (Tool::Ellipse, 6000), (Tool::Rectangle, 8000)] {
        e.update(Message::ToolSelected(tool));
        e.update(Message::CanvasPressed(pt(x, 4000)));
        e.update(Message::CanvasReleased(pt(x + 500, 4500)));
    }
    assert_eq!(e.visible_shape_indices(), vec![0, 1, 2]);
    assert!(e.shapes().iter().all(|s| s.has_outline()));
}

#[test]
fn captions_without_image() {
    let e = Editor::default();
    assert_eq!(e.image_caption(), "No image loaded");
    assert_eq!(e.image_menu_label(), "Loaded: none");
    assert_eq!(e.stroke_width_caption(), "6px");
}

#[test]
fn captions_with_image_and_width() {
    let mut e = Editor::default();
    e.update(Message::OpenFileSelected(Some("/x/y/cat.png".to_string())));
    e.update(Message::StrokeWidthChanged(32));
    assert_eq!(e.image_caption(), "cat.png");
    assert_eq!(e.image_menu_label(), "Loaded: cat.png");
    assert_eq!(e.stroke_width_caption(), "32px");
    e.update(Message::OpenFileSelected(Some("/".to_string())));
    assert_eq!(e.image_caption(), "untitled");
    assert_eq!(e.image_menu_label(), "Loaded: untitled");
}
