use iomha::canvas::{shows_crosshair, PointerEvent};
use iomha::editor::{Editor, Message, Tool};
use iomha::geometry::{
    artboard_bounds, grid_lines, moved_far_enough, rectangle_contains, rectangle_from_points,
    squared_distance, Bounds, Point,
};
use iomha::paint::{palette_color, Paint};
use iomha::text::{name_or, push_decimal, short_path};

fn pt(x: i32, y: i32) -> Point {
    Point { x, y }
}

#[test]
fn rectangle_from_points_orders_corners() {
    assert_eq!(
        rectangle_from_points(pt(700, 900), pt(200, 100)),
        Bounds { x: 200, y: 100, width: 500, height: 800 }
    );
    assert_eq!(
        rectangle_from_points(pt(200, 100), pt(700, 900)),
        rectangle_from_points(pt(700, 900), pt(200, 100))
    );
}

#[test]
fn rectangle_from_points_is_at_least_one_pixel() {
    assert_eq!(
        rectangle_from_points(pt(300, 10), pt(250, 10)),
        Bounds { x: 250, y: 10, width: 100, height: 100 }
    );
}

#[test]
fn rectangle_from_extreme_points_does_not_overflow() {
    let r = rectangle_from_points(pt(i32::MIN, i32::MAX), pt(i32::MAX, i32::MIN));
    assert_eq!(r, Bounds { x: i32::MIN, y: i32::MIN, width: u32::MAX, height: u32::MAX });
    assert!(rectangle_contains(r, pt(i32::MAX, i32::MAX)));
}

#[test]
fn rectangle_contains_includes_edges() {
    let r = Bounds { x: 100, y: 200, width: 300, height: 400 };
    assert!(rectangle_contains(r, pt(100, 200)));
    assert!(rectangle_contains(r, pt(400, 600)));
    assert!(!rectangle_contains(r, pt(401, 600)));
    assert!(!rectangle_contains(r, pt(99, 300)));
    assert!(!rectangle_contains(r, pt(200, 601)));
}

#[test]
fn spanned_rectangle_contains_its_corners() {
    let (a, b) = (pt(-500, 40), pt(1200, -3));
    let r = rectangle_from_points(a, b);
    assert!(rectangle_contains(r, a));
    assert!(rectangle_contains(r, b));
}

#[test]
fn artboard_insets_canvas() {
    assert_eq!(
        artboard_bounds(100_000, 80_000),
        Bounds { x: 4000, y: 3200, width: 92_000, height: 73_600 }
    );
}

#[test]
fn artboard_of_tiny_canvas_is_one_pixel() {
    assert_eq!(artboard_bounds(5000, 0), Bounds { x: 4000, y: 3200, width: 100, height: 100 });
    assert_eq!(artboard_bounds(-70, i32::MIN), Bounds { x: 4000, y: 3200, width: 100, height: 100 });
}

#[test]
fn squared_distances() {
    assert_eq!(squared_distance(pt(0, 0), pt(300, 400)), 250_000);
    assert_eq!(
        squared_distance(pt(i32::MIN, i32::MIN), pt(i32::MAX, i32::MAX)),
        2 * (u32::MAX as u128) * (u32::MAX as u128)
    );
}

#[test]
fn brush_step_threshold() {
    assert!(!moved_far_enough(pt(0, 0), pt(150, 0)));
    assert!(moved_far_enough(pt(0, 0), pt(151, 0)));
    assert!(moved_far_enough(pt(0, 0), pt(-100, 120)));
    assert!(!moved_far_enough(pt(0, 0), pt(-100, 100)));
}

#[test]
fn grid_divides_evenly() {
    assert_eq!(
        grid_lines(0, 1200, 12),
        vec![100, 200, 300, 400, 500, 600, 700, 800, 900, 1000, 1100]
    );
    assert_eq!(grid_lines(4000, 1000, 10), vec![4100, 4200, 4300, 4400, 4500, 4600, 4700, 4800, 4900]);
    assert_eq!(grid_lines(0, 10, 3), vec![3, 6]);
    assert!(grid_lines(5, 5, 1).is_empty());
}

#[test]
fn palette_entries() {
    assert_eq!(palette_color(0), Paint { r: 28, g: 37, b: 51, alpha: 100 });
    assert_eq!(palette_color(1), Paint { r: 230, g: 87, b: 78, alpha: 100 });
    assert_eq!(palette_color(6), Paint { r: 238, g: 196, b: 197, alpha: 100 });
    assert_eq!(palette_color(7), Paint { r: 170, g: 219, b: 211, alpha: 100 });
    assert_eq!(Paint::transparent(), Paint { r: 0, g: 0, b: 0, alpha: 0 });
}

#[test]
fn scaling_alpha() {
    assert_eq!(palette_color(6).scale_alpha(35), Paint { r: 238, g: 196, b: 197, alpha: 35 });
    assert_eq!(Paint { r: 1, g: 2, b: 3, alpha: 50 }.scale_alpha(35).alpha, 17);
    assert_eq!(palette_color(2).scale_alpha(100), palette_color(2));
}

#[test]
fn decimal_text() {
    let mut s = String::from("n=");
    push_decimal(&mut s, 0);
    assert_eq!(s, "n=0");
    let mut s = String::new();
    push_decimal(&mut s, 1203);
    assert_eq!(s, "1203");
}

#[test]
fn file_names() {
    assert_eq!(short_path("/home/me/cat.png"), "cat.png");
    assert_eq!(short_path("notes/"), "notes");
    assert_eq!(short_path("a/.."), "untitled");
    assert_eq!(short_path(""), "untitled");
    assert_eq!(name_or(Some("x.bmp".to_string()), "image"), "x.bmp");
    assert_eq!(name_or(None, "image"), "image");
}

#[test]
fn crosshair_only_over_artboard() {
    assert!(shows_crosshair(100_000, 80_000, Some(pt(4000, 3200))));
    assert!(shows_crosshair(100_000, 80_000, Some(pt(96_000, 76_800))));
    assert!(!shows_crosshair(100_000, 80_000, Some(pt(3999, 5000))));
    assert!(!shows_crosshair(100_000, 80_000, None));
}

#[test]
fn canvas_press_over_artboard() {
    let e = Editor::default();
    let m = e.canvas_message(100_000, 80_000, Some(pt(5000, 5000)), PointerEvent::LeftPressed);
    assert!(matches!(m, Some(Message::CanvasPressed(p)) if p == pt(5000, 5000)));
}

#[test]
fn canvas_ignores_activity_off_artboard() {
    let e = Editor::default();
    assert!(e.canvas_message(100_000, 80_000, Some(pt(100, 100)), PointerEvent::LeftPressed).is_none());
    assert!(e.canvas_message(100_000, 80_000, None, PointerEvent::LeftPressed).is_none());
}

#[test]
fn canvas_moves_and_releases_count_only_while_drawing() {
    let mut e = Editor::default();
    let p = pt(6000, 6000);
    assert!(e.canvas_message(100_000, 80_000, Some(p), PointerEvent::Moved).is_none());
    assert!(e.canvas_message(100_000, 80_000, Some(p), PointerEvent::LeftReleased).is_none());
    e.update(Message::CanvasPressed(p));
    assert!(matches!(
        e.canvas_message(100_000, 80_000, Some(p), PointerEvent::Moved),
        Some(Message::CanvasDragged(_))
    ));
    assert!(matches!(
        e.canvas_message(100_000, 80_000, Some(p), PointerEvent::LeftReleased),
        Some(Message::CanvasReleased(_))
    ));
    assert!(e.canvas_message(100_000, 80_000, Some(p), PointerEvent::Other).is_none());
}

#[test]
fn canvas_press_in_select_mode_still_reaches_editor() {
    let mut e = Editor::default();
    e.update(Message::ToolSelected(Tool::Select));
    assert!(matches!(
        e.canvas_message(100_000, 80_000, Some(pt(5000, 5000)), PointerEvent::LeftPressed),
        Some(Message::CanvasPressed(_))
    ));
}

#[test]
fn plain_names_are_their_own_file_names() {
    assert_eq!(short_path("cat.png"), "cat.png");
    assert_eq!(short_path("."), "untitled");
    assert_eq!(short_path(".."), "untitled");
    assert_eq!(short_path("a/./b.jpg"), "b.jpg");
}
