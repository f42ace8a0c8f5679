//! Properties of the editor that span messages or hold in every state.
use vstd::prelude::*;
use crate::canvas::{over_artboard, spec_canvas_message, PointerEvent};
use crate::editor::{
    file_name_fits, opened_status,
    lemma_dragged_draft_wf,
    committed_shape, committed_status, draft_wf, new_draft, next_state, shape_wf, spaced_at, spec_drag, spec_press, spec_release, too_short_status, tool_status, DraftView,
    EditorView, MessageView, ShapeKindView, ShapeView, Tool,
};
use crate::geometry::{
    far_apart, grid_offset, spec_artboard_bounds, spec_rectangle_contains, spec_rectangle_from_points, Point,
    UNITS_PER_PIXEL,
};
use crate::paint::{spec_palette_color, spec_transparent};
use crate::text::{decimal, shown_file_name, spec_name_or};
use crate::scene::{shape_visible, spec_preview, visible_indices, visible_prefix};

verus! {

/// The state after each pointer move of `moves`, in turn.
pub open spec fn drag_through(e: EditorView, moves: Seq<Point>) -> EditorView
    decreases moves.len(),
{
    if moves.len() == 0 {
        e
    } else {
        drag_through(spec_drag(e, moves[0]), moves.drop_first())
    }
}

/// Every message keeps the editor's invariant: a draft is never a
/// selection, a brush draft starts at the press point and its samples lie
/// more than 1.5 px apart, every shape lies on an existing layer, and every
/// committed brush stroke has at least two such samples.
pub proof fn law_messages_keep_invariant(
    e: EditorView,
    m: MessageView,
    file_name: Option<Seq<char>>,
)
    requires
        e.wf(),
    ensures
        next_state(e, m, file_name).0.wf(),
{
    let e2 = next_state(e, m, file_name).0;
    match m {
        MessageView::CanvasPressed(p) => {
            if e.tool != Tool::Select {
                let d = new_draft(e.tool, p);
                assert(draft_wf(d));
            }
        },
        MessageView::CanvasDragged(p) => {
            if let Some(d) = e.draft {
                lemma_dragged_draft_wf(d, p);
            }
        },
        MessageView::CanvasReleased(p) => {
            if let Some(d) = e.draft {
                if let Some(s) = committed_shape(e, d, p) {
                    assert(shape_wf(s, e.layers.len()));
                    assert forall|i: int| 0 <= i < e2.shapes.len() implies shape_wf(
                        #[trigger] e2.shapes[i],
                        e2.layers.len(),
                    ) by {
                        if i < e.shapes.len() {
                            assert(e2.shapes[i] == e.shapes[i]);
                        }
                    }
                }
            }
        },
        _ => {},
    }
}

/// No message removes or changes a committed shape, and at most one shape
/// is added per message: the shapes before are a prefix of the shapes after.
pub proof fn law_shapes_only_grow(e: EditorView, m: MessageView, file_name: Option<Seq<char>>)
    ensures
        ({
            let e2 = next_state(e, m, file_name).0;
            &&& e.shapes.len() <= e2.shapes.len() <= e.shapes.len() + 1
            &&& e2.shapes.subrange(0, e.shapes.len() as int) == e.shapes
        }),
{
    let e2 = next_state(e, m, file_name).0;
    assert(e2.shapes.subrange(0, e.shapes.len() as int) =~= e.shapes);
}

/// No message changes the layers or which layer is active.
pub proof fn law_layers_fixed(e: EditorView, m: MessageView, file_name: Option<Seq<char>>)
    ensures
        next_state(e, m, file_name).0.layers == e.layers,
        next_state(e, m, file_name).0.active_layer == e.active_layer,
{
}

/// A shape is only ever added by a release, onto the active layer, with
/// the stroke width in force at that moment; the draft is then closed.
pub proof fn law_new_shape_from_release(
    e: EditorView,
    m: MessageView,
    file_name: Option<Seq<char>>,
)
    requires
        next_state(e, m, file_name).0.shapes.len() > e.shapes.len(),
    ensures
        m is CanvasReleased,
        e.draft is Some,
        next_state(e, m, file_name).0.draft is None,
        next_state(e, m, file_name).0.shapes.last().layer == e.active_layer,
        next_state(e, m, file_name).0.shapes.last().stroke_width == e.stroke_width,
{
}

/// Only the file dialog request asks for outside work.
pub proof fn law_only_open_asks_for_dialog(
    e: EditorView,
    m: MessageView,
    file_name: Option<Seq<char>>,
)
    ensures
        (next_state(e, m, file_name).1 == crate::editor::Effect::PickImageFile) <==> (
        m is OpenFileRequested),
{
}

/// Choosing a tool keeps the stroke width, the drawing, the open draft and
/// the loaded image.
pub proof fn law_tool_choice_keeps_drawing(e: EditorView, t: Tool, file_name: Option<Seq<char>>)
    ensures
        ({
            let e2 = next_state(e, MessageView::ToolSelected(t), file_name).0;
            &&& e2.tool == t
            &&& e2.status == tool_status(t)
            &&& e2.stroke_width == e.stroke_width
            &&& e2.shapes == e.shapes
            &&& e2.draft == e.draft
            &&& e2.loaded_image == e.loaded_image
        }),
{
}

/// The preview of an open draft shows the shape that releasing the pointer
/// where it is now would commit: same geometry, layer, stroke colour and
/// width; only a rectangle's or ellipse's fill is translucent in the
/// preview.
pub proof fn law_preview_matches_commit(e: EditorView)
    requires
        e.draft matches Some(d) && (d.tool != Tool::Brush || d.points.len() >= 2),
    ensures
        ({
            let d = e.draft->Some_0;
            let committed = committed_shape(e, d, d.current);
            &&& (spec_preview(e) is Some) == (committed is Some)
            &&& committed matches Some(c) ==> {
                let p = spec_preview(e)->Some_0;
                &&& p.kind == c.kind
                &&& p.layer == c.layer
                &&& p.stroke == c.stroke
                &&& p.stroke_width == c.stroke_width
                &&& p.fill.r == c.fill.r && p.fill.g == c.fill.g && p.fill.b == c.fill.b
            }
        }),
{
}

/// Opening a chosen file keeps the path as given and names the file in
/// the status: by a run of the path's characters, or `image` when the path
/// has no file name. Without `\` in the path the name is non-empty and
/// free of `/`; when the path splits at `/` alone and ends in a plain
/// component, that component is the name (`/home/me/cat.png` gives
/// `Opened cat.png.`).
pub proof fn law_opened_file_named(e: EditorView, path: Seq<char>, file_name: Option<Seq<char>>)
    requires
        file_name_fits(MessageView::OpenFileSelected(Some(path)), file_name),
    ensures
        ({
            let e2 = next_state(e, MessageView::OpenFileSelected(Some(path)), file_name).0;
            &&& e2.loaded_image == Some(path)
            &&& exists|name: Seq<char>|
                {
                    &&& e2.status == opened_status(name)
                    &&& shown_file_name(path, "image"@, name)
                }
        }),
{
    let name = spec_name_or(file_name, "image"@);
    assert(next_state(e, MessageView::OpenFileSelected(Some(path)), file_name).0.status
        == opened_status(name));
    assert(shown_file_name(path, "image"@, name));
}

/// Cancelling the file dialog keeps the loaded image and the drawing.
pub proof fn law_cancel_keeps_image(e: EditorView, file_name: Option<Seq<char>>)
    ensures
        next_state(e, MessageView::OpenFileSelected(None), file_name).0.loaded_image
            == e.loaded_image,
        next_state(e, MessageView::OpenFileSelected(None), file_name).0.shapes == e.shapes,
        next_state(e, MessageView::OpenFileSelected(None), file_name).0.draft == e.draft,
{
}

/// With nothing being drawn, moving or releasing the pointer changes nothing.
pub proof fn law_pointer_idle_without_draft(e: EditorView, p: Point)
    requires
        e.draft is None,
    ensures
        spec_drag(e, p) == e,
        spec_release(e, p) == e,
{
}

/// In select mode a press starts no drawing and changes no shape.
pub proof fn law_select_press_draws_nothing(e: EditorView, p: Point)
    requires
        e.tool == Tool::Select,
    ensures
        spec_press(e, p).draft == e.draft,
        spec_press(e, p).shapes == e.shapes,
{
}

proof fn lemma_drag_through_keeps(e: EditorView, moves: Seq<Point>)
    requires
        e.draft is Some,
    ensures
        drag_through(e, moves).draft is Some,
        drag_through(e, moves).draft->Some_0.tool == e.draft->Some_0.tool,
        drag_through(e, moves).draft->Some_0.origin == e.draft->Some_0.origin,
        e.draft->Some_0.tool != Tool::Brush ==> drag_through(e, moves).draft->Some_0.points
            == e.draft->Some_0.points,
        ({
            let e2 = drag_through(e, moves);
            e2.shapes == e.shapes && e2.layers == e.layers && e2.active_layer == e.active_layer
                && e2.stroke_width == e.stroke_width && e2.tool == e.tool && e2.status == e.status
        }),
    decreases moves.len(),
{
    if moves.len() > 0 {
        lemma_drag_through_keeps(spec_drag(e, moves[0]), moves.drop_first());
    }
}

/// Dragging a rectangle or an ellipse: press at `start`, move the pointer
/// anywhere, release at `end`, and the shape spanning `start` and `end` is
/// committed on the active layer with the current stroke width.
pub proof fn law_shape_gesture(e: EditorView, start: Point, moves: Seq<Point>, end: Point)
    requires
        e.tool == Tool::Rectangle || e.tool == Tool::Ellipse,
    ensures
        ({
            let e2 = spec_release(drag_through(spec_press(e, start), moves), end);
            let kind = if e.tool == Tool::Rectangle {
                ShapeKindView::Rectangle { start, end }
            } else {
                ShapeKindView::Ellipse { start, end }
            };
            &&& e2.shapes.len() == e.shapes.len() + 1
            &&& e2.shapes.drop_last() == e.shapes
            &&& e2.shapes.last().kind == kind
            &&& e2.shapes.last().layer == e.active_layer
            &&& e2.shapes.last().stroke_width == e.stroke_width
            &&& e2.draft is None
            &&& e2.status == committed_status(e.tool)
        }),
{
    lemma_drag_through_keeps(spec_press(e, start), moves);
    let e2 = spec_release(drag_through(spec_press(e, start), moves), end);
    assert(e2.shapes.drop_last() =~= e.shapes);
}

/// A brush click (press and release without moving) draws nothing and says
/// that the stroke was too short.
pub proof fn law_brush_click_ignored(e: EditorView, p: Point, q: Point)
    requires
        e.tool == Tool::Brush,
    ensures
        spec_release(spec_press(e, p), q).shapes == e.shapes,
        spec_release(spec_press(e, p), q).draft is None,
        spec_release(spec_press(e, p), q).status == too_short_status(),
{
}

/// A brush stroke that moves more than 1.5 px from the press point before
/// the release is committed through those two samples.
pub proof fn law_brush_stroke(e: EditorView, p: Point, q: Point, r: Point)
    requires
        e.tool == Tool::Brush,
        far_apart(p, q),
    ensures
        ({
            let e2 = spec_release(spec_drag(spec_press(e, p), q), r);
            &&& e2.shapes == e.shapes.push(
                ShapeView {
                    layer: e.active_layer,
                    kind: ShapeKindView::BrushStroke(seq![p, q]),
                    stroke: spec_palette_color(0),
                    fill: spec_transparent(),
                    stroke_width: e.stroke_width,
                },
            )
            &&& e2.draft is None
        }),
{
    let e1 = spec_drag(spec_press(e, p), q);
    assert(e1.draft->Some_0.points =~= seq![p, q]);
}

/// A brush sample closer than 1.5 px to the previous one is not recorded.
pub proof fn law_brush_ignores_jitter(e: EditorView, p: Point, q: Point)
    requires
        e.draft matches Some(d) && d.tool == Tool::Brush && d.points.len() > 0,
        !far_apart(e.draft->Some_0.points.last(), q),
    ensures
        spec_drag(e, q).draft->Some_0.points == e.draft->Some_0.points,
        spec_drag(e, q).draft->Some_0.current == q,
{
}

/// Pointer activity away from the artboard never reaches the editor.
pub proof fn law_off_artboard_ignored(
    drafting: bool,
    width: i32,
    height: i32,
    position: Option<Point>,
    event: PointerEvent,
)
    requires
        !over_artboard(width, height, position),
    ensures
        spec_canvas_message(drafting, width, height, position, event) is None,
{
}

/// The rectangle spanned by two points does not depend on their order,
/// contains both of them, and is at least 1 px wide and tall.
pub proof fn law_rectangle_from_points(a: Point, b: Point)
    ensures
        spec_rectangle_from_points(a, b) == spec_rectangle_from_points(b, a),
        spec_rectangle_contains(spec_rectangle_from_points(a, b), a),
        spec_rectangle_contains(spec_rectangle_from_points(a, b), b),
        spec_rectangle_from_points(a, b).width >= UNITS_PER_PIXEL,
        spec_rectangle_from_points(a, b).height >= UNITS_PER_PIXEL,
{
}

/// The artboard is at least 1 px wide and tall, and it fits inside a canvas
/// large enough to hold the paddings.
pub proof fn law_artboard_inside_canvas(width: i32, height: i32)
    ensures
        spec_artboard_bounds(width, height).width >= UNITS_PER_PIXEL,
        spec_artboard_bounds(width, height).height >= UNITS_PER_PIXEL,
        width >= 8100 ==> spec_artboard_bounds(width, height).x
            + spec_artboard_bounds(width, height).width + 4000 == width,
        height >= 6500 ==> spec_artboard_bounds(width, height).y
            + spec_artboard_bounds(width, height).height + 3200 == height,
{
}

proof fn lemma_visible_prefix(e: EditorView, n: nat)
    requires
        n <= e.shapes.len(),
        e.shapes.len() <= usize::MAX,
    ensures
        forall|k: int|
            0 <= k < visible_prefix(e, n).len() ==> {
                let i = #[trigger] visible_prefix(e, n)[k];
                &&& i < n
                &&& shape_visible(e, i as int)
            },
        forall|k: int, l: int|
            0 <= k < l < visible_prefix(e, n).len() ==> visible_prefix(e, n)[k]
                < visible_prefix(e, n)[l],
        forall|i: int| 0 <= i < n && shape_visible(e, i) ==> visible_prefix(e, n).contains(i as usize),
    decreases n,
{
    if n > 0 {
        lemma_visible_prefix(e, (n - 1) as nat);
        let before = visible_prefix(e, (n - 1) as nat);
        let now = visible_prefix(e, n);
        if shape_visible(e, n - 1) {
            assert(now[before.len() as int] == (n - 1) as usize);
            assert forall|k: int| 0 <= k < now.len() implies {
                let i = #[trigger] now[k];
                &&& i < n
                &&& shape_visible(e, i as int)
            } by {
                if k < before.len() {
                    assert(now[k] == before[k]);
                }
            }
            assert forall|k: int, l: int| 0 <= k < l < now.len() implies now[k] < now[l] by {
                assert(now[k] == before[k]);
                if l < before.len() {
                    assert(now[l] == before[l]);
                }
            }
        }
        assert forall|i: int| 0 <= i < n && shape_visible(e, i) implies visible_prefix(
            e,
            n,
        ).contains(i as usize) by {
            if i < n - 1 {
                let k = choose|k: int| 0 <= k < before.len() && before[k] == i as usize;
                assert(visible_prefix(e, n)[k] == i as usize);
            } else {
                assert(visible_prefix(e, n)[before.len() as int] == i as usize);
            }
        }
    }
}

/// The shapes drawn are exactly those on an existing, visible layer, each
/// once, in the order they were committed.
pub proof fn law_visible_shapes(e: EditorView)
    requires
        e.shapes.len() <= usize::MAX,
    ensures
        forall|k: int|
            0 <= k < visible_indices(e).len() ==> {
                let i = #[trigger] visible_indices(e)[k];
                &&& i < e.shapes.len()
                &&& shape_visible(e, i as int)
            },
        forall|k: int, l: int|
            0 <= k < l < visible_indices(e).len() ==> visible_indices(e)[k]
                < visible_indices(e)[l],
        forall|i: int|
            0 <= i < e.shapes.len() && shape_visible(e, i) ==> visible_indices(e).contains(
                i as usize,
            ),
{
    lemma_visible_prefix(e, e.shapes.len());
}

// ---------------------------------------------------------------------
// Laws stated over the inputs alone
// ---------------------------------------------------------------------

/// A brush keeps recording for as long as the stroke lasts: with any number
/// of samples so far, a move more than 1.5 px (more than 150 units, so a
/// squared distance above 22500) from the last sample appends exactly that
/// point, and the draft follows the pointer.
pub proof fn law_brush_appends_far_sample(
    e: EditorView,
    q: Point,
    file_name: Option<Seq<char>>,
)
    requires
        e.draft matches Some(d) && d.tool == Tool::Brush && d.points.len() >= 1,
        ({
            let last = e.draft->Some_0.points.last();
            (last.x - q.x) * (last.x - q.x) + (last.y - q.y) * (last.y - q.y) > 22500
        }),
    ensures
        ({
            let d = e.draft->Some_0;
            let e2 = next_state(e, MessageView::CanvasDragged(q), file_name).0;
            &&& e2.draft matches Some(d2) && d2.points == d.points.push(q) && d2.current == q
                && d2.origin == d.origin && d2.tool == d.tool
            &&& e2.shapes == e.shapes
        }),
{
}

/// A brush skips a move that stays within 1.5 px of the last sample.
pub proof fn law_brush_skips_near_sample(
    e: EditorView,
    q: Point,
    file_name: Option<Seq<char>>,
)
    requires
        e.draft matches Some(d) && d.tool == Tool::Brush && d.points.len() >= 1,
        ({
            let last = e.draft->Some_0.points.last();
            (last.x - q.x) * (last.x - q.x) + (last.y - q.y) * (last.y - q.y) <= 22500
        }),
    ensures
        ({
            let d = e.draft->Some_0;
            let e2 = next_state(e, MessageView::CanvasDragged(q), file_name).0;
            e2.draft matches Some(d2) && d2.points == d.points && d2.current == q
        }),
{
}

/// Moving the pointer never changes what a rectangle or ellipse draft
/// records: only where the pointer is.
pub proof fn law_shape_drag_follows_pointer(
    e: EditorView,
    q: Point,
    file_name: Option<Seq<char>>,
)
    requires
        e.draft matches Some(d) && d.tool != Tool::Brush,
    ensures
        ({
            let d = e.draft->Some_0;
            let e2 = next_state(e, MessageView::CanvasDragged(q), file_name).0;
            &&& e2.draft matches Some(d2) && d2.points == d.points && d2.current == q
                && d2.origin == d.origin && d2.tool == d.tool
            &&& e2.shapes == e.shapes
            &&& e2.status == e.status
        }),
{
}

/// Releasing a brush draft with at least two samples commits a stroke
/// through exactly those samples, on the active layer, with the current
/// width, whatever the release point.
pub proof fn law_brush_release_commits_samples(
    e: EditorView,
    r: Point,
    file_name: Option<Seq<char>>,
)
    requires
        e.draft matches Some(d) && d.tool == Tool::Brush && d.points.len() >= 2,
    ensures
        ({
            let d = e.draft->Some_0;
            let e2 = next_state(e, MessageView::CanvasReleased(r), file_name).0;
            &&& e2.shapes.len() == e.shapes.len() + 1
            &&& e2.shapes.drop_last() == e.shapes
            &&& e2.shapes.last().kind == ShapeKindView::BrushStroke(d.points)
            &&& e2.shapes.last().layer == e.active_layer
            &&& e2.shapes.last().stroke_width == e.stroke_width
            &&& e2.draft is None
        }),
{
    let e2 = next_state(e, MessageView::CanvasReleased(r), file_name).0;
    assert(e2.shapes.drop_last() =~= e.shapes);
}

/// A press with a drawing tool opens a draft at the press point with that
/// tool; only a brush records the press point as its first sample. The
/// drawing is untouched.
pub proof fn law_press_opens_draft(e: EditorView, p: Point, file_name: Option<Seq<char>>)
    requires
        e.tool != Tool::Select,
    ensures
        ({
            let e2 = next_state(e, MessageView::CanvasPressed(p), file_name).0;
            &&& e2.draft matches Some(d) && d.tool == e.tool && d.origin == p && d.current == p
                && (e.tool == Tool::Brush ==> d.points == seq![p]) && (e.tool != Tool::Brush
                ==> d.points.len() == 0)
            &&& e2.shapes == e.shapes
            &&& e2.tool == e.tool
            &&& e2.stroke_width == e.stroke_width
            &&& e2.loaded_image == e.loaded_image
        }),
{
    let e2 = next_state(e, MessageView::CanvasPressed(p), file_name).0;
    if e.tool == Tool::Brush {
        assert(e2.draft->Some_0.points =~= seq![p]);
    }
}

/// Only choosing a file changes the loaded image: every other message,
/// the dialog request and its cancellation included, keeps it.
pub proof fn law_image_changes_only_on_choice(
    e: EditorView,
    m: MessageView,
    file_name: Option<Seq<char>>,
)
    requires
        !(m matches MessageView::OpenFileSelected(Some(_))),
    ensures
        next_state(e, m, file_name).0.loaded_image == e.loaded_image,
{
}

/// Only setting the width changes the stroke width, and only choosing a
/// tool changes the tool.
pub proof fn law_width_and_tool_change_only_on_request(
    e: EditorView,
    m: MessageView,
    file_name: Option<Seq<char>>,
)
    ensures
        !(m is StrokeWidthChanged) ==> next_state(e, m, file_name).0.stroke_width
            == e.stroke_width,
        m matches MessageView::StrokeWidthChanged(w) ==> next_state(e, m, file_name).0.stroke_width
            == w,
        !(m is ToolSelected) ==> next_state(e, m, file_name).0.tool == e.tool,
        m matches MessageView::ToolSelected(t) ==> next_state(e, m, file_name).0.tool == t,
{
}

/// Only the pointer touches the drawing and the draft: file, tool, width
/// and empty messages keep both.
pub proof fn law_drawing_changes_only_by_pointer(
    e: EditorView,
    m: MessageView,
    file_name: Option<Seq<char>>,
)
    requires
        !(m is CanvasPressed || m is CanvasDragged || m is CanvasReleased),
    ensures
        next_state(e, m, file_name).0.shapes == e.shapes,
        next_state(e, m, file_name).0.draft == e.draft,
{
}

/// The empty message changes nothing and asks for nothing.
pub proof fn law_noop_is_identity(e: EditorView, file_name: Option<Seq<char>>)
    ensures
        next_state(e, MessageView::Noop, file_name) == (e, crate::editor::Effect::Idle),
{
}

/// A shape is drawn exactly when its layer exists and is visible, whatever
/// kind of shape it is.
pub proof fn law_drawn_iff_layer_visible(e: EditorView)
    requires
        e.shapes.len() <= usize::MAX,
    ensures
        forall|i: int|
            0 <= i < e.shapes.len() ==> (visible_indices(e).contains(i as usize) <==> ({
                let l = (#[trigger] e.shapes[i]).layer;
                l < e.layers.len() && e.layers[l as int].visible
            })),
{
    lemma_visible_prefix(e, e.shapes.len());
    assert forall|i: int|
        0 <= i < e.shapes.len() && #[trigger] visible_indices(e).contains(i as usize) implies ({
        let l = e.shapes[i].layer;
        l < e.layers.len() && e.layers[l as int].visible
    }) by {
        let k = choose|k: int| 0 <= k < visible_indices(e).len() && visible_indices(e)[k] == i as usize;
        assert(shape_visible(e, visible_indices(e)[k] as int));
    }
    assert forall|i: int|
        0 <= i < e.shapes.len() && ({
            let l = (#[trigger] e.shapes[i]).layer;
            l < e.layers.len() && e.layers[l as int].visible
        }) implies visible_indices(e).contains(i as usize) by {
        assert(shape_visible(e, i));
    }
}

/// The pointer is over the artboard exactly when it lies between the
/// paddings: at least 40 px (4000 units) from the left edge and 32 px
/// (3200 units) from the top, and at most the artboard's width and height
/// (the canvas size less both paddings, at least 1 px) further on.
pub proof fn law_over_artboard_bounds(width: i32, height: i32, p: Point)
    ensures
        over_artboard(width, height, Some(p)) <==> ({
            let w: int = if width - 8000 >= 100 {
                width - 8000
            } else {
                100
            };
            let h: int = if height - 6400 >= 100 {
                height - 6400
            } else {
                100
            };
            &&& 4000 <= p.x <= 4000 + w
            &&& 3200 <= p.y <= 3200 + h
        }),
        !over_artboard(width, height, None),
{
}

/// A press reaches the editor exactly when it is over the artboard, and
/// then at the press point; moves and releases reach it only while a shape
/// is being drawn and the pointer is over the artboard; nothing else does.
pub proof fn law_canvas_input(
    drafting: bool,
    width: i32,
    height: i32,
    position: Option<Point>,
    event: PointerEvent,
)
    ensures
        ({
            let m = spec_canvas_message(drafting, width, height, position, event);
            let over = over_artboard(width, height, position);
            &&& event == PointerEvent::LeftPressed ==> (m is Some <==> over)
            &&& (event == PointerEvent::Moved || event == PointerEvent::LeftReleased) ==> (m
                is Some <==> (over && drafting))
            &&& event == PointerEvent::Other ==> m is None
            &&& m matches Some(msg) ==> match msg {
                MessageView::CanvasPressed(q) => event == PointerEvent::LeftPressed && position
                    == Some(q),
                MessageView::CanvasDragged(q) => event == PointerEvent::Moved && position == Some(
                    q,
                ),
                MessageView::CanvasReleased(q) => event == PointerEvent::LeftReleased && position
                    == Some(q),
                _ => false,
            }
        }),
{
}

/// The rectangle spanned by two points is tight: its left and top edges
/// lie on the nearer of the two points, and where the points are at least
/// 1 px apart along an axis its far edge lies on the other point; a side
/// spanning less than 1 px is exactly 1 px (100 units).
pub proof fn law_rectangle_is_tight(a: Point, b: Point)
    ensures
        ({
            let r = spec_rectangle_from_points(a, b);
            &&& r.x == a.x || r.x == b.x
            &&& r.x <= a.x && r.x <= b.x
            &&& r.y == a.y || r.y == b.y
            &&& r.y <= a.y && r.y <= b.y
            &&& (a.x - b.x >= 100 || b.x - a.x >= 100) ==> (r.x + r.width == a.x || r.x + r.width
                == b.x)
            &&& (a.y - b.y >= 100 || b.y - a.y >= 100) ==> (r.y + r.height == a.y || r.y
                + r.height == b.y)
            &&& (a.x - b.x < 100 && b.x - a.x < 100) ==> r.width == 100
            &&& (a.y - b.y < 100 && b.y - a.y < 100) ==> r.height == 100
        }),
{
}

/// What the status line says after each message, in the user's words.
pub proof fn law_status_texts(e: EditorView, m: MessageView, file_name: Option<Seq<char>>)
    ensures
        ({
            let st = next_state(e, m, file_name).0.status;
            match m {
                MessageView::Noop => st == e.status,
                MessageView::OpenFileRequested => st == "Choose an image to open."@,
                MessageView::OpenFileSelected(None) => st == "Open cancelled."@,
                MessageView::OpenFileSelected(Some(_)) => st == "Opened "@ + (match file_name {
                    Some(n) => n,
                    None => "image"@,
                }) + "."@,
                MessageView::ToolSelected(Tool::Select) => st
                    == "Select mode is still a placeholder."@,
                MessageView::ToolSelected(Tool::Brush) => st
                    == "Brush ready. Drag on the artboard to paint."@,
                MessageView::ToolSelected(Tool::Rectangle) => st
                    == "Rectangle tool ready. Drag to place a shape."@,
                MessageView::ToolSelected(Tool::Ellipse) => st
                    == "Ellipse tool ready. Drag to place a shape."@,
                MessageView::StrokeWidthChanged(w) => st == "Stroke width set to "@ + decimal(
                    w as nat,
                ) + "px."@,
                MessageView::CanvasPressed(_) => st == if e.tool == Tool::Select {
                    "Select mode is not implemented yet."@
                } else {
                    e.status
                },
                MessageView::CanvasDragged(_) => st == e.status,
                MessageView::CanvasReleased(_) => st == match e.draft {
                    None => e.status,
                    Some(d) => match d.tool {
                        Tool::Brush => if d.points.len() < 2 {
                            "Ignored a brush stroke that was too short."@
                        } else {
                            "Brush committed."@
                        },
                        Tool::Rectangle => "Rectangle committed."@,
                        Tool::Ellipse => "Ellipse committed."@,
                        Tool::Select => e.status,
                    },
                },
            }
        }),
{
    reveal_strlit("Brush");
    reveal_strlit("Rectangle");
    reveal_strlit("Ellipse");
    reveal_strlit(" committed.");
    reveal_strlit("Brush committed.");
    reveal_strlit("Rectangle committed.");
    reveal_strlit("Ellipse committed.");
    assert("Brush"@ + " committed."@ =~= "Brush committed."@);
    assert("Rectangle"@ + " committed."@ =~= "Rectangle committed."@);
    assert("Ellipse"@ + " committed."@ =~= "Ellipse committed."@);
}

/// The number that a run of decimal digits denotes.
pub open spec fn digits_value(s: Seq<char>) -> int
    decreases s.len(),
{
    if s.len() == 0 {
        0
    } else {
        digits_value(s.drop_last()) * 10 + (s.last() as int - '0' as int)
    }
}

/// The decimal text of a number is made of digits, starts with `0` only
/// for zero, and denotes that number.
pub proof fn law_decimal_denotes(n: nat)
    ensures
        decimal(n).len() >= 1,
        forall|i: int| 0 <= i < decimal(n).len() ==> '0' <= #[trigger] decimal(n)[i] <= '9',
        decimal(n)[0] == '0' ==> n == 0,
        digits_value(decimal(n)) == n,
    decreases n,
{
    if n >= 10 {
        law_decimal_denotes(n / 10);
        let d = decimal(n);
        assert(d.drop_last() =~= decimal(n / 10));
        assert(d[0] == decimal(n / 10)[0]);
        assert(d.last() == crate::text::digit_char((n % 10) as int));
        assert(crate::text::digit_char((n % 10) as int) as int == (n % 10) + 48);
        assert(n == (n / 10) * 10 + n % 10);
        assert('0' as int == 48);
        assert(digits_value(d) == digits_value(d.drop_last()) * 10 + (d.last() as int - 48));
        assert(digits_value(d.drop_last()) == n / 10);
        assert(digits_value(d) == (n / 10) * 10 + n % 10);
    } else {
        assert('0' as int == 48);
        assert(crate::text::digit_char(n as int) as int == n + 48);
        let d = decimal(n);
        assert(d.drop_last() =~= Seq::<char>::empty());
        assert(digits_value(d.drop_last()) == 0);
        assert(d.last() as int == n + 48);
        assert(digits_value(d) == digits_value(d.drop_last()) * 10 + (d.last() as int - 48));
    }
}

/// Each grid line sits at the largest whole offset whose share of the span
/// does not pass its own: the `k`-th of `count` lines across a span of
/// `length` lies at `start + o` with `count * o <= length * k < count * (o + 1)`.
pub proof fn law_grid_offset_rounds_down(start: int, length: int, count: int, k: int)
    requires
        count > 0,
        length >= 0,
        k >= 0,
    ensures
        ({
            let o = grid_offset(start, length, count, k) - start;
            count * o <= length * k < count * (o + 1)
        }),
{
    let o = grid_offset(start, length, count, k) - start;
    assert(o == length * k / count);
    vstd::arithmetic::div_mod::lemma_fundamental_div_mod(length * k, count);
    assert(count * o <= length * k < count * (o + 1)) by (nonlinear_arith)
        requires
            o == length * k / count,
            length * k == count * (length * k / count) + (length * k) % count,
            0 <= (length * k) % count < count,
    ;
}

} // verus!
