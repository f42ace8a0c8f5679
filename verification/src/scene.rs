//! What the artboard shows: the committed shapes on visible layers, in the
//! order they were drawn, then the shape being drawn.
use vstd::prelude::*;
use crate::editor::{
    DraftShape, Editor, EditorView, Shape, ShapeKind, ShapeKindView, ShapeView, Tool, shapes_view,
};
use crate::geometry::Point;
use crate::paint::{palette_color, spec_palette_color, spec_transparent, Paint};
use crate::text::{decimal, push_decimal, short_path, shown_file_name};
use vstd::string::*;

verus! {

/// Whether shape `i` lies on an existing, visible layer.
pub open spec fn shape_visible(e: EditorView, i: int) -> bool {
    let layer = e.shapes[i].layer;
    layer < e.layers.len() && e.layers[layer as int].visible
}

/// The indices below `n` of the visible shapes, in increasing order.
pub open spec fn visible_prefix(e: EditorView, n: nat) -> Seq<usize>
    decreases n,
{
    if n == 0 {
        Seq::empty()
    } else {
        let before = visible_prefix(e, (n - 1) as nat);
        if shape_visible(e, n - 1) {
            before.push((n - 1) as usize)
        } else {
            before
        }
    }
}

/// The indices of the visible shapes, in drawing order.
pub open spec fn visible_indices(e: EditorView) -> Seq<usize> {
    visible_prefix(e, e.shapes.len())
}

/// A translucent version of a palette colour, for previews (35 % opacity).
pub open spec fn preview_fill(index: int) -> Paint {
    Paint { alpha: 35, ..spec_palette_color(index) }
}

/// The preview of the open draft: how it would look if released where the
/// pointer is now. A selection draft has none.
pub open spec fn spec_preview(e: EditorView) -> Option<ShapeView> {
    match e.draft {
        None => None,
        Some(d) => match d.tool {
            Tool::Brush => Some(
                ShapeView {
                    layer: e.active_layer,
                    kind: ShapeKindView::BrushStroke(d.points),
                    stroke: spec_palette_color(0),
                    fill: spec_transparent(),
                    stroke_width: e.stroke_width,
                },
            ),
            Tool::Rectangle => Some(
                ShapeView {
                    layer: e.active_layer,
                    kind: ShapeKindView::Rectangle { start: d.origin, end: d.current },
                    stroke: spec_palette_color(0),
                    fill: preview_fill(6),
                    stroke_width: e.stroke_width,
                },
            ),
            Tool::Ellipse => Some(
                ShapeView {
                    layer: e.active_layer,
                    kind: ShapeKindView::Ellipse { start: d.origin, end: d.current },
                    stroke: spec_palette_color(1),
                    fill: preview_fill(7),
                    stroke_width: e.stroke_width,
                },
            ),
            Tool::Select => None,
        },
    }
}

/// Whether a shape leaves a mark: a brush stroke needs two samples.
pub open spec fn spec_has_outline(s: ShapeView) -> bool {
    match s.kind {
        ShapeKindView::BrushStroke(points) => points.len() >= 2,
        _ => true,
    }
}

/// The toolbar caption of the loaded image: its file name, or
/// `No image loaded`.
pub open spec fn image_caption_fits(e: EditorView, s: Seq<char>) -> bool {
    match e.loaded_image {
        None => s == "No image loaded"@,
        Some(path) => shown_file_name(path, "untitled"@, s),
    }
}

/// The menu entry naming the loaded image: `Loaded: ` and its file name,
/// or `Loaded: none`.
pub open spec fn image_menu_label_fits(e: EditorView, s: Seq<char>) -> bool {
    match e.loaded_image {
        None => s == "Loaded: none"@,
        Some(path) => exists|name: Seq<char>|
            s == "Loaded: "@ + name && shown_file_name(path, "untitled"@, name),
    }
}

fn copy_points(points: &Vec<Point>) -> (r: Vec<Point>)
    ensures
        r@ == points@,
{
    let mut r: Vec<Point> = Vec::new();
    for i in 0..points.len()
        invariant
            r@ == points@.subrange(0, i as int),
    {
        r.push(points[i]);
        assert(r@ =~= points@.subrange(0, i + 1));
    }
    assert(r@ =~= points@);
    r
}

impl Shape {
    /// Whether drawing the shape leaves a mark.
    pub fn has_outline(&self) -> (r: bool)
        ensures
            r == spec_has_outline(self@),
    {
        match &self.kind {
            ShapeKind::BrushStroke(points) => points.len() >= 2,
            _ => true,
        }
    }
}

impl Editor {
    /// The indices of the shapes to draw, in drawing order: those on an
    /// existing, visible layer.
    pub fn visible_shape_indices(&self) -> (r: Vec<usize>)
        ensures
            r@ == visible_indices(self@),
    {
        let shapes = self.shapes();
        let layers = self.layers();
        let ghost e = self@;
        let mut r: Vec<usize> = Vec::new();
        for i in 0..shapes.len()
            invariant
                shapes_view(shapes@) == e.shapes,
                layers@ == e.layers,
                r@ == visible_prefix(e, i as nat),
        {
            let layer = shapes[i].layer;
            assert(e.shapes[i as int] == shapes@[i as int]@);
            let visible = layer < layers.len() && layers[layer].visible;
            if visible {
                r.push(i);
            }
        }
        r
    }

    /// The toolbar caption naming the loaded image.
    pub fn image_caption(&self) -> (s: String)
        ensures
            image_caption_fits(self@, s@),
    {
        match self.loaded_image() {
            Some(path) => short_path(path.as_str()),
            None => String::from_str("No image loaded"),
        }
    }

    /// The menu entry naming the loaded image.
    pub fn image_menu_label(&self) -> (s: String)
        ensures
            image_menu_label_fits(self@, s@),
    {
        match self.loaded_image() {
            Some(path) => {
                let name = short_path(path.as_str());
                let mut s = String::from_str("Loaded: ");
                s.append(name.as_str());
                assert(s@ == "Loaded: "@ + name@);
                s
            },
            None => String::from_str("Loaded: none"),
        }
    }

    /// The toolbar caption of the stroke width: `6px` for 6 pixels.
    pub fn stroke_width_caption(&self) -> (s: String)
        ensures
            s@ == decimal(self@.stroke_width as nat) + "px"@,
    {
        let mut s = String::new();
        push_decimal(&mut s, self.stroke_width());
        s.append("px");
        assert(s@ =~= decimal(self@.stroke_width as nat) + "px"@);
        s
    }

    /// The shape previewing the open draft, if there is one to show.
    pub fn preview_shape(&self) -> (r: Option<Shape>)
        ensures
            match r {
                Some(s) => spec_preview(self@) == Some(s@),
                None => spec_preview(self@) is None,
            },
    {
        let draft: &Option<DraftShape> = self.draft();
        let d = match draft {
            Some(d) => d,
            None => {
                return None;
            },
        };
        let layer = self.active_layer();
        let stroke_width = self.stroke_width();
        match d.tool {
            Tool::Brush => Some(
                Shape {
                    layer,
                    kind: ShapeKind::BrushStroke(copy_points(&d.points)),
                    stroke: palette_color(0),
                    fill: Paint::transparent(),
                    stroke_width,
                },
            ),
            Tool::Rectangle => Some(
                Shape {
                    layer,
                    kind: ShapeKind::Rectangle { start: d.origin, end: d.current },
                    stroke: palette_color(0),
                    fill: palette_color(6).scale_alpha(35),
                    stroke_width,
                },
            ),
            Tool::Ellipse => Some(
                Shape {
                    layer,
                    kind: ShapeKind::Ellipse { start: d.origin, end: d.current },
                    stroke: palette_color(1),
                    fill: palette_color(7).scale_alpha(35),
                    stroke_width,
                },
            ),
            Tool::Select => None,
        }
    }
}

} // verus!
