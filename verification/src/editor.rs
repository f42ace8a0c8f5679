//! The editor: its state, the messages it reacts to, and how each message
//! changes the state.
use vstd::prelude::*;
use vstd::string::*;
use crate::geometry::{far_apart, moved_far_enough, Point};
use crate::paint::{palette_color, spec_palette_color, spec_transparent, Paint};
use crate::text::{
    decimal, file_name_facts, name_or, opt_view, path_file_name, push_decimal, spec_name_or,
};

verus! {

/// The drawing tools.
#[derive(Clone, Copy, Debug, PartialEq, Eq, Structural)]
pub enum Tool {
    Select,
    Brush,
    Rectangle,
    Ellipse,
}

/// The name of a tool as the toolbar shows it.
pub open spec fn spec_label(tool: Tool) -> Seq<char> {
    match tool {
        Tool::Select => "Select"@,
        Tool::Brush => "Brush"@,
        Tool::Rectangle => "Rectangle"@,
        Tool::Ellipse => "Ellipse"@,
    }
}

impl Tool {
    /// The name of the tool as the toolbar shows it.
    pub fn label(self) -> (s: &'static str)
        ensures
            s@ == spec_label(self),
    {
        match self {
            Tool::Select => "Select",
            Tool::Brush => "Brush",
            Tool::Rectangle => "Rectangle",
            Tool::Ellipse => "Ellipse",
        }
    }
}

/// A layer of the document.
#[derive(Clone, Copy, Debug, PartialEq, Eq, Structural)]
pub struct Layer {
    pub visible: bool,
}

/// The geometry of a shape.
#[derive(Debug, PartialEq)]
pub enum ShapeKind {
    /// A freehand stroke through the given samples, in order.
    BrushStroke(Vec<Point>),
    /// The rectangle with opposite corners `start` and `end`.
    Rectangle { start: Point, end: Point },
    /// The ellipse inscribed in the rectangle with corners `start` and `end`.
    Ellipse { start: Point, end: Point },
}

pub enum ShapeKindView {
    BrushStroke(Seq<Point>),
    Rectangle { start: Point, end: Point },
    Ellipse { start: Point, end: Point },
}

impl View for ShapeKind {
    type V = ShapeKindView;

    open spec fn view(&self) -> ShapeKindView {
        match self {
            ShapeKind::BrushStroke(points) => ShapeKindView::BrushStroke(points@),
            ShapeKind::Rectangle { start, end } => ShapeKindView::Rectangle {
                start: *start,
                end: *end,
            },
            ShapeKind::Ellipse { start, end } => ShapeKindView::Ellipse { start: *start, end: *end },
        }
    }
}

/// A committed shape on a layer.
#[derive(Debug, PartialEq)]
pub struct Shape {
    pub layer: usize,
    pub kind: ShapeKind,
    pub stroke: Paint,
    pub fill: Paint,
    pub stroke_width: u32,
}

pub struct ShapeView {
    pub layer: usize,
    pub kind: ShapeKindView,
    pub stroke: Paint,
    pub fill: Paint,
    pub stroke_width: u32,
}

impl View for Shape {
    type V = ShapeView;

    open spec fn view(&self) -> ShapeView {
        ShapeView {
            layer: self.layer,
            kind: self.kind@,
            stroke: self.stroke,
            fill: self.fill,
            stroke_width: self.stroke_width,
        }
    }
}

/// A shape being drawn: where the gesture started, where the pointer is
/// now, and the samples a brush has recorded so far.
#[derive(Debug, PartialEq)]
pub struct DraftShape {
    pub tool: Tool,
    pub origin: Point,
    pub current: Point,
    pub points: Vec<Point>,
}

pub struct DraftView {
    pub tool: Tool,
    pub origin: Point,
    pub current: Point,
    pub points: Seq<Point>,
}

impl View for DraftShape {
    type V = DraftView;

    open spec fn view(&self) -> DraftView {
        DraftView {
            tool: self.tool,
            origin: self.origin,
            current: self.current,
            points: self.points@,
        }
    }
}

pub open spec fn draft_view(d: Option<DraftShape>) -> Option<DraftView> {
    match d {
        Some(d) => Some(d@),
        None => None,
    }
}

/// What the editor reacts to.
#[derive(Debug)]
pub enum Message {
    /// Does nothing (menu headers and informational entries send it).
    Noop,
    OpenFileRequested,
    /// The file dialog closed, with the chosen path if there was one.
    OpenFileSelected(Option<String>),
    ToolSelected(Tool),
    /// The stroke width slider moved, in whole pixels.
    StrokeWidthChanged(u32),
    CanvasPressed(Point),
    CanvasDragged(Point),
    CanvasReleased(Point),
}

pub enum MessageView {
    Noop,
    OpenFileRequested,
    OpenFileSelected(Option<Seq<char>>),
    ToolSelected(Tool),
    StrokeWidthChanged(u32),
    CanvasPressed(Point),
    CanvasDragged(Point),
    CanvasReleased(Point),
}

impl View for Message {
    type V = MessageView;

    open spec fn view(&self) -> MessageView {
        match self {
            Message::Noop => MessageView::Noop,
            Message::OpenFileRequested => MessageView::OpenFileRequested,
            Message::OpenFileSelected(path) => MessageView::OpenFileSelected(opt_view(*path)),
            Message::ToolSelected(t) => MessageView::ToolSelected(*t),
            Message::StrokeWidthChanged(w) => MessageView::StrokeWidthChanged(*w),
            Message::CanvasPressed(p) => MessageView::CanvasPressed(*p),
            Message::CanvasDragged(p) => MessageView::CanvasDragged(*p),
            Message::CanvasReleased(p) => MessageView::CanvasReleased(*p),
        }
    }
}

pub open spec fn message_opt_view(m: Option<Message>) -> Option<MessageView> {
    match m {
        Some(m) => Some(m@),
        None => None,
    }
}

/// Outside work that the editor asks for after a message.
#[derive(Clone, Copy, Debug, PartialEq, Eq, Structural)]
pub enum Effect {
    /// Nothing to do.
    Idle,
    /// Show a dialog to pick an image file (png, jpeg, jpg or bmp) and
    /// answer with `Message::OpenFileSelected`.
    PickImageFile,
}

/// The editor's state.
pub struct Editor {
    tool: Tool,
    stroke_width: u32,
    layers: Vec<Layer>,
    active_layer: usize,
    shapes: Vec<Shape>,
    draft: Option<DraftShape>,
    loaded_image: Option<String>,
    status: String,
}

pub struct EditorView {
    pub tool: Tool,
    pub stroke_width: u32,
    pub layers: Seq<Layer>,
    pub active_layer: usize,
    pub shapes: Seq<ShapeView>,
    pub draft: Option<DraftView>,
    pub loaded_image: Option<Seq<char>>,
    pub status: Seq<char>,
}

pub open spec fn shapes_view(shapes: Seq<Shape>) -> Seq<ShapeView> {
    shapes.map_values(|s: Shape| s@)
}

impl View for Editor {
    type V = EditorView;

    closed spec fn view(&self) -> EditorView {
        EditorView {
            tool: self.tool,
            stroke_width: self.stroke_width,
            layers: self.layers@,
            active_layer: self.active_layer,
            shapes: shapes_view(self.shapes@),
            draft: draft_view(self.draft),
            loaded_image: opt_view(self.loaded_image),
            status: self.status@,
        }
    }
}

// ---------------------------------------------------------------------
// Status texts
// ---------------------------------------------------------------------

pub open spec fn initial_status() -> Seq<char> {
    "File -> Open loads PNG, JPEG, JPG, and BMP images."@
}

pub open spec fn choose_image_status() -> Seq<char> {
    "Choose an image to open."@
}

pub open spec fn opened_status(name: Seq<char>) -> Seq<char> {
    "Opened "@ + name + "."@
}

pub open spec fn cancelled_status() -> Seq<char> {
    "Open cancelled."@
}

pub open spec fn tool_status(tool: Tool) -> Seq<char> {
    match tool {
        Tool::Select => "Select mode is still a placeholder."@,
        Tool::Brush => "Brush ready. Drag on the artboard to paint."@,
        Tool::Rectangle => "Rectangle tool ready. Drag to place a shape."@,
        Tool::Ellipse => "Ellipse tool ready. Drag to place a shape."@,
    }
}

pub open spec fn width_status(width: u32) -> Seq<char> {
    "Stroke width set to "@ + decimal(width as nat) + "px."@
}

pub open spec fn select_unsupported_status() -> Seq<char> {
    "Select mode is not implemented yet."@
}

pub open spec fn too_short_status() -> Seq<char> {
    "Ignored a brush stroke that was too short."@
}

pub open spec fn committed_status(tool: Tool) -> Seq<char> {
    spec_label(tool) + " committed."@
}

// ---------------------------------------------------------------------
// The transition function
// ---------------------------------------------------------------------

/// The editor as it starts.
pub open spec fn initial_editor() -> EditorView {
    EditorView {
        tool: Tool::Brush,
        stroke_width: 6,
        layers: seq![Layer { visible: true }, Layer { visible: true }],
        active_layer: 1,
        shapes: Seq::empty(),
        draft: None,
        loaded_image: None,
        status: initial_status(),
    }
}

/// The draft that a press at `p` opens with `tool`: a brush starts with
/// its first sample, the other tools record none.
pub open spec fn new_draft(tool: Tool, p: Point) -> DraftView {
    DraftView {
        tool,
        origin: p,
        current: p,
        points: if tool == Tool::Brush {
            seq![p]
        } else {
            Seq::empty()
        },
    }
}

pub open spec fn spec_press(e: EditorView, p: Point) -> EditorView {
    if e.tool == Tool::Select {
        EditorView { status: select_unsupported_status(), ..e }
    } else {
        EditorView { draft: Some(new_draft(e.tool, p)), ..e }
    }
}

/// Whether a brush records the sample `p` after the samples `points`.
pub open spec fn records_sample(points: Seq<Point>, p: Point) -> bool {
    points.len() == 0 || far_apart(points.last(), p)
}

pub open spec fn dragged_draft(d: DraftView, p: Point) -> DraftView {
    DraftView {
        current: p,
        points: if d.tool == Tool::Brush && records_sample(d.points, p) {
            d.points.push(p)
        } else {
            d.points
        },
        ..d
    }
}

pub open spec fn spec_drag(e: EditorView, p: Point) -> EditorView {
    match e.draft {
        None => e,
        Some(d) => EditorView { draft: Some(dragged_draft(d, p)), ..e },
    }
}

/// The shape that releasing draft `d` at `p` commits, if any.
pub open spec fn committed_shape(e: EditorView, d: DraftView, p: Point) -> Option<ShapeView> {
    match d.tool {
        Tool::Brush => if d.points.len() < 2 {
            None
        } else {
            Some(
                ShapeView {
                    layer: e.active_layer,
                    kind: ShapeKindView::BrushStroke(d.points),
                    stroke: spec_palette_color(0),
                    fill: spec_transparent(),
                    stroke_width: e.stroke_width,
                },
            )
        },
        Tool::Rectangle => Some(
            ShapeView {
                layer: e.active_layer,
                kind: ShapeKindView::Rectangle { start: d.origin, end: p },
                stroke: spec_palette_color(0),
                fill: spec_palette_color(6),
                stroke_width: e.stroke_width,
            },
        ),
        Tool::Ellipse => Some(
            ShapeView {
                layer: e.active_layer,
                kind: ShapeKindView::Ellipse { start: d.origin, end: p },
                stroke: spec_palette_color(1),
                fill: spec_palette_color(7),
                stroke_width: e.stroke_width,
            },
        ),
        Tool::Select => None,
    }
}

pub open spec fn spec_release(e: EditorView, p: Point) -> EditorView {
    match e.draft {
        None => e,
        Some(d) => match committed_shape(e, d, p) {
            Some(s) => EditorView {
                draft: None,
                shapes: e.shapes.push(s),
                status: committed_status(d.tool),
                ..e
            },
            None => if d.tool == Tool::Brush {
                EditorView { draft: None, status: too_short_status(), ..e }
            } else {
                EditorView { draft: None, ..e }
            },
        },
    }
}

/// The state after message `m`, and the outside work it asks for.
/// `file_name` is the file name of the chosen path when `m` reports a
/// chosen file, as the platform's path rules find it.
pub open spec fn next_state(e: EditorView, m: MessageView, file_name: Option<Seq<char>>) -> (
    EditorView,
    Effect,
) {
    match m {
        MessageView::Noop => (e, Effect::Idle),
        MessageView::OpenFileRequested => (
            EditorView { status: choose_image_status(), ..e },
            Effect::PickImageFile,
        ),
        MessageView::OpenFileSelected(Some(path)) => (
            EditorView {
                loaded_image: Some(path),
                status: opened_status(spec_name_or(file_name, "image"@)),
                ..e
            },
            Effect::Idle,
        ),
        MessageView::OpenFileSelected(None) => (
            EditorView { status: cancelled_status(), ..e },
            Effect::Idle,
        ),
        MessageView::ToolSelected(t) => (
            EditorView { tool: t, status: tool_status(t), ..e },
            Effect::Idle,
        ),
        MessageView::StrokeWidthChanged(w) => (
            EditorView { stroke_width: w, status: width_status(w), ..e },
            Effect::Idle,
        ),
        MessageView::CanvasPressed(p) => (spec_press(e, p), Effect::Idle),
        MessageView::CanvasDragged(p) => (spec_drag(e, p), Effect::Idle),
        MessageView::CanvasReleased(p) => (spec_release(e, p), Effect::Idle),
    }
}

/// What holds on every platform of the file name that `update` finds for
/// message `m`: for a chosen path, what `file_name_facts` says; for any
/// other message, there is none.
pub open spec fn file_name_fits(m: MessageView, file_name: Option<Seq<char>>) -> bool {
    match m {
        MessageView::OpenFileSelected(Some(path)) => file_name_facts(path, file_name),
        _ => file_name is None,
    }
}

// ---------------------------------------------------------------------
// Well-formedness
// ---------------------------------------------------------------------

/// Samples `i` and `i + 1` lie more than 1.5 px apart.
pub open spec fn spaced_at(points: Seq<Point>, i: int) -> bool {
    far_apart(points[i], points[i + 1])
}

/// Every two consecutive samples lie more than 1.5 px apart.
pub open spec fn spaced(points: Seq<Point>) -> bool {
    forall|i: int| 0 <= i < points.len() - 1 ==> #[trigger] spaced_at(points, i)
}

/// A draft is never a selection; a brush draft starts at its origin and
/// its samples are spaced; other drafts record no samples.
pub open spec fn draft_wf(d: DraftView) -> bool {
    &&& d.tool != Tool::Select
    &&& d.tool == Tool::Brush ==> {
        &&& d.points.len() >= 1
        &&& d.points[0] == d.origin
        &&& spaced(d.points)
    }
    &&& d.tool != Tool::Brush ==> d.points.len() == 0
}

/// A shape lies on an existing layer, and a brush stroke has at least two
/// spaced samples.
pub open spec fn shape_wf(s: ShapeView, layer_count: nat) -> bool {
    &&& s.layer < layer_count
    &&& s.kind matches ShapeKindView::BrushStroke(points) ==> points.len() >= 2 && spaced(points)
}

impl EditorView {
    pub open spec fn wf(self) -> bool {
        &&& self.active_layer < self.layers.len()
        &&& forall|i: int| 0 <= i < self.shapes.len() ==> shape_wf(#[trigger] self.shapes[i], self.layers.len())
        &&& self.draft matches Some(d) ==> draft_wf(d)
    }
}

impl Editor {
    /// The state keeps its invariant.
    pub open spec fn wf(&self) -> bool {
        self@.wf()
    }
}

// ---------------------------------------------------------------------
// Executable code
// ---------------------------------------------------------------------

/// Dragging keeps a draft well formed: a brush only appends a sample far
/// enough from the last one.
pub proof fn lemma_dragged_draft_wf(d: DraftView, p: Point)
    requires
        draft_wf(d),
    ensures
        draft_wf(dragged_draft(d, p)),
{
    let d2 = dragged_draft(d, p);
    if d.tool == Tool::Brush && records_sample(d.points, p) {
        assert forall|i: int| 0 <= i < d2.points.len() - 1 implies #[trigger] spaced_at(
            d2.points,
            i,
        ) by {
            if i < d.points.len() - 1 {
                assert(spaced_at(d.points, i));
            }
        }
    }
}

proof fn lemma_push_shape(shapes: Seq<Shape>, s: Shape)
    ensures
        shapes_view(shapes.push(s)) == shapes_view(shapes).push(s@),
{
    assert(shapes_view(shapes.push(s)) =~= shapes_view(shapes).push(s@));
}

impl Default for Editor {
    /// The editor as it starts: the brush, 6 px strokes, two visible layers
    /// with the second active, nothing drawn and no image.
    fn default() -> (e: Self)
        ensures
            e@ == initial_editor(),
            e.wf(),
    {
        let mut layers: Vec<Layer> = Vec::new();
        layers.push(Layer { visible: true });
        layers.push(Layer { visible: true });
        let e = Editor {
            tool: Tool::Brush,
            stroke_width: 6,
            layers,
            active_layer: 1,
            shapes: Vec::new(),
            draft: None,
            loaded_image: None,
            status: String::from_str("File -> Open loads PNG, JPEG, JPG, and BMP images."),
        };
        assert(e@.layers =~= initial_editor().layers);
        assert(e@.shapes =~= initial_editor().shapes);
        e
    }
}

impl Editor {
    /// The selected tool.
    pub fn tool(&self) -> (t: Tool)
        ensures
            t == self@.tool,
    {
        self.tool
    }

    /// The width of new strokes, in whole pixels.
    pub fn stroke_width(&self) -> (w: u32)
        ensures
            w == self@.stroke_width,
    {
        self.stroke_width
    }

    /// The layers, bottom first.
    pub fn layers(&self) -> (l: &Vec<Layer>)
        ensures
            l@ == self@.layers,
    {
        &self.layers
    }

    /// The index of the layer that new shapes go to.
    pub fn active_layer(&self) -> (i: usize)
        ensures
            i == self@.active_layer,
    {
        self.active_layer
    }

    /// The committed shapes, oldest first.
    pub fn shapes(&self) -> (s: &Vec<Shape>)
        ensures
            shapes_view(s@) == self@.shapes,
    {
        &self.shapes
    }

    /// The shape being drawn, if any.
    pub fn draft(&self) -> (d: &Option<DraftShape>)
        ensures
            draft_view(*d) == self@.draft,
    {
        &self.draft
    }

    /// The path of the loaded image, if any.
    pub fn loaded_image(&self) -> (p: &Option<String>)
        ensures
            opt_view(*p) == self@.loaded_image,
    {
        &self.loaded_image
    }

    /// The status line.
    pub fn status(&self) -> (s: &String)
        ensures
            s@ == self@.status,
    {
        &self.status
    }

    fn set_status(&mut self, text: &str)
        ensures
            final(self)@ == (EditorView { status: text@, ..old(self)@ }),
    {
        self.status = String::from_str(text);
    }

    /// Reacts to a press on the artboard at `p`.
    pub fn press(&mut self, p: Point)
        ensures
            final(self)@ == spec_press(old(self)@, p),
            old(self).wf() ==> final(self).wf(),
    {
        if self.tool == Tool::Select {
            self.set_status("Select mode is not implemented yet.");
            return ;
        }
        let mut points: Vec<Point> = Vec::new();
        if self.tool == Tool::Brush {
            points.push(p);
        }
        assert(points@ =~= new_draft(self.tool, p).points);
        self.draft = Some(DraftShape { tool: self.tool, origin: p, current: p, points });
    }

    /// Reacts to the pointer moving to `p` while a draft is open.
    pub fn drag(&mut self, p: Point)
        ensures
            final(self)@ == spec_drag(old(self)@, p),
            old(self).wf() ==> final(self).wf(),
    {
        let taken = self.draft.take();
        match taken {
            None => {},
            Some(mut d) => {
                proof {
                    if old(self).wf() {
                        lemma_dragged_draft_wf(d@, p);
                    }
                }
                d.current = p;
                if d.tool == Tool::Brush {
                    let n = d.points.len();
                    let record = if n == 0 {
                        true
                    } else {
                        moved_far_enough(d.points[n - 1], p)
                    };
                    if record {
                        d.points.push(p);
                    }
                }
                self.draft = Some(d);
            },
        }
    }

    /// Reacts to the pointer being released at `p`: the open draft becomes
    /// a shape on the active layer, if it makes one.
    pub fn release(&mut self, p: Point)
        ensures
            final(self)@ == spec_release(old(self)@, p),
            old(self).wf() ==> final(self).wf(),
    {
        let taken = self.draft.take();
        match taken {
            None => {},
            Some(d) => {
                let tool = d.tool;
                let shape = match tool {
                    Tool::Brush => {
                        if d.points.len() < 2 {
                            self.set_status("Ignored a brush stroke that was too short.");
                            return ;
                        }
                        Shape {
                            layer: self.active_layer,
                            kind: ShapeKind::BrushStroke(d.points),
                            stroke: palette_color(0),
                            fill: Paint::transparent(),
                            stroke_width: self.stroke_width,
                        }
                    },
                    Tool::Rectangle => Shape {
                        layer: self.active_layer,
                        kind: ShapeKind::Rectangle { start: d.origin, end: p },
                        stroke: palette_color(0),
                        fill: palette_color(6),
                        stroke_width: self.stroke_width,
                    },
                    Tool::Ellipse => Shape {
                        layer: self.active_layer,
                        kind: ShapeKind::Ellipse { start: d.origin, end: p },
                        stroke: palette_color(1),
                        fill: palette_color(7),
                        stroke_width: self.stroke_width,
                    },
                    Tool::Select => {
                        return ;
                    },
                };
                let ghost before = self.shapes@;
                proof {
                    lemma_push_shape(before, shape);
                }
                self.shapes.push(shape);
                let mut status = String::from_str(tool.label());
                status.append(" committed.");
                self.status = status;
                proof {
                    let post = self@;
                    if old(self).wf() {
                        assert forall|i: int| 0 <= i < post.shapes.len() implies shape_wf(
                            #[trigger] post.shapes[i],
                            post.layers.len(),
                        ) by {
                            if i < before.len() {
                                assert(post.shapes[i] == old(self)@.shapes[i]);
                            }
                        }
                    }
                }
            },
        }
    }

    /// Applies message `m`, given the file name that the platform's path
    /// rules find in the chosen path when `m` reports a chosen file.
    pub fn apply(&mut self, m: Message, file_name: Option<String>) -> (effect: Effect)
        ensures
            (final(self)@, effect) == next_state(old(self)@, m@, opt_view(file_name)),
            old(self).wf() ==> final(self).wf(),
    {
        match m {
            Message::Noop => Effect::Idle,
            Message::OpenFileRequested => {
                self.set_status("Choose an image to open.");
                Effect::PickImageFile
            },
            Message::OpenFileSelected(Some(path)) => {
                let name = name_or(file_name, "image");
                let mut status = String::from_str("Opened ");
                status.append(name.as_str());
                status.append(".");
                self.loaded_image = Some(path);
                self.status = status;
                Effect::Idle
            },
            Message::OpenFileSelected(None) => {
                self.set_status("Open cancelled.");
                Effect::Idle
            },
            Message::ToolSelected(tool) => {
                self.tool = tool;
                match tool {
                    Tool::Select => self.set_status("Select mode is still a placeholder."),
                    Tool::Brush => self.set_status("Brush ready. Drag on the artboard to paint."),
                    Tool::Rectangle => self.set_status(
                        "Rectangle tool ready. Drag to place a shape.",
                    ),
                    Tool::Ellipse => self.set_status("Ellipse tool ready. Drag to place a shape."),
                }
                Effect::Idle
            },
            Message::StrokeWidthChanged(width) => {
                self.stroke_width = width;
                let mut status = String::from_str("Stroke width set to ");
                push_decimal(&mut status, width);
                status.append("px.");
                self.status = status;
                Effect::Idle
            },
            Message::CanvasPressed(p) => {
                self.press(p);
                Effect::Idle
            },
            Message::CanvasDragged(p) => {
                self.drag(p);
                Effect::Idle
            },
            Message::CanvasReleased(p) => {
                self.release(p);
                Effect::Idle
            },
        }
    }

    /// Applies message `m`. For a chosen file, the status names the file
    /// name that the platform's path rules find in the path.
    pub fn update(&mut self, m: Message) -> (effect: Effect)
        ensures
            exists|file_name: Option<Seq<char>>|
                file_name_fits(m@, file_name) && (final(self)@, effect) == next_state(
                    old(self)@,
                    m@,
                    file_name,
                ),
            old(self).wf() ==> final(self).wf(),
    {
        let file_name = match &m {
            Message::OpenFileSelected(Some(path)) => path_file_name(path.as_str()),
            _ => None,
        };
        let ghost name_view = opt_view(file_name);
        let effect = self.apply(m, file_name);
        assert(file_name_fits(m@, name_view));
        assert((self@, effect) == next_state(old(self)@, m@, name_view));
        effect
    }
}

/// The caption of the toolbar button for `tool`: the selected tool's name
/// is bracketed.
pub open spec fn spec_tool_button_label(e: EditorView, tool: Tool) -> Seq<char> {
    if e.tool == tool {
        "["@ + spec_label(tool) + "]"@
    } else {
        spec_label(tool)
    }
}

impl Editor {
    /// The caption of the toolbar button for `tool`: `[Brush]` when the
    /// brush is selected, `Brush` otherwise.
    pub fn tool_button_label(&self, tool: Tool) -> (s: String)
        ensures
            s@ == spec_tool_button_label(self@, tool),
    {
        if self.tool == tool {
            let mut s = String::from_str("[");
            s.append(tool.label());
            s.append("]");
            s
        } else {
            String::from_str(tool.label())
        }
    }
}

/// The window title.
pub fn title(editor: &Editor) -> (s: String)
    ensures
        s@ == "iomha"@,
{
    String::from_str("iomha")
}

} // verus!
