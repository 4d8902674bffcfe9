use vstd::prelude::*;
use crate::color::{parse_hex, Color};
use crate::history::{History, HistoryModel};
use crate::shape::{DrawOp, Point, Shape};
use crate::tool::{BrushTool, Gesture, Preview, RectTool, Tool, BRUSH_SIZE};

verus! {

/// Width and height of both surfaces, in pixels.
pub const CANVAS_SIZE: u32 = 500;

/// An input event for the canvas.
#[derive(Debug)]
pub enum Msg {
    MouseDown(Point),
    MouseUp(Point),
    MouseMove(Point),
    /// Make this the active tool.
    ChangeTool(Tool),
    SaveImage,
    ClearCanvas,
    /// The colour input's new value, as `#RRGGBB` text.
    ChangeColor(String),
    SelectRectTool,
    SelectBrushTool,
    Undo,
    Redo,
}

/// What the surfaces need after an event.
#[derive(Clone, Copy, Debug, PartialEq, Eq, Structural)]
pub struct Outcome {
    /// Repaint the main surface from the committed shapes.
    pub repaint: bool,
    /// What the preview surface needs.
    pub preview: Preview,
    /// Export the main surface's image.
    pub save: bool,
}

/// The drawing state behind the two surfaces.
pub struct CanvasState {
    pub current_tool: Tool,
    /// Whether a gesture is in progress.
    pub mouse_pressed: bool,
    pub primary_color: Color,
    pub secondary_color: Color,
    /// Colour of the candidate shape on the preview surface.
    pub tooltip_color: Color,
    pub history: History,
    pub width: u32,
    pub height: u32,
}

pub ghost struct CanvasModel {
    pub tool: Tool,
    pub pressed: bool,
    pub primary: Color,
    pub secondary: Color,
    pub tooltip: Color,
    pub history: HistoryModel,
    pub width: u32,
    pub height: u32,
}

impl View for CanvasState {
    type V = CanvasModel;

    open spec fn view(&self) -> CanvasModel {
        CanvasModel {
            tool: self.current_tool,
            pressed: self.mouse_pressed,
            primary: self.primary_color,
            secondary: self.secondary_color,
            tooltip: self.tooltip_color,
            history: self.history@,
            width: self.width,
            height: self.height,
        }
    }
}

pub open spec fn shown(preview: Preview) -> Outcome {
    Outcome { repaint: true, preview, save: false }
}

/// A pointer event handed to the active tool.
pub open spec fn gesture_step(m: CanvasModel, g: Gesture, p: Point, pressed: bool) -> (CanvasModel, Outcome) {
    let (tool, shape, preview) = m.tool.react(g, p);
    (CanvasModel { tool, pressed, history: m.history.commit(shape), ..m }, shown(preview))
}

/// The state after a tool switch: no gesture in progress.
pub open spec fn switched(m: CanvasModel, tool: Tool) -> (CanvasModel, Outcome) {
    (CanvasModel { tool, pressed: false, ..m }, shown(Preview::Unchanged))
}

/// The state and the surface requests after one event.
///
/// A pointer-down starts a gesture and a pointer-up ends it; a move is handed
/// to the tool only during a gesture, and a pointer-up outside one does
/// nothing. A tool switch abandons the gesture and gives the new tool the
/// primary colour. A colour that does not parse is ignored.
pub open spec fn step(m: CanvasModel, msg: Msg) -> (CanvasModel, Outcome) {
    match msg {
        Msg::MouseDown(p) => gesture_step(m, Gesture::Start, p, true),
        Msg::MouseMove(p) => if m.pressed {
            gesture_step(m, Gesture::Move, p, true)
        } else {
            (m, Outcome { repaint: false, preview: Preview::Unchanged, save: false })
        },
        Msg::MouseUp(p) => if m.pressed {
            gesture_step(m, Gesture::End, p, false)
        } else {
            (m, shown(Preview::Unchanged))
        },
        Msg::ChangeTool(t) => switched(m, t.fresh(m.primary)),
        Msg::SelectRectTool => switched(
            m,
            Tool::Rect(RectTool { anchor: None, color: m.primary, tooltip_color: m.tooltip }),
        ),
        Msg::SelectBrushTool => switched(m, Tool::Brush(BrushTool { size: BRUSH_SIZE, color: m.primary })),
        Msg::ChangeColor(s) => match parse_hex(s@) {
            Ok(c) => (CanvasModel { primary: c, tool: m.tool.recolored(c), ..m }, shown(Preview::Unchanged)),
            Err(_) => (m, shown(Preview::Unchanged)),
        },
        Msg::Undo => (CanvasModel { history: m.history.undo().0, ..m }, shown(Preview::Unchanged)),
        Msg::Redo => (CanvasModel { history: m.history.redo().0, ..m }, shown(Preview::Unchanged)),
        Msg::ClearCanvas => (CanvasModel { history: HistoryModel::empty(), ..m }, shown(Preview::Unchanged)),
        Msg::SaveImage => (m, Outcome { repaint: true, preview: Preview::Unchanged, save: true }),
    }
}

pub open spec fn white() -> Color {
    Color { r: 255, g: 255, b: 255, a: None }
}

/// The main surface's paint calls: opaque white over the whole surface, then
/// every committed shape, oldest first.
pub open spec fn frame_ops(m: CanvasModel) -> Seq<DrawOp> {
    seq![DrawOp::FillRect { x: 0, y: 0, w: m.width as i64, h: m.height as i64, color: white() }]
        + m.history.committed.map_values(|s: Shape| s.render())
}

/// The preview surface's paint calls for a tool's request.
pub open spec fn preview_ops(m: CanvasModel, v: Preview) -> Seq<DrawOp> {
    let clear = DrawOp::ClearRect { x: 0, y: 0, w: m.width as i64, h: m.height as i64 };
    match v {
        Preview::Unchanged => seq![],
        Preview::Clear => seq![clear],
        Preview::Show(r) => seq![clear, Shape::Rect(r).render()],
    }
}

/// The colour the tool commits shapes in.
pub open spec fn tool_color(t: Tool) -> Color {
    match t {
        Tool::Brush(b) => b.color,
        Tool::Rect(r) => r.color,
    }
}

/// No gesture state is held.
pub open spec fn tool_idle(t: Tool) -> bool {
    match t {
        Tool::Brush(_) => true,
        Tool::Rect(r) => r.anchor is None,
    }
}

/// The tool draws in the primary colour, and holds no gesture state between gestures.
pub open spec fn canvas_wf(m: CanvasModel) -> bool {
    &&& tool_color(m.tool) == m.primary
    &&& (!m.pressed ==> tool_idle(m.tool))
}

/// Every event keeps the canvas well formed.
pub proof fn lemma_step_keeps_wf(m: CanvasModel, msg: Msg)
    requires
        canvas_wf(m),
    ensures
        canvas_wf(step(m, msg).0),
{
}

/// A brush gesture of pointer-down at `p`, a move to `q` and pointer-up at `r`
/// commits exactly two dabs, at `p` and at `q`, in the primary colour.
pub proof fn lemma_brush_gesture(m: CanvasModel, p: Point, q: Point, r: Point)
    requires
        canvas_wf(m),
        m.tool is Brush,
    ensures
        ({
            let s1 = step(m, Msg::MouseDown(p)).0;
            let s2 = step(s1, Msg::MouseMove(q)).0;
            let s3 = step(s2, Msg::MouseUp(r)).0;
            let size = m.tool->Brush_0.size;
            &&& s3.history.committed == m.history.committed + seq![
                Shape::Circle(crate::shape::Circle { x: p.x, y: p.y, r: size, color: m.primary }),
                Shape::Circle(crate::shape::Circle { x: q.x, y: q.y, r: size, color: m.primary }),
            ]
            &&& !s3.pressed
        }),
{
    let s1 = step(m, Msg::MouseDown(p)).0;
    let s2 = step(s1, Msg::MouseMove(q)).0;
    let s3 = step(s2, Msg::MouseUp(r)).0;
    assert(s3.history.committed =~= m.history.committed + seq![
        Shape::Circle(crate::shape::Circle { x: p.x, y: p.y, r: m.tool->Brush_0.size, color: m.primary }),
        Shape::Circle(crate::shape::Circle { x: q.x, y: q.y, r: m.tool->Brush_0.size, color: m.primary }),
    ]);
}

/// A rectangle gesture from `p` with a move to `q`: the move commits nothing
/// and shows the rectangle from `p` to `q` on the preview surface; pointer-up
/// at `q` clears the preview and commits exactly that rectangle, in the
/// primary colour.
pub proof fn lemma_rect_gesture(m: CanvasModel, p: Point, q: Point)
    requires
        canvas_wf(m),
        m.tool is Rect,
    ensures
        ({
            let s1 = step(m, Msg::MouseDown(p)).0;
            let (s2, o2) = step(s1, Msg::MouseMove(q));
            let (s3, o3) = step(s2, Msg::MouseUp(q));
            let rect = crate::shape::Rect { x1: p.x, y1: p.y, x2: q.x, y2: q.y, color: m.primary };
            &&& s2.history.committed == m.history.committed
            &&& o2.preview == Preview::Show(
                crate::shape::Rect { color: m.tool->Rect_0.tooltip_color, ..rect },
            )
            &&& s3.history.committed == m.history.committed.push(Shape::Rect(rect))
            &&& o3.preview == Preview::Clear
            &&& !s3.pressed
        }),
{
}

/// Clearing empties both stacks, and an undo right after it changes nothing.
pub proof fn lemma_clear_then_undo(m: CanvasModel)
    ensures
        step(m, Msg::ClearCanvas).0.history == HistoryModel::empty(),
        step(step(m, Msg::ClearCanvas).0, Msg::Undo).0 == step(m, Msg::ClearCanvas).0,
{
}

/// A tool switch between pointer-down and pointer-up of a rectangle gesture
/// abandons it: nothing is committed.
pub proof fn lemma_switch_abandons_gesture(m: CanvasModel, p: Point, switch: Msg, q: Point)
    requires
        m.tool is Rect,
        switch is SelectRectTool || switch is SelectBrushTool || switch is ChangeTool,
    ensures
        step(step(step(m, Msg::MouseDown(p)).0, switch).0, Msg::MouseUp(q)).0.history == m.history,
{
}

impl CanvasState {
    /// A blank 500 by 500 canvas with a blue brush.
    pub fn new() -> (s: CanvasState)
        ensures
            s@ == (CanvasModel {
                tool: Tool::Brush(BrushTool { size: BRUSH_SIZE, color: Color { r: 0, g: 0, b: 255, a: None } }),
                pressed: false,
                primary: Color { r: 0, g: 0, b: 255, a: None },
                secondary: white(),
                tooltip: Color { r: 200, g: 0, b: 255, a: Some(128) },
                history: HistoryModel::empty(),
                width: CANVAS_SIZE,
                height: CANVAS_SIZE,
            }),
            canvas_wf(s@),
    {
        let blue = Color { r: 0, g: 0, b: 255, a: None };
        CanvasState {
            current_tool: Tool::brush(blue),
            mouse_pressed: false,
            primary_color: blue,
            secondary_color: Color { r: 255, g: 255, b: 255, a: None },
            tooltip_color: Color { r: 200, g: 0, b: 255, a: Some(128) },
            history: History::new(),
            width: CANVAS_SIZE,
            height: CANVAS_SIZE,
        }
    }

    fn gesture(&mut self, g: Gesture, p: Point, pressed: bool) -> (out: Outcome)
        ensures
            (final(self)@, out) == gesture_step(old(self)@, g, p, pressed),
    {
        self.mouse_pressed = pressed;
        let preview = match g {
            Gesture::Start => self.current_tool.start_draw(p, &mut self.history),
            Gesture::Move => self.current_tool.draw(p, &mut self.history),
            Gesture::End => self.current_tool.end_draw(p, &mut self.history),
        };
        Outcome { repaint: true, preview, save: false }
    }

    fn switch_to(&mut self, tool: Tool) -> (out: Outcome)
        ensures
            (final(self)@, out) == switched(old(self)@, tool),
    {
        self.current_tool = tool;
        self.mouse_pressed = false;
        Outcome { repaint: true, preview: Preview::Unchanged, save: false }
    }

    /// Applies one event; says what the surfaces need.
    pub fn update(&mut self, msg: Msg) -> (out: Outcome)
        ensures
            (final(self)@, out) == step(old(self)@, msg),
    {
        let unchanged = Outcome { repaint: true, preview: Preview::Unchanged, save: false };
        match msg {
            Msg::MouseDown(p) => self.gesture(Gesture::Start, p, true),
            Msg::MouseMove(p) => {
                if self.mouse_pressed {
                    self.gesture(Gesture::Move, p, true)
                } else {
                    Outcome { repaint: false, preview: Preview::Unchanged, save: false }
                }
            },
            Msg::MouseUp(p) => {
                if self.mouse_pressed {
                    self.gesture(Gesture::End, p, false)
                } else {
                    unchanged
                }
            },
            Msg::ChangeTool(t) => {
                let mut t = t;
                t.reset(self.primary_color);
                self.switch_to(t)
            },
            Msg::SelectRectTool => self.switch_to(Tool::rect(self.primary_color, self.tooltip_color)),
            Msg::SelectBrushTool => self.switch_to(Tool::brush(self.primary_color)),
            Msg::ChangeColor(s) => {
                match Color::from_hex_str(s.as_str()) {
                    Ok(c) => {
                        self.primary_color = c;
                        self.current_tool.change_primary_color(c);
                    },
                    Err(_) => {},
                }
                unchanged
            },
            Msg::Undo => {
                self.history.undo();
                unchanged
            },
            Msg::Redo => {
                self.history.redo();
                unchanged
            },
            Msg::ClearCanvas => {
                self.history.clear();
                unchanged
            },
            Msg::SaveImage => Outcome { repaint: true, preview: Preview::Unchanged, save: true },
        }
    }

    /// The paint calls that redraw the main surface.
    pub fn frame(&self) -> (ops: Vec<DrawOp>)
        ensures
            ops@ == frame_ops(self@),
    {
        let mut ops: Vec<DrawOp> = Vec::new();
        ops.push(
            DrawOp::FillRect {
                x: 0,
                y: 0,
                w: self.width as i64,
                h: self.height as i64,
                color: Color { r: 255, g: 255, b: 255, a: None },
            },
        );
        let shapes = self.history.committed();
        let mut i: usize = 0;
        while i < shapes.len()
            invariant
                i <= shapes@.len(),
                shapes@ == self@.history.committed,
                ops@ == frame_ops(self@).take(i + 1),
            decreases shapes@.len() - i,
        {
            ops.push(shapes[i].draw());
            assert(frame_ops(self@).take(i + 2) =~= frame_ops(self@).take(i + 1).push(shapes@[i as int].render()));
            i = i + 1;
        }
        assert(frame_ops(self@).take(i + 1) =~= frame_ops(self@));
        ops
    }

    /// The paint calls that carry out a tool's preview request.
    pub fn preview_ops(&self, v: Preview) -> (ops: Vec<DrawOp>)
        ensures
            ops@ == preview_ops(self@, v),
    {
        let clear = DrawOp::ClearRect { x: 0, y: 0, w: self.width as i64, h: self.height as i64 };
        let ops = match v {
            Preview::Unchanged => Vec::new(),
            Preview::Clear => vec![clear],
            Preview::Show(r) => vec![clear, r.draw()],
        };
        assert(ops@ =~= preview_ops(self@, v));
        ops
    }
}

} // verus!
