use scribblai::color::Color;
use scribblai::paint::{CanvasState, Msg, Outcome, CANVAS_SIZE};
use scribblai::shape::{Circle, DrawOp, Point, Rect, Shape};
use scribblai::tool::{BrushTool, Preview, RectTool, Tool, BRUSH_SIZE};

const BLUE: Color = Color { r: 0, g: 0, b: 255, a: None };
const WHITE: Color = Color { r: 255, g: 255, b: 255, a: None };

fn at(x: i32, y: i32) -> Point {
    Point { x, y }
}

fn committed(s: &CanvasState) -> Vec<Shape> {
    s.history.committed().clone()
}

#[test]
fn new_canvas_defaults() {
    let s = CanvasState::new();
    assert_eq!(s.width, 500);
    assert_eq!(s.height, CANVAS_SIZE);
    assert!(!s.mouse_pressed);
    assert_eq!(s.primary_color, BLUE);
    assert_eq!(s.secondary_color, WHITE);
    assert_eq!(s.tooltip_color, Color { r: 200, g: 0, b: 255, a: Some(128) });
    assert_eq!(s.current_tool, Tool::Brush(BrushTool { size: BRUSH_SIZE, color: BLUE }));
    assert!(committed(&s).is_empty());
}

#[test]
fn brush_gesture_commits_two_dabs() {
    let mut s = CanvasState::new();
    s.update(Msg::MouseDown(at(10, 10)));
    s.update(Msg::MouseMove(at(20, 10)));
    s.update(Msg::MouseUp(at(20, 10)));
    let dab = |x, y| Shape::Circle(Circle { x, y, r: BRUSH_SIZE, color: BLUE });
    assert_eq!(committed(&s), vec![dab(10, 10), dab(20, 10)]);
    assert!(!s.mouse_pressed);
}

#[test]
fn brush_dabs_use_new_primary_color() {
    let mut s = CanvasState::new();
    s.update(Msg::ChangeColor("#ff0000".to_string()));
    s.update(Msg::MouseDown(at(1, 2)));
    let red = Color { r: 255, g: 0, b: 0, a: None };
    assert_eq!(committed(&s), vec![Shape::Circle(Circle { x: 1, y: 2, r: BRUSH_SIZE, color: red })]);
}

#[test]
fn rect_gesture_previews_then_commits_once() {
    let mut s = CanvasState::new();
    s.update(Msg::SelectRectTool);
    let down = s.update(Msg::MouseDown(at(5, 5)));
    assert_eq!(down.preview, Preview::Unchanged);
    let moved = s.update(Msg::MouseMove(at(50, 50)));
    let tip = Color { r: 200, g: 0, b: 255, a: Some(128) };
    assert_eq!(moved.preview, Preview::Show(Rect { x1: 5, y1: 5, x2: 50, y2: 50, color: tip }));
    assert!(committed(&s).is_empty());
    let up = s.update(Msg::MouseUp(at(50, 50)));
    assert_eq!(up.preview, Preview::Clear);
    assert_eq!(committed(&s), vec![Shape::Rect(Rect { x1: 5, y1: 5, x2: 50, y2: 50, color: BLUE })]);
}

#[test]
fn switching_tool_mid_gesture_commits_nothing() {
    for switch in 0..3 {
        let mut s = CanvasState::new();
        s.update(Msg::SelectRectTool);
        s.update(Msg::MouseDown(at(5, 5)));
        s.update(Msg::MouseMove(at(30, 30)));
        let msg = match switch {
            0 => Msg::SelectBrushTool,
            1 => Msg::SelectRectTool,
            _ => Msg::ChangeTool(Tool::Rect(RectTool { anchor: Some(at(1, 1)), color: WHITE, tooltip_color: WHITE })),
        };
        s.update(msg);
        s.update(Msg::MouseMove(at(40, 40)));
        s.update(Msg::MouseUp(at(50, 50)));
        assert!(committed(&s).is_empty());
        assert!(!s.mouse_pressed);
    }
}

#[test]
fn change_tool_takes_primary_color_and_drops_anchor() {
    let mut s = CanvasState::new();
    let other = Color { r: 9, g: 9, b: 9, a: None };
    s.update(Msg::ChangeTool(Tool::Rect(RectTool { anchor: Some(at(3, 3)), color: other, tooltip_color: other })));
    assert_eq!(s.current_tool, Tool::Rect(RectTool { anchor: None, color: BLUE, tooltip_color: other }));
}

#[test]
fn move_without_press_is_ignored() {
    let mut s = CanvasState::new();
    let out = s.update(Msg::MouseMove(at(3, 3)));
    assert_eq!(out, Outcome { repaint: false, preview: Preview::Unchanged, save: false });
    assert!(committed(&s).is_empty());
}

#[test]
fn pointer_up_without_press_commits_nothing() {
    let mut s = CanvasState::new();
    s.update(Msg::SelectRectTool);
    s.update(Msg::MouseUp(at(3, 3)));
    assert!(committed(&s).is_empty());
}

#[test]
fn invalid_color_is_ignored() {
    let mut s = CanvasState::new();
    s.update(Msg::ChangeColor("#GGGGGG".to_string()));
    s.update(Msg::ChangeColor("#1234".to_string()));
    assert_eq!(s.primary_color, BLUE);
    assert_eq!(s.current_tool, Tool::Brush(BrushTool { size: BRUSH_SIZE, color: BLUE }));
}

#[test]
fn undo_redo_and_clear_through_canvas() {
    let mut s = CanvasState::new();
    s.update(Msg::MouseDown(at(1, 1)));
    s.update(Msg::MouseUp(at(1, 1)));
    s.update(Msg::MouseDown(at(2, 2)));
    s.update(Msg::MouseUp(at(2, 2)));
    s.update(Msg::Undo);
    assert_eq!(committed(&s).len(), 1);
    s.update(Msg::Redo);
    assert_eq!(committed(&s).len(), 2);
    s.update(Msg::Undo);
    s.update(Msg::ClearCanvas);
    assert!(committed(&s).is_empty());
    assert!(s.history.undone().is_empty());
    s.update(Msg::Undo);
    s.update(Msg::Redo);
    assert!(committed(&s).is_empty());
}

#[test]
fn save_asks_for_export_only() {
    let mut s = CanvasState::new();
    s.update(Msg::MouseDown(at(1, 1)));
    let before = committed(&s);
    let out = s.update(Msg::SaveImage);
    assert!(out.save && out.repaint);
    assert_eq!(committed(&s), before);
}

#[test]
fn frame_paints_white_then_shapes_in_order() {
    let mut s = CanvasState::new();
    s.update(Msg::MouseDown(at(10, 20)));
    s.update(Msg::MouseUp(at(10, 20)));
    s.update(Msg::SelectRectTool);
    s.update(Msg::MouseDown(at(50, 60)));
    s.update(Msg::MouseUp(at(40, 30)));
    assert_eq!(
        s.frame(),
        vec![
            DrawOp::FillRect { x: 0, y: 0, w: 500, h: 500, color: WHITE },
            DrawOp::FillArc { x: 10, y: 20, r: 5, color: BLUE },
            DrawOp::FillRect { x: 50, y: 60, w: -10, h: -30, color: BLUE },
        ]
    );
}

#[test]
fn preview_ops_for_each_request() {
    let s = CanvasState::new();
    let clear = DrawOp::ClearRect { x: 0, y: 0, w: 500, h: 500 };
    assert!(s.preview_ops(Preview::Unchanged).is_empty());
    assert_eq!(s.preview_ops(Preview::Clear), vec![clear]);
    let r = Rect { x1: 1, y1: 2, x2: 4, y2: 8, color: WHITE };
    assert_eq!(
        s.preview_ops(Preview::Show(r)),
        vec![clear, DrawOp::FillRect { x: 1, y: 2, w: 3, h: 6, color: WHITE }]
    );
}

#[test]
fn rect_draw_keeps_signed_extents() {
    let r = Rect { x1: i32::MAX, y1: i32::MIN, x2: i32::MIN, y2: i32::MAX, color: WHITE };
    assert_eq!(
        r.draw(),
        DrawOp::FillRect {
            x: i32::MAX as i64,
            y: i32::MIN as i64,
            w: i32::MIN as i64 - i32::MAX as i64,
            h: i32::MAX as i64 - i32::MIN as i64,
            color: WHITE,
        }
    );
    let c = Circle { x: -3, y: 4, r: 7, color: BLUE };
    assert_eq!(c.draw(), DrawOp::FillArc { x: -3, y: 4, r: 7, color: BLUE });
    assert_eq!(Shape::Circle(c).draw(), c.draw());
}
