use vstd::prelude::*;
use crate::color::Color;
use crate::history::{History, HistoryModel};
use crate::shape::{Circle, Point, Rect, Shape};

verus! {

/// Radius of one brush dab, in pixels.
pub const BRUSH_SIZE: u32 = 5;

/// The three pointer events of one gesture.
#[derive(Clone, Copy, Debug, PartialEq, Eq, Structural)]
pub enum Gesture {
    Start,
    Move,
    End,
}

/// What a tool asks of the preview surface.
#[derive(Clone, Copy, Debug, PartialEq, Eq, Structural)]
pub enum Preview {
    /// Leave it as it is.
    Unchanged,
    /// Clear it.
    Clear,
    /// Clear it and show this candidate rectangle.
    Show(Rect),
}

/// Paints a dab at every pointer sample of a gesture.
#[derive(Clone, Copy, Debug, PartialEq, Eq, Structural)]
pub struct BrushTool {
    pub size: u32,
    pub color: Color,
}

/// Drags out a rectangle from the point where the gesture started.
#[derive(Clone, Copy, Debug, PartialEq, Eq, Structural)]
pub struct RectTool {
    /// Where the gesture in progress started; `None` between gestures.
    pub anchor: Option<Point>,
    pub color: Color,
    /// Colour of the candidate rectangle on the preview surface.
    pub tooltip_color: Color,
}

/// The active drawing tool.
#[derive(Clone, Copy, Debug, PartialEq, Eq, Structural)]
pub enum Tool {
    Brush(BrushTool),
    Rect(RectTool),
}

impl BrushTool {
    pub open spec fn dab(self, p: Point) -> Shape {
        Shape::Circle(Circle { x: p.x, y: p.y, r: self.size, color: self.color })
    }

    /// The tool after the event, the shape it commits, and its preview request:
    /// a dab on start and on every move, nothing on end.
    pub open spec fn react(self, g: Gesture, p: Point) -> (BrushTool, Option<Shape>, Preview) {
        match g {
            Gesture::End => (self, None, Preview::Unchanged),
            _ => (self, Some(self.dab(p)), Preview::Unchanged),
        }
    }

    pub fn draw(&mut self, p: Point, history: &mut History) -> (r: Preview)
        ensures
            *final(self) == old(self).react(Gesture::Move, p).0,
            final(history)@ == old(history)@.commit(old(self).react(Gesture::Move, p).1),
            r == old(self).react(Gesture::Move, p).2,
    {
        history.push(Shape::Circle(Circle { x: p.x, y: p.y, r: self.size, color: self.color }));
        Preview::Unchanged
    }

    pub fn start_draw(&mut self, p: Point, history: &mut History) -> (r: Preview)
        ensures
            *final(self) == old(self).react(Gesture::Start, p).0,
            final(history)@ == old(history)@.commit(old(self).react(Gesture::Start, p).1),
            r == old(self).react(Gesture::Start, p).2,
    {
        self.draw(p, history)
    }

    pub fn end_draw(&mut self, p: Point, history: &mut History) -> (r: Preview)
        ensures
            *final(self) == old(self).react(Gesture::End, p).0,
            final(history)@ == old(history)@.commit(old(self).react(Gesture::End, p).1),
            r == old(self).react(Gesture::End, p).2,
    {
        Preview::Unchanged
    }

    pub fn change_primary_color(&mut self, color: Color)
        ensures
            *final(self) == (BrushTool { color, ..*old(self) }),
    {
        self.color = color;
    }

    /// No brush setting uses a secondary colour.
    pub fn change_secondary_color(&mut self, color: Color)
        ensures
            *final(self) == *old(self),
    {
    }
}

impl RectTool {
    /// The tool after the event, the shape it commits, and its preview request.
    /// Start records the anchor. Move shows the rectangle from the anchor to the
    /// pointer on the preview surface. End clears the preview and commits that
    /// rectangle. Without an anchor there is nothing to show or commit.
    pub open spec fn react(self, g: Gesture, p: Point) -> (RectTool, Option<Shape>, Preview) {
        match g {
            Gesture::Start => (RectTool { anchor: Some(p), ..self }, None, Preview::Unchanged),
            Gesture::Move => match self.anchor {
                Some(a) => (self, None, Preview::Show(Rect { x1: a.x, y1: a.y, x2: p.x, y2: p.y, color: self.tooltip_color })),
                None => (self, None, Preview::Unchanged),
            },
            Gesture::End => match self.anchor {
                Some(a) => (
                    RectTool { anchor: None, ..self },
                    Some(Shape::Rect(Rect { x1: a.x, y1: a.y, x2: p.x, y2: p.y, color: self.color })),
                    Preview::Clear,
                ),
                None => (self, None, Preview::Clear),
            },
        }
    }

    pub fn draw(&mut self, p: Point, history: &mut History) -> (r: Preview)
        ensures
            *final(self) == old(self).react(Gesture::Move, p).0,
            final(history)@ == old(history)@.commit(old(self).react(Gesture::Move, p).1),
            r == old(self).react(Gesture::Move, p).2,
    {
        match self.anchor {
            Some(a) => Preview::Show(Rect { x1: a.x, y1: a.y, x2: p.x, y2: p.y, color: self.tooltip_color }),
            None => Preview::Unchanged,
        }
    }

    pub fn start_draw(&mut self, p: Point, history: &mut History) -> (r: Preview)
        ensures
            *final(self) == old(self).react(Gesture::Start, p).0,
            final(history)@ == old(history)@.commit(old(self).react(Gesture::Start, p).1),
            r == old(self).react(Gesture::Start, p).2,
    {
        self.anchor = Some(p);
        Preview::Unchanged
    }

    pub fn end_draw(&mut self, p: Point, history: &mut History) -> (r: Preview)
        ensures
            *final(self) == old(self).react(Gesture::End, p).0,
            final(history)@ == old(history)@.commit(old(self).react(Gesture::End, p).1),
            r == old(self).react(Gesture::End, p).2,
    {
        match self.anchor {
            Some(a) => {
                history.push(Shape::Rect(Rect { x1: a.x, y1: a.y, x2: p.x, y2: p.y, color: self.color }));
                self.anchor = None;
            },
            None => {},
        }
        Preview::Clear
    }

    pub fn change_primary_color(&mut self, color: Color)
        ensures
            *final(self) == (RectTool { color, ..*old(self) }),
    {
        self.color = color;
    }

    /// No rectangle setting uses a secondary colour.
    pub fn change_secondary_color(&mut self, color: Color)
        ensures
            *final(self) == *old(self),
    {
    }
}

impl Tool {
    /// The tool after the event, the shape it commits, and its preview request.
    pub open spec fn react(self, g: Gesture, p: Point) -> (Tool, Option<Shape>, Preview) {
        match self {
            Tool::Brush(b) => {
                let (b2, s, v) = b.react(g, p);
                (Tool::Brush(b2), s, v)
            },
            Tool::Rect(t) => {
                let (t2, s, v) = t.react(g, p);
                (Tool::Rect(t2), s, v)
            },
        }
    }

    /// The same kind of tool with no gesture in progress and the given colour.
    pub open spec fn fresh(self, color: Color) -> Tool {
        match self {
            Tool::Brush(b) => Tool::Brush(BrushTool { color, ..b }),
            Tool::Rect(t) => Tool::Rect(RectTool { anchor: None, color, ..t }),
        }
    }

    /// The tool with a new primary colour, gesture state kept.
    pub open spec fn recolored(self, color: Color) -> Tool {
        match self {
            Tool::Brush(b) => Tool::Brush(BrushTool { color, ..b }),
            Tool::Rect(t) => Tool::Rect(RectTool { color, ..t }),
        }
    }

    /// A brush of the standard dab size.
    pub fn brush(color: Color) -> (t: Tool)
        ensures
            t == Tool::Brush(BrushTool { size: BRUSH_SIZE, color }),
    {
        Tool::Brush(BrushTool { size: BRUSH_SIZE, color })
    }

    /// A rectangle tool between gestures.
    pub fn rect(color: Color, tooltip_color: Color) -> (t: Tool)
        ensures
            t == Tool::Rect(RectTool { anchor: None, color, tooltip_color }),
    {
        Tool::Rect(RectTool { anchor: None, color, tooltip_color })
    }

    /// Drops any gesture in progress and takes the given colour.
    pub fn reset(&mut self, color: Color)
        ensures
            *final(self) == old(self).fresh(color),
    {
        match self {
            Tool::Brush(b) => b.color = color,
            Tool::Rect(t) => {
                t.anchor = None;
                t.color = color;
            },
        }
    }

    pub fn start_draw(&mut self, p: Point, history: &mut History) -> (r: Preview)
        ensures
            *final(self) == old(self).react(Gesture::Start, p).0,
            final(history)@ == old(history)@.commit(old(self).react(Gesture::Start, p).1),
            r == old(self).react(Gesture::Start, p).2,
    {
        match self {
            Tool::Brush(b) => b.start_draw(p, history),
            Tool::Rect(t) => t.start_draw(p, history),
        }
    }

    pub fn draw(&mut self, p: Point, history: &mut History) -> (r: Preview)
        ensures
            *final(self) == old(self).react(Gesture::Move, p).0,
            final(history)@ == old(history)@.commit(old(self).react(Gesture::Move, p).1),
            r == old(self).react(Gesture::Move, p).2,
    {
        match self {
            Tool::Brush(b) => b.draw(p, history),
            Tool::Rect(t) => t.draw(p, history),
        }
    }

    pub fn end_draw(&mut self, p: Point, history: &mut History) -> (r: Preview)
        ensures
            *final(self) == old(self).react(Gesture::End, p).0,
            final(history)@ == old(history)@.commit(old(self).react(Gesture::End, p).1),
            r == old(self).react(Gesture::End, p).2,
    {
        match self {
            Tool::Brush(b) => b.end_draw(p, history),
            Tool::Rect(t) => t.end_draw(p, history),
        }
    }

    /// Sets the colour of the shapes the tool commits from now on.
    pub fn change_primary_color(&mut self, color: Color)
        ensures
            *final(self) == old(self).recolored(color),
    {
        match self {
            Tool::Brush(b) => b.change_primary_color(color),
            Tool::Rect(t) => t.change_primary_color(color),
        }
    }

    /// Neither tool uses a secondary colour.
    pub fn change_secondary_color(&mut self, color: Color)
        ensures
            *final(self) == *old(self),
    {
        match self {
            Tool::Brush(b) => b.change_secondary_color(color),
            Tool::Rect(t) => t.change_secondary_color(color),
        }
    }
}

} // verus!
