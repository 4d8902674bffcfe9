use vstd::prelude::*;
use crate::color::Color;

verus! {

/// A position on the canvas, in canvas-local pixels.
#[derive(Clone, Copy, Debug, PartialEq, Eq, Structural)]
pub struct Point {
    pub x: i32,
    pub y: i32,
}

/// A filled disc.
#[derive(Clone, Copy, Debug, PartialEq, Eq, Structural)]
pub struct Circle {
    pub x: i32,
    pub y: i32,
    pub r: u32,
    pub color: Color,
}

/// A filled axis-aligned box spanning two corners, given in any order.
#[derive(Clone, Copy, Debug, PartialEq, Eq, Structural)]
pub struct Rect {
    pub x1: i32,
    pub y1: i32,
    pub x2: i32,
    pub y2: i32,
    pub color: Color,
}

/// A committed drawing primitive. Shapes are values: never changed once made.
#[derive(Clone, Copy, Debug, PartialEq, Eq, Structural)]
pub enum Shape {
    Circle(Circle),
    Rect(Rect),
}

/// One primitive call on a raster target.
#[derive(Clone, Copy, Debug, PartialEq, Eq, Structural)]
pub enum DrawOp {
    /// Make the box transparent.
    ClearRect { x: i64, y: i64, w: i64, h: i64 },
    /// Fill the box from `(x, y)` by `w` and `h`; a negative extent reaches
    /// the other way from the origin.
    FillRect { x: i64, y: i64, w: i64, h: i64, color: Color },
    /// Fill the full circle of radius `r` around `(x, y)`.
    FillArc { x: i64, y: i64, r: u32, color: Color },
}

impl Circle {
    /// The disc as one full-circle fill.
    pub fn draw(&self) -> (op: DrawOp)
        ensures
            op == (DrawOp::FillArc { x: self.x as i64, y: self.y as i64, r: self.r, color: self.color }),
    {
        DrawOp::FillArc { x: self.x as i64, y: self.y as i64, r: self.r, color: self.color }
    }
}

impl Rect {
    /// The box as one fill from the first corner, with signed extents to the second.
    pub fn draw(&self) -> (op: DrawOp)
        ensures
            op == (DrawOp::FillRect {
                x: self.x1 as i64,
                y: self.y1 as i64,
                w: (self.x2 - self.x1) as i64,
                h: (self.y2 - self.y1) as i64,
                color: self.color,
            }),
    {
        DrawOp::FillRect {
            x: self.x1 as i64,
            y: self.y1 as i64,
            w: self.x2 as i64 - self.x1 as i64,
            h: self.y2 as i64 - self.y1 as i64,
            color: self.color,
        }
    }
}

impl Shape {
    /// The raster call that renders this shape.
    pub open spec fn render(self) -> DrawOp {
        match self {
            Shape::Circle(c) => DrawOp::FillArc { x: c.x as i64, y: c.y as i64, r: c.r, color: c.color },
            Shape::Rect(r) => DrawOp::FillRect {
                x: r.x1 as i64,
                y: r.y1 as i64,
                w: (r.x2 - r.x1) as i64,
                h: (r.y2 - r.y1) as i64,
                color: r.color,
            },
        }
    }

    pub fn draw(&self) -> (op: DrawOp)
        ensures
            op == self.render(),
    {
        match self {
            Shape::Circle(c) => c.draw(),
            Shape::Rect(r) => r.draw(),
        }
    }
}

} // verus!
