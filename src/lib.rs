//! A paint surface's core: colours, shapes, drawing tools that turn pointer
//! gestures into committed shapes and a preview, an undo/redo history, and the
//! controller that sequences events and says what to paint.

pub mod color;
pub mod counter;
pub mod history;
pub mod paint;
pub mod shape;
pub mod tool;
