use scribblai::color::Color;
use scribblai::history::History;
use scribblai::shape::{Circle, Rect, Shape};

fn dot(x: i32) -> Shape {
    Shape::Circle(Circle { x, y: 0, r: 5, color: Color { r: 0, g: 0, b: 0, a: None } })
}

#[test]
fn undo_all_then_redo_all() {
    let shapes: Vec<Shape> = (1..=5).map(dot).collect();
    let mut h = History::new();
    for s in &shapes {
        h.push(*s);
    }
    assert_eq!(h.committed(), &shapes);
    let mut taken = Vec::new();
    for _ in 0..shapes.len() {
        taken.push(h.undo().unwrap());
    }
    assert!(h.committed().is_empty());
    assert_eq!(h.undo(), None);
    let mut back = Vec::new();
    for _ in 0..shapes.len() {
        back.push(h.redo().unwrap());
    }
    taken.reverse();
    assert_eq!(back, taken);
    assert_eq!(h.committed(), &shapes);
    assert_eq!(h.redo(), None);
}

#[test]
fn push_after_undo_drops_redo() {
    let mut h = History::new();
    h.push(dot(1));
    h.push(dot(2));
    assert_eq!(h.undo(), Some(dot(2)));
    h.push(dot(3));
    assert_eq!(h.redo(), None);
    assert_eq!(h.committed(), &vec![dot(1), dot(3)]);
}

#[test]
fn clear_empties_both_stacks() {
    let mut h = History::new();
    h.push(dot(1));
    h.push(dot(2));
    h.undo();
    h.clear();
    assert!(h.committed().is_empty());
    assert!(h.undone().is_empty());
    assert_eq!(h.undo(), None);
    assert_eq!(h.redo(), None);
    assert!(h.committed().is_empty());
}

#[test]
fn undo_and_redo_on_empty_do_nothing() {
    let mut h = History::new();
    assert_eq!(h.undo(), None);
    assert_eq!(h.redo(), None);
    assert!(h.committed().is_empty() && h.undone().is_empty());
}

#[test]
fn undo_moves_top_to_redo_stack() {
    let mut h = History::new();
    let r = Shape::Rect(Rect { x1: 0, y1: 0, x2: 3, y2: 4, color: Color { r: 1, g: 2, b: 3, a: None } });
    h.push(dot(1));
    h.push(r);
    assert_eq!(h.undo(), Some(r));
    assert_eq!(h.undone(), &vec![r]);
    assert_eq!(h.committed(), &vec![dot(1)]);
}
