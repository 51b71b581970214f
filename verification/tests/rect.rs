use walk_the_dog::{Point, Rect};

#[test]
fn two_rects_that_intersect_on_the_left() {
    let rect = Rect {
        position: Point { x: 10, y: 10 },
        width: 100,
        height: 100,
    };

    let other = Rect {
        position: Point { x: 0, y: 10 },
        width: 100,
        height: 100,
    };

    assert!(rect.intersects(&other));
    assert!(other.intersects(&rect));
}

#[test]
fn two_rects_that_do_not_intersect() {
    let rect = Rect {
        position: Point { x: 0, y: 0 },
        width: 5,
        height: 5,
    };

    let other = Rect {
        position: Point { x: 10, y: 10 },
        width: 5,
        height: 5,
    };

    assert!(!rect.intersects(&other));
    assert!(!other.intersects(&rect));
}

#[test]
fn touching_edges_do_not_intersect() {
    let rect = Rect::new_from_x_y(0, 0, 10, 10);
    let other = Rect::new_from_x_y(10, 0, 10, 10);
    assert!(!rect.intersects(&other));
    assert!(!other.intersects(&rect));
}

#[test]
fn intersection_is_symmetric_when_overlapping_diagonally() {
    let rect = Rect::new_from_x_y(-5, -5, 10, 10);
    let other = Rect::new_from_x_y(0, 0, 10, 10);
    assert_eq!(rect.intersects(&other), other.intersects(&rect));
    assert!(rect.intersects(&other));
}

#[test]
fn rect_accessors() {
    let mut rect = Rect::new(Point { x: 3, y: 4 }, 10, 20);
    assert_eq!(rect.x(), 3);
    assert_eq!(rect.y(), 4);
    assert_eq!(rect.right(), 13);
    assert_eq!(rect.bottom(), 24);
    rect.set_x(-7);
    assert_eq!(rect.x(), -7);
    assert_eq!(rect.right(), 3);
    assert_eq!(rect.y(), 4);
}
