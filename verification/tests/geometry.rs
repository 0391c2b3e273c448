use powermeter::geometry::{saturate_i64, shifted, Point, Rectangle, Size};

#[test]
fn a_rectangle_contains_its_corners_and_nothing_beyond() {
    let area = Rectangle::new(Point::new(10, 20), Size::new(3, 2));
    assert!(area.contains(Point::new(10, 20)));
    assert!(area.contains(Point::new(12, 21)));
    assert!(!area.contains(Point::new(13, 21)));
    assert!(!area.contains(Point::new(12, 22)));
    assert!(!area.contains(Point::new(9, 20)));
    assert!(!area.contains(Point::new(10, 19)));
}

#[test]
fn an_empty_rectangle_contains_nothing() {
    assert!(!Rectangle::new(Point::new(0, 0), Size::new(0, 5)).contains(Point::new(0, 0)));
    assert!(!Rectangle::new(Point::new(0, 0), Size::new(5, 0)).contains(Point::new(0, 0)));
}

#[test]
fn contains_agrees_with_embedded_graphics() {
    let corners = [-7, -1, 0, 3];
    let extents = [0u32, 1, 2, 5];
    for left in corners {
        for top in corners {
            for width in extents {
                for height in extents {
                    let ours = Rectangle::new(Point::new(left, top), Size::new(width, height));
                    let theirs = embedded_graphics::primitives::Rectangle::new(
                        embedded_graphics::geometry::Point::new(left, top),
                        embedded_graphics::geometry::Size::new(width, height),
                    );
                    for x in -9..10 {
                        for y in -9..10 {
                            assert_eq!(
                                ours.contains(Point::new(x, y)),
                                theirs.contains(embedded_graphics::geometry::Point::new(x, y)),
                                "{:?} and ({}, {})",
                                ours,
                                x,
                                y
                            );
                        }
                    }
                }
            }
        }
    }
}

#[test]
fn contains_does_not_wrap_at_the_end_of_the_range() {
    let area = Rectangle::new(Point::new(i32::MAX - 1, i32::MAX - 1), Size::new(u32::MAX, u32::MAX));
    assert!(area.contains(Point::new(i32::MAX, i32::MAX)));
    assert!(!area.contains(Point::new(i32::MAX - 2, i32::MAX)));
    assert!(!area.contains(Point::new(i32::MIN, i32::MIN)));
}

#[test]
fn coordinates_stay_at_the_ends_of_the_range() {
    assert_eq!(saturate_i64(5), 5);
    assert_eq!(saturate_i64(i64::MAX), i32::MAX);
    assert_eq!(saturate_i64(i64::MIN), i32::MIN);
    assert_eq!(saturate_i64(i32::MAX as i64 + 1), i32::MAX);
    assert_eq!(saturate_i64(i32::MIN as i64 - 1), i32::MIN);
    assert_eq!(shifted(10, -3), 7);
    assert_eq!(shifted(i32::MAX, 1), i32::MAX);
    assert_eq!(shifted(i32::MIN, -1), i32::MIN);
    assert_eq!(shifted(1, i64::MAX), i32::MAX);
    assert_eq!(shifted(-1, i64::MIN), i32::MIN);
    assert_eq!(shifted(i32::MIN, u32::MAX as i64), i32::MAX);
}

#[test]
fn a_point_moves_by_an_offset() {
    assert_eq!(Point::new(1, 2).offset(10, -20), Point { x: 11, y: -18 });
    assert_eq!(Point::new(1, 2).offset(i64::MAX, i64::MIN), Point { x: i32::MAX, y: i32::MIN });
}
