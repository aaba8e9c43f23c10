use dropdown_menu::geometry::saturate_i32;
use dropdown_menu::{Event, Point, Rect};

#[test]
fn rectangle_holds_its_left_and_top_edges_only() {
    let rect = Rect::new(10, 20, 30, 40);
    assert!(rect.contains(Point::new(10, 20)));
    assert!(rect.contains(Point::new(39, 59)));
    assert!(!rect.contains(Point::new(40, 59)));
    assert!(!rect.contains(Point::new(39, 60)));
    assert!(!rect.contains(Point::new(9, 20)));
    assert!(!rect.contains(Point::new(10, 19)));
}

#[test]
fn rectangle_of_no_area_holds_nothing() {
    assert!(!Rect::new(0, 0, 0, 10).contains(Point::new(0, 0)));
    assert!(!Rect::new(0, 0, 10, 0).contains(Point::new(0, 0)));
    assert!(!Rect::default().contains(Point::default()));
}

#[test]
fn rectangle_may_reach_past_the_coordinate_range() {
    let rect = Rect::new(i32::MAX - 1, i32::MAX - 1, 10, 10);
    assert!(rect.contains(Point::new(i32::MAX, i32::MAX)));
    let rect = Rect::new(i32::MIN, i32::MIN, u32::MAX, u32::MAX);
    assert!(rect.contains(Point::new(i32::MIN, i32::MAX - 1)));
    assert!(!rect.contains(Point::new(i32::MAX, 0)));
}

#[test]
fn corner_of_a_rectangle() {
    assert_eq!(Rect::new(-3, 7, 1, 2).point(), Point::new(-3, 7));
}

#[test]
fn point_seen_from_an_origin() {
    let p = Point::new(12, 31);
    assert_eq!(p.relative_to(Point::new(5, 20)), Point::new(7, 11));
    assert_eq!(p.relative_to(Point::new(20, 40)), Point::new(-8, -9));
    assert_eq!(p.relative_to(Point::default()), p);
}

#[test]
fn differences_are_pinned_to_the_coordinate_range() {
    assert_eq!(
        Point::new(i32::MAX, i32::MIN).relative_to(Point::new(-1, 1)),
        Point::new(i32::MAX, i32::MIN)
    );
    assert_eq!(saturate_i32(i64::MAX), i32::MAX);
    assert_eq!(saturate_i32(i64::MIN), i32::MIN);
    assert_eq!(saturate_i32(-7), -7);
}

#[test]
fn mouse_event_carries_point_and_left_button() {
    assert_eq!(
        Event::mouse(Point::new(1, 2), true),
        Event::Mouse {
            point: Point::new(1, 2),
            left_button: true,
            middle_button: false,
            right_button: false,
        }
    );
}
