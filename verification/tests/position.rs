use workmate::pattern::Action;
use workmate::position::{Axis, CoordinateRangeError, MousePoint, Point};

#[test]
fn a_step_left_and_a_step_up() {
    let at = MousePoint { x: 100, y: 100 };
    assert_eq!(at.offset(Action::Left, 5), Some(MousePoint { x: 95, y: 100 }));
    assert_eq!(at.offset(Action::Up, 5), Some(MousePoint { x: 100, y: 95 }));
}

#[test]
fn a_step_right_and_a_step_down() {
    let at = MousePoint { x: 100, y: 100 };
    assert_eq!(at.offset(Action::Right, 5), Some(MousePoint { x: 105, y: 100 }));
    assert_eq!(at.offset(Action::Down, 5), Some(MousePoint { x: 100, y: 105 }));
}

#[test]
fn staying_has_no_target() {
    assert_eq!(MousePoint { x: 100, y: 100 }.offset(Action::Stay, 5), None);
    assert_eq!(MousePoint { x: i32::MAX, y: i32::MIN }.offset(Action::Stay, i32::MAX), None);
}

#[test]
fn a_negative_step_goes_the_other_way() {
    let at = MousePoint { x: 10, y: 20 };
    assert_eq!(at.offset(Action::Left, -3), Some(MousePoint { x: 13, y: 20 }));
    assert_eq!(at.offset(Action::Right, -3), Some(MousePoint { x: 7, y: 20 }));
    assert_eq!(at.offset(Action::Up, -3), Some(MousePoint { x: 10, y: 23 }));
    assert_eq!(at.offset(Action::Down, -3), Some(MousePoint { x: 10, y: 17 }));
}

#[test]
fn a_step_of_nothing_moves_to_the_same_place() {
    let at = MousePoint { x: -4, y: 9 };
    for action in [Action::Left, Action::Right, Action::Up, Action::Down] {
        assert_eq!(at.offset(action, 0), Some(at));
    }
}

#[test]
fn a_step_may_end_on_the_edge() {
    let at = MousePoint { x: i32::MAX - 5, y: i32::MIN + 5 };
    assert!(at.can_reach(Action::Right, 5));
    assert_eq!(at.offset(Action::Right, 5), Some(MousePoint { x: i32::MAX, y: i32::MIN + 5 }));
    assert!(at.can_reach(Action::Up, 5));
    assert_eq!(at.offset(Action::Up, 5), Some(MousePoint { x: i32::MAX - 5, y: i32::MIN }));
}

#[test]
fn a_step_over_the_edge_is_out_of_reach() {
    let at = MousePoint { x: i32::MAX - 5, y: i32::MIN + 5 };
    assert!(!at.can_reach(Action::Right, 6));
    assert!(!at.can_reach(Action::Up, 6));
    assert!(at.can_reach(Action::Left, 6));
    assert!(at.can_reach(Action::Down, 6));
    assert!(!at.can_reach(Action::Left, -6));
    assert!(!at.can_reach(Action::Down, -6));
    let origin = MousePoint { x: 0, y: 0 };
    assert!(!origin.can_reach(Action::Left, i32::MIN));
    assert!(!origin.can_reach(Action::Up, i32::MIN));
    assert!(origin.can_reach(Action::Right, i32::MIN));
    assert!(origin.can_reach(Action::Down, i32::MIN));
}

#[test]
fn staying_is_always_within_reach() {
    assert!(MousePoint { x: i32::MAX, y: i32::MAX }.can_reach(Action::Stay, i32::MAX));
    assert!(MousePoint { x: i32::MIN, y: i32::MIN }.can_reach(Action::Stay, i32::MIN));
}

#[test]
fn the_origin_is_zero_zero() {
    assert_eq!(Point::origin(), Point { x: 0, y: 0 });
    assert_eq!(Point::origin().into_mouse_point(), Ok(MousePoint { x: 0, y: 0 }));
}

#[test]
fn a_position_within_range_is_kept() {
    assert_eq!(Point { x: 100, y: -7 }.into_mouse_point(), Ok(MousePoint { x: 100, y: -7 }));
    assert_eq!(
        Point { x: 2147483647, y: -2147483648 }.into_mouse_point(),
        Ok(MousePoint { x: i32::MAX, y: i32::MIN })
    );
}

#[test]
fn a_wide_x_is_refused() {
    assert_eq!(
        Point { x: 2147483648, y: 0 }.into_mouse_point(),
        Err(CoordinateRangeError { axis: Axis::X, value: 2147483648 })
    );
    assert_eq!(
        Point { x: -2147483649, y: 0 }.into_mouse_point(),
        Err(CoordinateRangeError { axis: Axis::X, value: -2147483649 })
    );
}

#[test]
fn a_wide_y_is_refused() {
    assert_eq!(
        Point { x: 0, y: 4294967296 }.into_mouse_point(),
        Err(CoordinateRangeError { axis: Axis::Y, value: 4294967296 })
    );
    assert_eq!(
        Point { x: 0, y: i64::MIN }.into_mouse_point(),
        Err(CoordinateRangeError { axis: Axis::Y, value: i64::MIN })
    );
}

#[test]
fn x_is_named_where_neither_fits() {
    assert_eq!(
        Point { x: i64::MAX, y: i64::MIN }.into_mouse_point(),
        Err(CoordinateRangeError { axis: Axis::X, value: i64::MAX })
    );
}

#[test]
fn the_message_names_the_coordinate_and_its_value() {
    let x = CoordinateRangeError { axis: Axis::X, value: 4294967296 };
    assert_eq!(x.message(), "Error converting Point.x to i32: 4294967296");
    let y = CoordinateRangeError { axis: Axis::Y, value: -2147483649 };
    assert_eq!(y.message(), "Error converting Point.y to i32: -2147483649");
}

#[test]
fn the_message_of_a_refused_position() {
    let error = Point { x: 5, y: 2147483648 }.into_mouse_point().unwrap_err();
    assert_eq!(error.message(), "Error converting Point.y to i32: 2147483648");
}
