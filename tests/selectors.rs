use bixat_key_mouse::selectors::{
    get_axis_by_index, get_coordinate_by_index, get_direction_by_index, get_mouse_button_by_index,
    Axis, Button, Coordinate, Direction,
};

#[test]
fn mouse_button_table() {
    assert_eq!(get_mouse_button_by_index(1), Button::Left);
    assert_eq!(get_mouse_button_by_index(2), Button::Right);
    assert_eq!(get_mouse_button_by_index(3), Button::Middle);
    assert_eq!(get_mouse_button_by_index(4), Button::Back);
    assert_eq!(get_mouse_button_by_index(5), Button::Forward);
    assert_eq!(get_mouse_button_by_index(6), Button::ScrollUp);
    assert_eq!(get_mouse_button_by_index(7), Button::ScrollDown);
    assert_eq!(get_mouse_button_by_index(8), Button::ScrollLeft);
    assert_eq!(get_mouse_button_by_index(9), Button::ScrollRight);
}

#[test]
fn mouse_button_unknown_is_left() {
    assert_eq!(get_mouse_button_by_index(0), Button::Left);
    assert_eq!(get_mouse_button_by_index(10), Button::Left);
    assert_eq!(get_mouse_button_by_index(-1), Button::Left);
    assert_eq!(get_mouse_button_by_index(i32::MAX), Button::Left);
    assert_eq!(get_mouse_button_by_index(i32::MIN), Button::Left);
}

#[test]
fn direction_table() {
    assert_eq!(get_direction_by_index(0), Direction::Press);
    assert_eq!(get_direction_by_index(1), Direction::Release);
    assert_eq!(get_direction_by_index(2), Direction::Click);
    assert_eq!(get_direction_by_index(3), Direction::Press);
    assert_eq!(get_direction_by_index(-5), Direction::Press);
}

#[test]
fn coordinate_table() {
    assert_eq!(get_coordinate_by_index(0), Coordinate::Abs);
    assert_eq!(get_coordinate_by_index(1), Coordinate::Rel);
    assert_eq!(get_coordinate_by_index(2), Coordinate::Abs);
    assert_eq!(get_coordinate_by_index(-1), Coordinate::Abs);
}

#[test]
fn axis_table() {
    assert_eq!(get_axis_by_index(0), Axis::Horizontal);
    assert_eq!(get_axis_by_index(1), Axis::Vertical);
    assert_eq!(get_axis_by_index(2), Axis::Vertical);
    assert_eq!(get_axis_by_index(-1), Axis::Vertical);
}
