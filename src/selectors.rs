//! The tables from the host's integer selectors to typed values.
use vstd::prelude::*;

verus! {

/// A mouse button, or one step of a scroll wheel given as a button.
#[derive(Clone, Copy, Debug, PartialEq, Eq, Structural)]
pub enum Button {
    Left,
    Middle,
    Right,
    Back,
    Forward,
    ScrollUp,
    ScrollDown,
    ScrollLeft,
    ScrollRight,
}

/// Whether a button or key goes down, comes up, or both in turn.
#[derive(Clone, Copy, Debug, PartialEq, Eq, Structural)]
pub enum Direction {
    Press,
    Release,
    Click,
}

/// Whether pointer coordinates are absolute or relative to the current position.
#[derive(Clone, Copy, Debug, PartialEq, Eq, Structural)]
pub enum Coordinate {
    Abs,
    Rel,
}

/// The axis along which a scroll moves.
#[derive(Clone, Copy, Debug, PartialEq, Eq, Structural)]
pub enum Axis {
    Horizontal,
    Vertical,
}

/// Button selectors: 1 left, 2 right, 3 middle, 4 back, 5 forward,
/// 6 to 9 the scroll steps up, down, left, right; any other value is left.
pub open spec fn button_of_index(index: i32) -> Button {
    if index == 1 {
        Button::Left
    } else if index == 2 {
        Button::Right
    } else if index == 3 {
        Button::Middle
    } else if index == 4 {
        Button::Back
    } else if index == 5 {
        Button::Forward
    } else if index == 6 {
        Button::ScrollUp
    } else if index == 7 {
        Button::ScrollDown
    } else if index == 8 {
        Button::ScrollLeft
    } else if index == 9 {
        Button::ScrollRight
    } else {
        Button::Left
    }
}

/// Direction selectors: 0 press, 1 release, 2 click; any other value is press.
pub open spec fn direction_of_index(index: i32) -> Direction {
    if index == 1 {
        Direction::Release
    } else if index == 2 {
        Direction::Click
    } else {
        Direction::Press
    }
}

/// Coordinate selectors: 1 relative; 0 and any other value absolute.
pub open spec fn coordinate_of_index(index: i32) -> Coordinate {
    if index == 1 {
        Coordinate::Rel
    } else {
        Coordinate::Abs
    }
}

/// Axis selectors: 0 horizontal; 1 and any other value vertical.
pub open spec fn axis_of_index(index: i32) -> Axis {
    if index == 0 {
        Axis::Horizontal
    } else {
        Axis::Vertical
    }
}

pub fn get_mouse_button_by_index(index: i32) -> (r: Button)
    ensures
        r == button_of_index(index),
{
    match index {
        1 => Button::Left,
        3 => Button::Middle,
        2 => Button::Right,
        4 => Button::Back,
        5 => Button::Forward,
        6 => Button::ScrollUp,
        7 => Button::ScrollDown,
        8 => Button::ScrollLeft,
        9 => Button::ScrollRight,
        _ => Button::Left,
    }
}

pub fn get_direction_by_index(index: i32) -> (r: Direction)
    ensures
        r == direction_of_index(index),
{
    match index {
        0 => Direction::Press,
        1 => Direction::Release,
        2 => Direction::Click,
        _ => Direction::Press,
    }
}

pub fn get_coordinate_by_index(index: i32) -> (r: Coordinate)
    ensures
        r == coordinate_of_index(index),
{
    match index {
        0 => Coordinate::Abs,
        1 => Coordinate::Rel,
        _ => Coordinate::Abs,
    }
}

pub fn get_axis_by_index(index: i32) -> (r: Axis)
    ensures
        r == axis_of_index(index),
{
    match index {
        0 => Axis::Horizontal,
        1 => Axis::Vertical,
        _ => Axis::Vertical,
    }
}

} // verus!
