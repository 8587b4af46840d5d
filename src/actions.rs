//! The requests that the host can make, built from its selectors.
//!
//! Each function here decides which input event the host asked for; the
//! platform layer performs the returned [`Action`].
use vstd::prelude::*;
use crate::keys::{key_by_name, key_of_name, Key};
use crate::selectors::{
    axis_of_index, button_of_index, coordinate_of_index, direction_of_index, get_axis_by_index,
    get_coordinate_by_index, get_direction_by_index, get_mouse_button_by_index, Axis, Button,
    Coordinate, Direction,
};

verus! {

/// One input event to simulate.
#[derive(Clone, Debug, PartialEq, Eq)]
pub enum Action {
    /// Move the pointer to `(x, y)`, or by `(x, y)` when `coordinate` is relative.
    MoveMouse { x: i32, y: i32, coordinate: Coordinate },
    /// Press, release or click a mouse button.
    Button { button: Button, direction: Direction },
    /// Type a text.
    Text { text: String },
    /// Press, release or click a key.
    Key { key: Key, direction: Direction },
    /// Scroll by `length` steps along `axis`.
    Scroll { length: i32, axis: Axis },
}

/// Button selectors of the plain pointer calls: 2 is right; 1 and any other value left.
pub open spec fn basic_button_of_index(index: i32) -> Button {
    if index == 2 {
        Button::Right
    } else {
        Button::Left
    }
}

/// The request to press the key that a name stands for. The caps-lock key is
/// released instead of pressed; a name that stands for no key asks for nothing.
pub open spec fn press_request_of_name(name: Seq<char>) -> Option<Action> {
    match key_of_name(name) {
        Some(k) => Some(
            Action::Key {
                key: k,
                direction: if k == Key::CapsLock {
                    Direction::Release
                } else {
                    Direction::Press
                },
            },
        ),
        None => None,
    }
}

/// The request to release the key that a name stands for, for the control,
/// shift, alt and caps-lock keys; any other name asks for nothing.
pub open spec fn release_request_of_name(name: Seq<char>) -> Option<Action> {
    match key_of_name(name) {
        Some(k) => if k == Key::Meta || k == Key::Delete {
            None
        } else {
            Some(Action::Key { key: k, direction: Direction::Release })
        },
        None => None,
    }
}

/// Moves the pointer, absolutely or relatively as the coordinate selector says.
pub fn move_mouse_base(x: i32, y: i32, coordinate: i32) -> (r: Action)
    ensures
        r == (Action::MoveMouse { x, y, coordinate: coordinate_of_index(coordinate) }),
{
    let coordinate = get_coordinate_by_index(coordinate);
    Action::MoveMouse { x, y, coordinate }
}

/// Presses, releases or clicks the button that the selectors name.
pub fn press_mouse_button_base(button: i32, direction: i32) -> (r: Action)
    ensures
        r == (Action::Button {
            button: button_of_index(button),
            direction: direction_of_index(direction),
        }),
{
    let button = get_mouse_button_by_index(button);
    let direction = get_direction_by_index(direction);
    Action::Button { button, direction }
}

/// Types a text.
pub fn enter_text_base(text: &str) -> (r: Action)
    ensures
        r is Text,
        r->text@ == text@,
{
    Action::Text { text: text.to_owned() }
}

/// Presses, releases or clicks a key: the key that types `unicode` where it
/// is given, else the key with the host's index `key`.
pub fn simulate_key_base(key: i32, direction: i32, unicode: Option<char>) -> (r: Action)
    ensures
        r == (Action::Key {
            key: match unicode {
                Some(c) => Key::Unicode(c),
                None => Key::Index(key),
            },
            direction: direction_of_index(direction),
        }),
{
    let direction = get_direction_by_index(direction);
    match unicode {
        Some(c) => Action::Key { key: Key::Unicode(c), direction },
        None => Action::Key { key: Key::Index(key), direction },
    }
}

/// Scrolls by `distance` steps along the axis that the selector names.
pub fn scroll_mouse_base(distance: i32, axis: i32) -> (r: Action)
    ensures
        r == (Action::Scroll { length: distance, axis: axis_of_index(axis) }),
{
    let axis = get_axis_by_index(axis);
    Action::Scroll { length: distance, axis }
}

/// Moves the pointer to the screen position `(x, y)`.
pub fn move_mouse_abs(x: i32, y: i32) -> (r: Action)
    ensures
        r == (Action::MoveMouse { x, y, coordinate: Coordinate::Abs }),
{
    Action::MoveMouse { x, y, coordinate: Coordinate::Abs }
}

/// Moves the pointer by `(x, y)` from where it stands.
pub fn move_mouse_rel(x: i32, y: i32) -> (r: Action)
    ensures
        r == (Action::MoveMouse { x, y, coordinate: Coordinate::Rel }),
{
    Action::MoveMouse { x, y, coordinate: Coordinate::Rel }
}

fn basic_button_by_index(index: i32) -> (r: Button)
    ensures
        r == basic_button_of_index(index),
{
    match index {
        1 => Button::Left,
        2 => Button::Right,
        _ => Button::Left,
    }
}

/// Presses the left (selector 1) or right (selector 2) button.
pub fn press_mouse_button(button: i32) -> (r: Action)
    ensures
        r == (Action::Button { button: basic_button_of_index(button), direction: Direction::Press }),
{
    Action::Button { button: basic_button_by_index(button), direction: Direction::Press }
}

/// Releases the left (selector 1) or right (selector 2) button.
pub fn release_mouse_button(button: i32) -> (r: Action)
    ensures
        r == (Action::Button {
            button: basic_button_of_index(button),
            direction: Direction::Release,
        }),
{
    Action::Button { button: basic_button_by_index(button), direction: Direction::Release }
}

/// Types a text.
pub fn enter_text(text: &str) -> (r: Action)
    ensures
        r is Text,
        r->text@ == text@,
{
    enter_text_base(text)
}

/// Presses the key with the given name; see [`press_request_of_name`].
pub fn simulate_key(key: &str) -> (r: Option<Action>)
    ensures
        r == press_request_of_name(key@),
{
    match key_by_name(key) {
        Some(k) => {
            let direction = match k {
                Key::CapsLock => Direction::Release,
                _ => Direction::Press,
            };
            Some(Action::Key { key: k, direction })
        },
        None => None,
    }
}

/// Releases the key with the given name; see [`release_request_of_name`].
pub fn release_key(key: &str) -> (r: Option<Action>)
    ensures
        r == release_request_of_name(key@),
{
    match key_by_name(key) {
        Some(Key::Meta) | Some(Key::Delete) | None => None,
        Some(k) => Some(Action::Key { key: k, direction: Direction::Release }),
    }
}

} // verus!
