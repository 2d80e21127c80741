//! The keys that the viewer listens to, and what each of them asks for.

use vstd::prelude::*;
use crate::camera::{Direction, ZOOM_IN, ZOOM_OUT};

verus! {

/// A key of the keyboard. All keys that the viewer does not listen to are `Other`.
#[derive(Clone, Copy, Debug, PartialEq, Eq, Structural)]
pub enum Key {
    A,
    D,
    W,
    S,
    Left,
    Right,
    Up,
    Down,
    X,
    Space,
    I,
    O,
    Num0,
    Num1,
    Num2,
    Num3,
    Other,
}

/// What a tap on a key asks for.
#[derive(Clone, Copy, Debug, PartialEq, Eq, Structural)]
pub enum TapAction {
    /// Move the map by the side of a tile.
    Pan(Direction),
    /// Show the backpack if it is hidden, hide it if it is shown.
    ToggleBackpack,
    /// Add to the scale, in hundredths.
    Zoom(i64),
    /// Take the tiles of another style.
    Style(usize),
    /// Nothing.
    Ignore,
}

/// What a tap on `key` asks for.
pub open spec fn tap_of(key: Key) -> TapAction {
    match key {
        Key::A | Key::Left => TapAction::Pan(Direction::Left),
        Key::D | Key::Right => TapAction::Pan(Direction::Right),
        Key::W | Key::Up => TapAction::Pan(Direction::Up),
        Key::S | Key::Down => TapAction::Pan(Direction::Down),
        Key::X | Key::Space => TapAction::ToggleBackpack,
        Key::I => TapAction::Zoom(ZOOM_IN),
        Key::O => TapAction::Zoom(ZOOM_OUT),
        Key::Num0 => TapAction::Style(0),
        Key::Num1 => TapAction::Style(1),
        Key::Num2 => TapAction::Style(2),
        Key::Num3 => TapAction::Style(3),
        Key::Other => TapAction::Ignore,
    }
}

/// The way in which `key` moves the map while it is held, if it moves it.
pub open spec fn hold_of(key: Key) -> Option<Direction> {
    match key {
        Key::A | Key::Left => Some(Direction::Left),
        Key::D | Key::Right => Some(Direction::Right),
        Key::W | Key::Up => Some(Direction::Up),
        Key::S | Key::Down => Some(Direction::Down),
        _ => None,
    }
}

/// What a tap on `key` asks for.
pub fn tap_action(key: Key) -> (action: TapAction)
    ensures
        action == tap_of(key),
{
    match key {
        Key::A | Key::Left => TapAction::Pan(Direction::Left),
        Key::D | Key::Right => TapAction::Pan(Direction::Right),
        Key::W | Key::Up => TapAction::Pan(Direction::Up),
        Key::S | Key::Down => TapAction::Pan(Direction::Down),
        Key::X | Key::Space => TapAction::ToggleBackpack,
        Key::I => TapAction::Zoom(ZOOM_IN),
        Key::O => TapAction::Zoom(ZOOM_OUT),
        Key::Num0 => TapAction::Style(0),
        Key::Num1 => TapAction::Style(1),
        Key::Num2 => TapAction::Style(2),
        Key::Num3 => TapAction::Style(3),
        Key::Other => TapAction::Ignore,
    }
}

/// The way in which `key` moves the map while it is held, if it moves it.
pub fn hold_direction(key: Key) -> (direction: Option<Direction>)
    ensures
        direction == hold_of(key),
{
    match key {
        Key::A | Key::Left => Some(Direction::Left),
        Key::D | Key::Right => Some(Direction::Right),
        Key::W | Key::Up => Some(Direction::Up),
        Key::S | Key::Down => Some(Direction::Down),
        _ => None,
    }
}

} // verus!
