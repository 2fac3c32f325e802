use vstd::prelude::*;
use crate::{Button, ButtonState, InputEvent};

verus! {

/// A key of the host, as a foreign caller names it.
#[derive(Copy, Clone, Debug, PartialEq, Eq, Structural)]
pub enum Key {
    Up,
    Down,
    Left,
    Right,
    A,
    B,
    Start,
    Select,
}

impl Key {
    pub open spec fn spec_to_button(self) -> Button {
        match self {
            Key::Up => Button::Up,
            Key::Down => Button::Down,
            Key::Left => Button::Left,
            Key::Right => Button::Right,
            Key::A => Button::A,
            Key::B => Button::B,
            Key::Start => Button::Start,
            Key::Select => Button::Select,
        }
    }

    /// The button that a key stands for.
    pub fn to_button(&self) -> (r: Button)
        ensures
            r == self.spec_to_button(),
    {
        match self {
            Key::Up => Button::Up,
            Key::Down => Button::Down,
            Key::Left => Button::Left,
            Key::Right => Button::Right,
            Key::A => Button::A,
            Key::B => Button::B,
            Key::Start => Button::Start,
            Key::Select => Button::Select,
        }
    }
}

/// A key going down or up, as a foreign caller reports it.
#[derive(Copy, Clone, Debug, PartialEq, Eq, Structural)]
pub struct Event {
    pub key: Key,
    pub is_pressed: bool,
}

impl Event {
    /// The input event that a reported key event stands for.
    pub fn to_input_event(&self) -> (r: InputEvent)
        ensures
            r == (InputEvent {
                button: self.key.spec_to_button(),
                state: if self.is_pressed {
                    ButtonState::Pressed
                } else {
                    ButtonState::Released
                },
            }),
    {
        InputEvent {
            state: if self.is_pressed {
                ButtonState::Pressed
            } else {
                ButtonState::Released
            },
            button: self.key.to_button(),
        }
    }
}

} // verus!
