use vstd::prelude::*;
use crate::game_boy::{GameBoy, GameBoyView};
use crate::memory::Register;

verus! {

/// A latch with the bits of `mask` set, or cleared.
pub open spec fn spec_set_bit(val: u8, mask: u8, set: bool) -> u8 {
    if set {
        val | mask
    } else {
        val & !mask
    }
}

/// The joypad register after a refresh. Bits 4 and 5 of the register, when
/// clear, select the directions and the actions; the low four bits show the
/// selected latch, both latches ORed when both are selected, and stay as
/// they are when none is.
pub open spec fn joypad_value(register: u8, directions: u8, actions: u8) -> u8 {
    let select = register & 0xF0;
    if select & 0x20 == 0 && select & 0x10 == 0 {
        select | (actions | directions)
    } else if select & 0x20 == 0 {
        select | actions
    } else if select & 0x10 == 0 {
        select | directions
    } else {
        register
    }
}

pub fn set_bit(val: u8, mask: u8, set: bool) -> (r: u8)
    ensures
        r == spec_set_bit(val, mask, set),
{
    if set {
        val | mask
    } else {
        val & !mask
    }
}

/// The two latches of the joypad. A pressed button reads as a cleared bit.
#[derive(Copy, Clone, Debug, PartialEq, Eq, Structural)]
pub struct Controller {
    pub direction_states: u8,
    pub button_states: u8,
}

impl Controller {
    /// A joypad with no button pressed.
    pub fn new() -> (r: Controller)
        ensures
            r == (Controller { direction_states: 0x0F, button_states: 0x0F }),
    {
        Controller { direction_states: 0x0F, button_states: 0x0F }
    }

    pub fn down_changed(&mut self, pressed: bool)
        ensures
            *final(self) == (Controller {
                direction_states: spec_set_bit(old(self).direction_states, 0b1000, !pressed),
                ..*old(self)
            }),
    {
        self.direction_states = set_bit(self.direction_states, 0b1000, !pressed);
    }

    pub fn up_changed(&mut self, pressed: bool)
        ensures
            *final(self) == (Controller {
                direction_states: spec_set_bit(old(self).direction_states, 0b0100, !pressed),
                ..*old(self)
            }),
    {
        self.direction_states = set_bit(self.direction_states, 0b0100, !pressed);
    }

    pub fn left_changed(&mut self, pressed: bool)
        ensures
            *final(self) == (Controller {
                direction_states: spec_set_bit(old(self).direction_states, 0b0010, !pressed),
                ..*old(self)
            }),
    {
        self.direction_states = set_bit(self.direction_states, 0b0010, !pressed);
    }

    pub fn right_changed(&mut self, pressed: bool)
        ensures
            *final(self) == (Controller {
                direction_states: spec_set_bit(old(self).direction_states, 0b0001, !pressed),
                ..*old(self)
            }),
    {
        self.direction_states = set_bit(self.direction_states, 0b0001, !pressed);
    }

    pub fn start_changed(&mut self, pressed: bool)
        ensures
            *final(self) == (Controller {
                button_states: spec_set_bit(old(self).button_states, 0b1000, !pressed),
                ..*old(self)
            }),
    {
        self.button_states = set_bit(self.button_states, 0b1000, !pressed);
    }

    pub fn select_changed(&mut self, pressed: bool)
        ensures
            *final(self) == (Controller {
                button_states: spec_set_bit(old(self).button_states, 0b0100, !pressed),
                ..*old(self)
            }),
    {
        self.button_states = set_bit(self.button_states, 0b0100, !pressed);
    }

    pub fn b_changed(&mut self, pressed: bool)
        ensures
            *final(self) == (Controller {
                button_states: spec_set_bit(old(self).button_states, 0b0010, !pressed),
                ..*old(self)
            }),
    {
        self.button_states = set_bit(self.button_states, 0b0010, !pressed);
    }

    pub fn a_changed(&mut self, pressed: bool)
        ensures
            *final(self) == (Controller {
                button_states: spec_set_bit(old(self).button_states, 0b0001, !pressed),
                ..*old(self)
            }),
    {
        self.button_states = set_bit(self.button_states, 0b0001, !pressed);
    }

    /// Refreshes the low four bits of the joypad register from the latches
    /// that its select bits name.
    pub fn update_joypad_register(&self, gb: &mut GameBoy)
        requires
            old(gb).wf(),
        ensures
            final(gb).wf(),
            final(gb)@ == old(gb)@.with_memory(
                old(gb)@.memory.with_cell(
                    0xFF00,
                    joypad_value(
                        old(gb)@.memory.mem[0xFF00],
                        self.direction_states,
                        self.button_states,
                    ),
                ),
            ),
    {
        let register = gb.memory.get_register(Register::Joypad);
        let joypad_select = register & 0xF0;
        let actions = joypad_select & 0x20 == 0x00;
        let directions = joypad_select & 0x10 == 0x00;
        let value = if actions && directions {
            joypad_select | (self.button_states | self.direction_states)
        } else if actions {
            joypad_select | self.button_states
        } else if directions {
            joypad_select | self.direction_states
        } else {
            register
        };
        gb.memory.set_register(Register::Joypad, value);
    }
}

} // verus!
