use vstd::prelude::*;
use crate::cpu::Cpu;
use crate::game_boy::{GameBoy, GameBoyView};
use crate::memory::Register;
use crate::util::push_word;

verus! {

pub const V_BLANK: u8 = 0x01;

pub const LCD_STAT: u8 = 0x02;

pub const TIMER: u8 = 0x04;

pub const SERIAL: u8 = 0x08;

pub const JOYPAD: u8 = 0x10;

/// The interrupt of the highest priority among the pending ones, as its bit:
/// VBlank first, then LCD STAT, timer, serial and joypad.
pub open spec fn highest_pending(interrupts: u8) -> Option<u8> {
    if interrupts & 0x01 == 0x01 {
        Some(0x01u8)
    } else if interrupts & 0x02 == 0x02 {
        Some(0x02u8)
    } else if interrupts & 0x04 == 0x04 {
        Some(0x04u8)
    } else if interrupts & 0x08 == 0x08 {
        Some(0x08u8)
    } else if interrupts & 0x10 == 0x10 {
        Some(0x10u8)
    } else {
        None
    }
}

/// Whether `interrupt` is the bit of one of the five interrupts.
pub open spec fn is_interrupt(interrupt: u8) -> bool {
    interrupt == 0x01 || interrupt == 0x02 || interrupt == 0x04 || interrupt == 0x08 || interrupt
        == 0x10
}

/// The address that the processor jumps to for an interrupt.
pub open spec fn handler_address(interrupt: u8) -> u16 {
    if interrupt == 0x01 {
        0x40
    } else if interrupt == 0x02 {
        0x48
    } else if interrupt == 0x04 {
        0x50
    } else if interrupt == 0x08 {
        0x58
    } else {
        0x60
    }
}

impl GameBoyView {
    /// The machine after an interrupt is taken: the master enable is
    /// cleared, the flag byte loses the bit of the interrupt, PC is pushed
    /// and loaded with the address of the handler.
    pub open spec fn take_interrupt(self, flags: u8, interrupt: u8) -> GameBoyView {
        GameBoyView {
            cpu: Cpu { interrupt_enable_master: false, ..self.cpu },
            memory: self.memory.with_cell(0xFF0F, flags & !interrupt),
            ..self
        }.push(self.cpu.pc).with_pc(handler_address(interrupt))
    }

    /// The interrupts that are both enabled and flagged.
    pub open spec fn pending_interrupts(self) -> u8 {
        self.memory.mem[0xFFFF] & self.memory.mem[0xFF0F]
    }

    /// The machine after the interrupt controller had its turn: with the
    /// master enable set, the pending interrupt of the highest priority is
    /// taken; whatever the master enable, anything pending ends a halt.
    pub open spec fn service_interrupts(self) -> GameBoyView {
        let pending = self.pending_interrupts();
        let taken = if self.cpu.interrupt_enable_master && highest_pending(pending) is Some {
            self.take_interrupt(self.memory.mem[0xFF0F], highest_pending(pending).unwrap())
        } else {
            self
        };
        if pending != 0 {
            taken.with_cpu(Cpu { is_halted: false, ..taken.cpu })
        } else {
            taken
        }
    }
}

/// Lets the interrupt controller have its turn.
pub fn check_interrupts(gb: &mut GameBoy)
    requires
        old(gb).wf(),
    ensures
        final(gb).wf(),
        final(gb)@ == old(gb)@.service_interrupts(),
{
    let enabled = gb.memory.get_register(Register::InterruptEnable);
    let flag = gb.memory.get_register(Register::InterruptFlag);
    let interrupts = enabled & flag;
    if gb.cpu.interrupt_enable_master {
        if interrupts & V_BLANK == V_BLANK {
            handle_interrupt(gb, flag, V_BLANK);
        } else if interrupts & LCD_STAT == LCD_STAT {
            handle_interrupt(gb, flag, LCD_STAT);
        } else if interrupts & TIMER == TIMER {
            handle_interrupt(gb, flag, TIMER);
        } else if interrupts & SERIAL == SERIAL {
            handle_interrupt(gb, flag, SERIAL);
        } else if interrupts & JOYPAD == JOYPAD {
            handle_interrupt(gb, flag, JOYPAD);
        }
    }
    if interrupts != 0 {
        gb.cpu.is_halted = false;
    }
}

/// Takes an interrupt.
pub fn handle_interrupt(gb: &mut GameBoy, flags: u8, interrupt: u8)
    requires
        old(gb).wf(),
        is_interrupt(interrupt),
    ensures
        final(gb).wf(),
        final(gb)@ == old(gb)@.take_interrupt(flags, interrupt),
{
    gb.cpu.interrupt_enable_master = false;
    gb.memory.set_register(Register::InterruptFlag, flags & !interrupt);
    let pc = gb.cpu.pc;
    push_word(gb, pc);
    gb.cpu.pc = get_interrupt_handler_addr(interrupt);
}

/// The address of the handler of an interrupt.
pub fn get_interrupt_handler_addr(interrupt: u8) -> (r: u16)
    requires
        is_interrupt(interrupt),
    ensures
        r == handler_address(interrupt),
{
    if interrupt == V_BLANK {
        0x40
    } else if interrupt == LCD_STAT {
        0x48
    } else if interrupt == TIMER {
        0x50
    } else if interrupt == SERIAL {
        0x58
    } else {
        0x60
    }
}

} // verus!
