use vstd::prelude::*;
use crate::game_boy::{GameBoy, GameBoyView};
use crate::memory::{MemoryView, Register};
use crate::util::bit;

verus! {

/// The master clock in cycles per second.
pub const CLOCK_SPEED: u64 = 4_194_304;

/// The number of cycles between two steps of the divider (16,384 Hz).
pub const DIVIDER_TICK: u64 = 256;

/// The number of cycles between two steps of the timer counter, for each of
/// the four clock selections: 4,096 Hz, 262,144 Hz, 65,536 Hz and 16,384 Hz.
pub const CLOCK0_TICK: u64 = 1024;

pub const CLOCK1_TICK: u64 = 16;

pub const CLOCK2_TICK: u64 = 64;

pub const CLOCK3_TICK: u64 = 256;

/// The period of the timer counter that the low two bits of the timer
/// control register select.
pub open spec fn timer_period(timer_control: u8) -> u64 {
    if timer_control % 4 == 0 {
        1024
    } else if timer_control % 4 == 1 {
        16
    } else if timer_control % 4 == 2 {
        64
    } else {
        256
    }
}

/// Whether bit 2 of the timer control register enables the timer counter.
pub open spec fn timer_enabled(timer_control: u8) -> bool {
    bit(timer_control, 2)
}

/// How many times a counter with the given period steps as the cycle count
/// goes from `before` to `after`: once for each multiple of the period that
/// is passed.
pub open spec fn crossings(before: u64, after: u64, period: u64) -> nat {
    if before / period < after / period {
        (after / period - before / period) as nat
    } else {
        0
    }
}

/// The cycle count after `num_cycle` more cycles. It wraps round at 64 bits.
pub open spec fn ticks_after(ticks: u64, num_cycle: u8) -> u64 {
    ticks.wrapping_add(num_cycle as u64)
}

/// The address space after the divider had its step, if one is due. The
/// cycles of one call never pass more than one multiple of its period.
pub open spec fn divider_step(m: MemoryView, ticks: u64, num_cycle: u8) -> MemoryView {
    if crossings(ticks, ticks_after(ticks, num_cycle), 256) > 0 {
        m.with_cell(0xFF04, m.mem[0xFF04].wrapping_add(1))
    } else {
        m
    }
}

/// The address space after one step of the timer counter. A step from 0xFF
/// reloads the counter from the modulo register and raises the timer
/// interrupt, bit 2 of the flag byte.
pub open spec fn counter_step(m: MemoryView) -> MemoryView {
    if m.mem[0xFF05] == 0xFF {
        m.with_cell(0xFF0F, m.mem[0xFF0F] | 0b100).with_cell(0xFF05, m.mem[0xFF06])
    } else {
        m.with_cell(0xFF05, (m.mem[0xFF05] + 1) as u8)
    }
}

/// The address space after `n` steps of the timer counter.
pub open spec fn counter_steps(m: MemoryView, n: nat) -> MemoryView
    decreases n,
{
    if n == 0 {
        m
    } else {
        counter_step(counter_steps(m, (n - 1) as nat))
    }
}

/// The address space after the timer saw `num_cycle` cycles: the divider
/// steps if its period was passed, and the timer counter, when bit 2 of the
/// control register enables it, steps once for each of its periods that was
/// passed.
pub open spec fn timer_step(m: MemoryView, ticks: u64, num_cycle: u8) -> MemoryView {
    let divided = divider_step(m, ticks, num_cycle);
    if timer_enabled(divided.mem[0xFF07]) {
        counter_steps(
            divided,
            crossings(ticks, ticks_after(ticks, num_cycle), timer_period(divided.mem[0xFF07])),
        )
    } else {
        divided
    }
}

/// The cycle counter that drives the divider and the timer counter.
#[derive(Copy, Clone, Debug, PartialEq, Eq, Structural)]
pub struct Clock {
    pub ticks: u64,
}

impl Clock {
    pub fn new() -> (r: Clock)
        ensures
            r.ticks == 0,
    {
        Clock { ticks: 0 }
    }

    /// Advances the clock by the cycles of one instruction and steps the
    /// divider and the timer counter where their periods were crossed.
    pub fn tick(&mut self, gb: &mut GameBoy, num_cycle: u8)
        requires
            old(gb).wf(),
        ensures
            final(gb).wf(),
            final(self).ticks == ticks_after(old(self).ticks, num_cycle),
            final(gb)@ == old(gb)@.with_memory(
                timer_step(old(gb)@.memory, old(self).ticks, num_cycle),
            ),
    {
        let new_ticks = self.ticks.wrapping_add(num_cycle as u64);

        if self.ticks / DIVIDER_TICK < new_ticks / DIVIDER_TICK {
            let divider_val = gb.memory.get_register(Register::Divider);
            gb.memory.set_register(Register::Divider, divider_val.wrapping_add(1));
        }
        let timer_control = gb.memory.get_register(Register::TimerControl);
        let timer_enabled = (timer_control / 4) % 2 == 1;
        if timer_enabled {
            let selection = timer_control % 4;
            let rate = if selection == 0 {
                CLOCK0_TICK
            } else if selection == 1 {
                CLOCK1_TICK
            } else if selection == 2 {
                CLOCK2_TICK
            } else {
                CLOCK3_TICK
            };
            let steps: u64 = if self.ticks / rate < new_ticks / rate {
                new_ticks / rate - self.ticks / rate
            } else {
                0
            };
            let ghost divided = gb@.memory;
            let mut done: u64 = 0;
            while done < steps
                invariant
                    done <= steps,
                    gb.wf(),
                    gb@ == old(gb)@.with_memory(counter_steps(divided, done as nat)),
                decreases steps - done,
            {
                let counter = gb.memory.get_register(Register::TimerCounter);
                let result = if counter == 0xFF {
                    let int_flags = gb.memory.get_register(Register::InterruptFlag);
                    gb.memory.set_register(Register::InterruptFlag, int_flags | 0b100);
                    gb.memory.get_register(Register::TimerModulo)
                } else {
                    counter + 1
                };
                gb.memory.set_register(Register::TimerCounter, result);
                done += 1;
            }
        }
        self.ticks = new_ticks;
    }
}

} // verus!
