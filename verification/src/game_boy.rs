use vstd::prelude::*;
use crate::cpu::Cpu;
use crate::memory::{rom_image_ok, Memory, MemoryView};
use crate::util::Reg8;

verus! {

/// The mathematical model of the machine: the register file, the model of
/// the address space, and the exit flag.
pub struct GameBoyView {
    pub cpu: Cpu,
    pub memory: MemoryView,
    pub exit_requested: bool,
}

impl GameBoyView {
    pub open spec fn wf(self) -> bool {
        self.memory.wf()
    }

    /// The machine with another register file.
    pub open spec fn with_cpu(self, cpu: Cpu) -> GameBoyView {
        GameBoyView { cpu, ..self }
    }

    /// The machine with another address space.
    pub open spec fn with_memory(self, memory: MemoryView) -> GameBoyView {
        GameBoyView { memory, ..self }
    }

    /// The byte that a register selector names.
    pub open spec fn reg8(self, reg: Reg8) -> u8 {
        match reg {
            Reg8::A => self.cpu.a,
            Reg8::B => self.cpu.spec_b(),
            Reg8::C => self.cpu.spec_c(),
            Reg8::D => self.cpu.spec_d(),
            Reg8::E => self.cpu.spec_e(),
            Reg8::H => self.cpu.spec_h(),
            Reg8::L => self.cpu.spec_l(),
            Reg8::MemHl => self.memory.read(self.cpu.hl),
        }
    }

    /// The machine after `val` is stored where a register selector points.
    /// A store to `(HL)` goes through the write path of the address space.
    pub open spec fn with_reg8(self, reg: Reg8, val: u8) -> GameBoyView {
        match reg {
            Reg8::A => self.with_cpu(Cpu { a: val, ..self.cpu }),
            Reg8::B => self.with_cpu(
                Cpu { bc: (val * 256 + self.cpu.bc % 256) as u16, ..self.cpu },
            ),
            Reg8::C => self.with_cpu(
                Cpu { bc: ((self.cpu.bc / 256) * 256 + val) as u16, ..self.cpu },
            ),
            Reg8::D => self.with_cpu(
                Cpu { de: (val * 256 + self.cpu.de % 256) as u16, ..self.cpu },
            ),
            Reg8::E => self.with_cpu(
                Cpu { de: ((self.cpu.de / 256) * 256 + val) as u16, ..self.cpu },
            ),
            Reg8::H => self.with_cpu(
                Cpu { hl: (val * 256 + self.cpu.hl % 256) as u16, ..self.cpu },
            ),
            Reg8::L => self.with_cpu(
                Cpu { hl: ((self.cpu.hl / 256) * 256 + val) as u16, ..self.cpu },
            ),
            Reg8::MemHl => self.with_memory(self.memory.write(self.cpu.hl, val)),
        }
    }

    /// The machine after `value` is pushed: SP goes down by two, wrapping
    /// round, and the word is written at the new SP.
    pub open spec fn push(self, value: u16) -> GameBoyView {
        GameBoyView {
            cpu: Cpu { sp: self.cpu.sp.wrapping_sub(2), ..self.cpu },
            memory: self.memory.write_word(self.cpu.sp.wrapping_sub(2), value),
            ..self
        }
    }

    /// The word on top of the stack.
    pub open spec fn stack_top(self) -> u16 {
        self.memory.read_word(self.cpu.sp)
    }

    /// The machine after the top of the stack is removed: SP goes up by two,
    /// wrapping round.
    pub open spec fn pop(self) -> GameBoyView {
        self.with_cpu(Cpu { sp: self.cpu.sp.wrapping_add(2), ..self.cpu })
    }
}

/// The machine: processor and address space.
pub struct GameBoy {
    pub cpu: Cpu,
    pub memory: Memory,
    pub exit_requested: bool,
}

impl View for GameBoy {
    type V = GameBoyView;

    open spec fn view(&self) -> GameBoyView {
        GameBoyView { cpu: self.cpu, memory: self.memory@, exit_requested: self.exit_requested }
    }
}

impl GameBoy {
    pub open spec fn wf(&self) -> bool {
        self@.wf()
    }

    /// A machine with cleared registers, zeroed memory and no cartridge.
    pub fn new() -> (r: GameBoy)
        ensures
            r.wf(),
            r@ == (GameBoyView {
                cpu: Cpu::spec_new(),
                memory: MemoryView::empty(),
                exit_requested: false,
            }),
    {
        GameBoy { cpu: Cpu::new(), memory: Memory::new(), exit_requested: false }
    }

    /// Puts the registers and the I/O registers into their power-on state.
    pub fn power_on(&mut self)
        requires
            old(self).wf(),
        ensures
            final(self).wf(),
            final(self)@ == (GameBoyView {
                cpu: old(self).cpu.spec_power_on(),
                memory: MemoryView {
                    mem: crate::memory::power_on_cells(old(self)@.memory.mem),
                    ..old(self)@.memory
                },
                ..old(self)@
            }),
    {
        self.cpu.power_on();
        self.memory.power_on();
    }

    pub fn load_boot_rom(&mut self, boot_buf: &[u8])
        requires
            old(self).wf(),
            boot_buf@.len() <= 0x100,
        ensures
            final(self).wf(),
            final(self)@ == old(self)@.with_memory(
                MemoryView {
                    boot_rom: boot_buf@ + old(self)@.memory.boot_rom.subrange(
                        boot_buf@.len() as int,
                        0x100,
                    ),
                    ..old(self)@.memory
                },
            ),
    {
        self.memory.load_boot_rom(boot_buf);
    }

    pub fn load_rom(&mut self, rom_buf: &[u8])
        requires
            old(self).wf(),
            rom_image_ok(rom_buf@),
        ensures
            final(self).wf(),
            final(self)@ == old(self)@.with_memory(old(self)@.memory.with_rom(rom_buf@)),
    {
        self.memory.load_rom(rom_buf);
    }

    pub fn load_save_data(&mut self, save_buf: &[u8])
        requires
            old(self).wf(),
            old(self)@.memory.mbc1 is Some,
            save_buf@.len() >= old(self)@.memory.mbc1.unwrap().ram_banks.len(),
        ensures
            final(self).wf(),
            final(self)@ == old(self)@.with_memory(
                MemoryView {
                    mbc1: Some(old(self)@.memory.mbc1.unwrap().with_ram(save_buf@)),
                    ..old(self)@.memory
                },
            ),
    {
        self.memory.load_external_ram(save_buf);
    }

    pub fn request_exit(&mut self)
        ensures
            final(self)@ == (GameBoyView { exit_requested: true, ..old(self)@ }),
    {
        self.exit_requested = true;
    }

    pub fn exit_requested(&self) -> (r: bool)
        ensures
            r == self@.exit_requested,
    {
        self.exit_requested
    }
}

} // verus!
