use vstd::prelude::*;

pub mod c_bindings;
pub mod cb_instructions;
pub mod clock;
pub mod controller;
pub mod cpu;
pub mod game_boy;
pub mod gpu;
pub mod instructions;
pub mod interrupts;
pub mod libretro_types;
pub mod math;
pub mod mbc1;
pub mod memory;
pub mod sound;
pub mod util;

use crate::clock::{ticks_after, timer_step, Clock};
use crate::controller::{joypad_value, Controller};
use crate::cpu::{Cpu, InstructionSet};
use crate::game_boy::{GameBoy, GameBoyView};
use crate::gpu::{lcd_step, Gpu, GpuView, FRAME_BYTES};
use crate::instructions::decode;
use crate::mbc1::{declared_ram_size, MemoryBankController1};
use crate::memory::{power_on_cells, rom_image_ok, uses_mbc1, Memory, MemoryView};
use crate::sound::{SoundController, SoundRun};

verus! {

#[derive(Copy, Clone, Debug, PartialEq, Eq, Structural)]
pub enum ButtonState {
    Pressed,
    Released,
}

#[derive(Copy, Clone, Debug, PartialEq, Eq, Structural)]
pub enum Button {
    Up,
    Down,
    Left,
    Right,
    A,
    B,
    Start,
    Select,
}

/// One button going down or up.
#[derive(Copy, Clone, Debug, PartialEq, Eq, Structural)]
pub struct InputEvent {
    pub button: Button,
    pub state: ButtonState,
}

/// What a machine is started from.
pub struct InitializationOptions<'a> {
    pub boot_rom: Option<&'a [u8]>,
    pub game_rom: &'a [u8],
    pub external_ram: Option<&'a [u8]>,
    pub debug_mode: bool,
    pub sound_frequency: u32,
}

/// How one step of the machine ended.
#[derive(Copy, Clone, Debug, PartialEq, Eq, Structural)]
pub enum StepOutcome {
    /// The step ran and the frame goes on.
    Continue,
    /// The step completed a frame.
    FrameReady,
    /// The exit flag is set.
    ExitRequested,
    /// The byte at PC, or after the prefix 0xCB at PC, has no instruction.
    /// The machine was left as it was.
    Unimplemented { opcode: u8, extended: bool },
}

/// How a run for one frame ended.
#[derive(Copy, Clone, Debug, PartialEq, Eq, Structural)]
pub enum FrameOutcome {
    /// A frame is complete.
    FrameReady,
    /// The exit flag is set.
    ExitRequested,
    /// The run met a byte that has no instruction.
    Unimplemented { opcode: u8, extended: bool },
    /// The allowed number of steps ran out before the frame was complete.
    OutOfSteps,
}

/// The joypad after one event.
pub open spec fn controller_after_event(controller: Controller, event: InputEvent) -> Controller {
    let released = event.state != ButtonState::Pressed;
    match event.button {
        Button::A => Controller {
            button_states: crate::controller::spec_set_bit(
                controller.button_states,
                0b0001,
                released,
            ),
            ..controller
        },
        Button::B => Controller {
            button_states: crate::controller::spec_set_bit(
                controller.button_states,
                0b0010,
                released,
            ),
            ..controller
        },
        Button::Select => Controller {
            button_states: crate::controller::spec_set_bit(
                controller.button_states,
                0b0100,
                released,
            ),
            ..controller
        },
        Button::Start => Controller {
            button_states: crate::controller::spec_set_bit(
                controller.button_states,
                0b1000,
                released,
            ),
            ..controller
        },
        Button::Right => Controller {
            direction_states: crate::controller::spec_set_bit(
                controller.direction_states,
                0b0001,
                released,
            ),
            ..controller
        },
        Button::Left => Controller {
            direction_states: crate::controller::spec_set_bit(
                controller.direction_states,
                0b0010,
                released,
            ),
            ..controller
        },
        Button::Up => Controller {
            direction_states: crate::controller::spec_set_bit(
                controller.direction_states,
                0b0100,
                released,
            ),
            ..controller
        },
        Button::Down => Controller {
            direction_states: crate::controller::spec_set_bit(
                controller.direction_states,
                0b1000,
                released,
            ),
            ..controller
        },
    }
}

/// The joypad after a list of events, taken in order.
pub open spec fn controller_after(controller: Controller, events: Seq<InputEvent>) -> Controller
    decreases events.len(),
{
    if events.len() == 0 {
        controller
    } else {
        controller_after_event(controller_after(controller, events.drop_last()), events.last())
    }
}

/// Whether the byte at PC is the prefix of the extended table.
pub open spec fn fetch_extended(g: GameBoyView) -> bool {
    g.memory.read(g.cpu.pc) == 0xCB
}

/// The opcode byte of the instruction at PC: the byte at PC, or the byte
/// after it when that is the prefix 0xCB.
pub open spec fn fetch_opcode(g: GameBoyView) -> u8 {
    if fetch_extended(g) {
        g.memory.read(g.cpu.pc.wrapping_add(1))
    } else {
        g.memory.read(g.cpu.pc)
    }
}

/// The number of bytes of the opcode: two with the prefix, else one.
pub open spec fn opcode_length(g: GameBoyView) -> u16 {
    if fetch_extended(g) {
        2
    } else {
        1
    }
}

/// The machine after the processor ran the instruction at PC, and the
/// cycles that took; `None` where the opcode has no instruction. A halted
/// processor lets four cycles pass. Else the two bytes after the opcode are
/// read as operands, PC moves past the instruction, and the operation runs.
pub open spec fn cpu_step(g: GameBoyView) -> Option<(GameBoyView, u8)> {
    if g.cpu.is_halted {
        Some((g, 4u8))
    } else {
        match decode(fetch_extended(g), fetch_opcode(g)) {
            None => None,
            Some(instruction) => Some(
                (
                    instruction.operation.apply(
                        g.with_pc(
                            g.cpu.pc.wrapping_add(
                                (instruction.operand_length + opcode_length(g)) as u16,
                            ),
                        ),
                        g.memory.read(g.cpu.pc.wrapping_add(opcode_length(g))),
                        g.memory.read(g.cpu.pc.wrapping_add((opcode_length(g) + 1) as u16)),
                    ),
                    instruction.cycles,
                ),
            ),
        }
    }
}

/// The mathematical model of the whole system.
pub struct SystemView {
    pub gameboy: GameBoyView,
    pub gpu: GpuView,
    pub sound: SoundController,
    pub clock: Clock,
    pub controller: Controller,
    pub debug_mode: bool,
    pub frame_count: u32,
}

/// The system with the frame and the sound it has put out.
pub struct Machine {
    pub system: SystemView,
    pub frame: Seq<u8>,
    pub audio: Seq<u8>,
}

impl Machine {
    /// The machine after one step, for a step whose instruction exists: the
    /// processor runs one instruction; the timer, the sound system and the
    /// picture processor see its cycles, in this order; the joypad register is
    /// refreshed; the interrupt controller has its turn; the sound trigger
    /// latches are cleared. A completed frame is counted unless the exit flag
    /// is set.
    #[verifier::opaque]
    pub open spec fn stepped(self) -> Machine {
        let s = self.system;
        let (g1, cycles) = cpu_step(s.gameboy).unwrap();
        let timed = timer_step(g1.memory, s.clock.ticks, cycles);
        let sound = SoundController::cycles(
            SoundRun { sound: s.sound, memory: timed, output: self.audio },
            cycles as nat,
        );
        let lcd = lcd_step(s.gpu, sound.memory, self.frame, cycles);
        let joypad = lcd.memory.with_cell(
            0xFF00,
            joypad_value(
                lcd.memory.mem[0xFF00],
                s.controller.direction_states,
                s.controller.button_states,
            ),
        );
        let served = g1.with_memory(joypad).service_interrupts();
        let gameboy = served.with_memory(
            MemoryView {
                channel_1_triggered: false,
                channel_2_triggered: false,
                channel_3_triggered: false,
                channel_4_triggered: false,
                ..served.memory
            },
        );
        Machine {
            system: SystemView {
                gameboy,
                gpu: lcd.gpu,
                sound: sound.sound,
                clock: Clock { ticks: ticks_after(s.clock.ticks, cycles) },
                frame_count: if lcd.ready && !gameboy.exit_requested {
                    s.frame_count.wrapping_add(1)
                } else {
                    s.frame_count
                },
                ..s
            },
            frame: lcd.frame,
            audio: sound.output,
        }
    }

    /// Whether the step of `stepped` completes a frame.
    #[verifier::opaque]
    pub open spec fn completes_frame(self) -> bool {
        let s = self.system;
        let (g1, cycles) = cpu_step(s.gameboy).unwrap();
        let timed = timer_step(g1.memory, s.clock.ticks, cycles);
        let sound = SoundController::cycles(
            SoundRun { sound: s.sound, memory: timed, output: self.audio },
            cycles as nat,
        );
        lcd_step(s.gpu, sound.memory, self.frame, cycles).ready
    }

    /// How one step ends.
    #[verifier::opaque]
    pub open spec fn step_outcome(self) -> StepOutcome {
        if cpu_step(self.system.gameboy) is None {
            StepOutcome::Unimplemented {
                opcode: fetch_opcode(self.system.gameboy),
                extended: fetch_extended(self.system.gameboy),
            }
        } else if self.stepped().system.gameboy.exit_requested {
            StepOutcome::ExitRequested
        } else if self.completes_frame() {
            StepOutcome::FrameReady
        } else {
            StepOutcome::Continue
        }
    }

    /// The machine after one step. A byte without an instruction leaves it as
    /// it is.
    #[verifier::opaque]
    pub open spec fn step(self) -> Machine {
        if cpu_step(self.system.gameboy) is None {
            self
        } else {
            self.stepped()
        }
    }

    /// The machine after a run of at most `max_steps` steps that ends with
    /// the first step that does not end in `Continue`.
    pub open spec fn run(self, max_steps: nat) -> Machine
        decreases max_steps,
    {
        if max_steps == 0 {
            self
        } else if self.step_outcome() == StepOutcome::Continue {
            self.step().run((max_steps - 1) as nat)
        } else {
            self.step()
        }
    }

    /// How a run of at most `max_steps` steps ends.
    pub open spec fn run_outcome(self, max_steps: nat) -> FrameOutcome
        decreases max_steps,
    {
        if max_steps == 0 {
            FrameOutcome::OutOfSteps
        } else {
            match self.step_outcome() {
                StepOutcome::Continue => self.step().run_outcome((max_steps - 1) as nat),
                StepOutcome::FrameReady => FrameOutcome::FrameReady,
                StepOutcome::ExitRequested => FrameOutcome::ExitRequested,
                StepOutcome::Unimplemented { opcode, extended } => FrameOutcome::Unimplemented {
                    opcode,
                    extended,
                },
            }
        }
    }
}

/// Whether a machine can be started from the options: the cartridge image
/// can be loaded, a boot ROM has at most 256 bytes, the sound frequency puts
/// between one and 70,224 samples into a frame (60 to 4,213,499), and a save
/// image for a cartridge with a battery holds all of its external RAM.
pub open spec fn options_ok(options: InitializationOptions) -> bool {
    &&& rom_image_ok(options.game_rom@)
    &&& (options.boot_rom is Some ==> options.boot_rom.unwrap()@.len() <= 0x100)
    &&& 60 <= options.sound_frequency <= 4_213_499
    &&& (options.external_ram is Some && uses_mbc1(options.game_rom@[0x147])
        && options.game_rom@[0x147] == 0x03 ==> options.external_ram.unwrap()@.len()
        >= declared_ram_size(options.game_rom@))
}

/// The machine right after power-on, before anything is loaded.
pub open spec fn powered_on() -> GameBoyView {
    GameBoyView {
        cpu: Cpu::spec_new().spec_power_on(),
        memory: MemoryView { mem: power_on_cells(MemoryView::empty().mem), ..MemoryView::empty() },
        exit_requested: false,
    }
}

/// The machine that a system starts with. With a boot ROM the overlay holds
/// it and PC starts at zero; without one the overlay is switched off and PC
/// starts at 0x0100. A save image is loaded if the cartridge has a battery.
pub open spec fn initial_machine(options: InitializationOptions) -> GameBoyView {
    let on = powered_on();
    let booted = match options.boot_rom {
        Some(boot_rom) => on.with_memory(
            MemoryView {
                boot_rom: boot_rom@ + on.memory.boot_rom.subrange(boot_rom@.len() as int, 0x100),
                ..on.memory
            },
        ),
        None => GameBoyView {
            cpu: Cpu { pc: 0x100, ..on.cpu },
            memory: on.memory.write(0xFF50, 1),
            ..on
        },
    };
    let loaded = booted.with_memory(booted.memory.with_rom(options.game_rom@));
    if options.external_ram is Some && loaded.memory.use_battery() {
        loaded.with_memory(
            MemoryView {
                mbc1: Some(loaded.memory.mbc1.unwrap().with_ram(options.external_ram.unwrap()@)),
                ..loaded.memory
            },
        )
    } else {
        loaded
    }
}

/// The whole system: the machine and what surrounds it.
pub struct System {
    pub gameboy: GameBoy,
    pub gpu: Gpu,
    pub sound: SoundController,
    pub instruction_set: InstructionSet,
    pub clock: Clock,
    pub controller: Controller,
    pub debug_mode: bool,
    pub checkpoint: time::Instant,
    pub frame_count: u32,
}

impl View for System {
    type V = SystemView;

    open spec fn view(&self) -> SystemView {
        SystemView {
            gameboy: self.gameboy@,
            gpu: self.gpu@,
            sound: self.sound,
            clock: self.clock,
            controller: self.controller,
            debug_mode: self.debug_mode,
            frame_count: self.frame_count,
        }
    }
}

impl System {
    pub open spec fn wf(&self) -> bool {
        &&& self.gameboy.wf()
        &&& self.gpu.wf()
        &&& self.sound.wf()
        &&& self.instruction_set.wf()
    }

    /// Whether `new` accepts the options.
    pub fn accepts(options: &InitializationOptions) -> (ok: bool)
        ensures
            ok == options_ok(*options),
    {
        if !Memory::accepts_rom(options.game_rom) {
            return false;
        }
        match options.boot_rom {
            Some(boot_rom) => {
                if boot_rom.len() > 0x100 {
                    return false;
                }
            },
            None => {},
        }
        if options.sound_frequency < 60 || options.sound_frequency > 4_213_499 {
            return false;
        }
        match options.external_ram {
            Some(external_ram) => {
                let mbc_type = options.game_rom[0x147];
                if mbc_type == 0x03 {
                    external_ram.len() >= MemoryBankController1::external_ram_size(
                        options.game_rom,
                    )
                } else {
                    true
                }
            },
            None => true,
        }
    }

    /// Starts a system: powers the machine on, maps the boot ROM or skips
    /// it, loads the cartridge, and restores the external RAM of a cartridge
    /// with a battery.
    pub fn new(options: InitializationOptions) -> (r: System)
        requires
            options_ok(options),
        ensures
            r.wf(),
            r@ == (SystemView {
                gameboy: initial_machine(options),
                gpu: GpuView {
                    frame_step: 0,
                    scan_lines_rendered: 0,
                    line_sprites: Seq::empty(),
                },
                sound: SoundController::spec_new(options.sound_frequency),
                clock: Clock { ticks: 0 },
                controller: Controller { direction_states: 0x0F, button_states: 0x0F },
                debug_mode: options.debug_mode,
                frame_count: 0,
            }),
            options.boot_rom is None ==> {
                &&& r.gameboy.cpu.pc == 0x0100
                &&& r.gameboy.cpu.a == 0x01
                &&& crate::cpu::flags_to_byte(r.gameboy.cpu.flag) == 0xB0
                &&& r.gameboy.cpu.bc == 0x0013
                &&& r.gameboy.cpu.de == 0x00D8
                &&& r.gameboy.cpu.hl == 0x014D
                &&& r.gameboy.cpu.sp == 0xFFFE
            },
    {
        let mut gameboy = GameBoy::new();
        let instruction_set = InstructionSet::new();
        let clock = Clock::new();
        let gpu = Gpu::new();
        let sound = SoundController::new(options.sound_frequency);
        let controller = Controller::new();

        gameboy.power_on();
        match options.boot_rom {
            Some(boot_rom) => {
                gameboy.load_boot_rom(boot_rom);
            },
            None => {
                gameboy.memory.set_byte(0xFF50, 1);
                gameboy.cpu.pc = 0x100;
            },
        }
        gameboy.load_rom(options.game_rom);
        match options.external_ram {
            Some(external_ram) => {
                if gameboy.memory.use_battery() {
                    gameboy.load_save_data(external_ram);
                }
            },
            None => {},
        }
        System {
            gameboy,
            instruction_set,
            gpu,
            sound,
            clock,
            controller,
            debug_mode: options.debug_mode,
            checkpoint: crate::gpu::render_clock_now(),
            frame_count: 0,
        }
    }

    pub fn exit_requested(&self) -> (r: bool)
        ensures
            r == self@.gameboy.exit_requested,
    {
        self.gameboy.exit_requested()
    }

    pub fn request_exit(&mut self)
        ensures
            final(self)@ == (SystemView {
                gameboy: GameBoyView { exit_requested: true, ..old(self)@.gameboy },
                ..old(self)@
            }),
            old(self).wf() ==> final(self).wf(),
    {
        self.gameboy.request_exit();
    }

    /// The external RAM as a save image, if the cartridge keeps it on a
    /// battery.
    pub fn copy_external_ram_banks(&self) -> (r: Option<Vec<u8>>)
        ensures
            match r {
                Some(image) => self@.gameboy.memory.use_battery() && image@
                    == self@.gameboy.memory.mbc1.unwrap().ram_banks,
                None => !self@.gameboy.memory.use_battery(),
            },
    {
        if self.gameboy.memory.use_battery() {
            Some(self.gameboy.memory.get_external_ram_banks())
        } else {
            None
        }
    }

    pub fn screen_width() -> (r: u32)
        ensures
            r == 160,
    {
        160
    }

    pub fn screen_height() -> (r: u32)
        ensures
            r == 144,
    {
        144
    }

    /// Applies one input event to the joypad.
    pub fn apply_event(&mut self, event: InputEvent)
        ensures
            final(self)@ == (SystemView {
                controller: controller_after_event(old(self).controller, event),
                ..old(self)@
            }),
            old(self).wf() ==> final(self).wf(),
    {
        let is_pressed = event.state == ButtonState::Pressed;
        match event.button {
            Button::A => self.controller.a_changed(is_pressed),
            Button::B => self.controller.b_changed(is_pressed),
            Button::Start => self.controller.start_changed(is_pressed),
            Button::Select => self.controller.select_changed(is_pressed),
            Button::Up => self.controller.up_changed(is_pressed),
            Button::Down => self.controller.down_changed(is_pressed),
            Button::Left => self.controller.left_changed(is_pressed),
            Button::Right => self.controller.right_changed(is_pressed),
        }
    }

    /// Runs the instruction at PC. Returns the cycles it took, or `None`
    /// where the opcode has no instruction; the machine is then left as it was.
    pub fn execute_next_instruction(&mut self) -> (r: Option<u8>)
        requires
            old(self).wf(),
        ensures
            final(self).wf(),
            match cpu_step(old(self)@.gameboy) {
                Some((gameboy, cycles)) => r == Some(cycles) && final(self)@ == (SystemView {
                    gameboy,
                    ..old(self)@
                }),
                None => r is None && final(self)@ == old(self)@,
            },
            r is Some ==> r.unwrap() >= 4,
    {
        if self.gameboy.cpu.is_halted {
            return Some(4);
        }
        let pc = self.gameboy.cpu.pc;
        let mut opcode = self.gameboy.memory.get_byte(pc);
        let use_cb = opcode == 0xCB;
        if use_cb {
            opcode = self.gameboy.memory.get_byte(pc.wrapping_add(1));
        }
        let length: u16 = if use_cb { 2 } else { 1 };
        let arg1 = self.gameboy.memory.get_byte(pc.wrapping_add(length));
        let arg2 = self.gameboy.memory.get_byte(pc.wrapping_add(length + 1));

        let instruction = if use_cb {
            self.instruction_set.get_cb_instruction(opcode)
        } else {
            self.instruction_set.get_instruction(opcode)
        };
        match instruction {
            None => None,
            Some(instruction) => {
                proof {
                    crate::instructions::lemma_decode_opcode(use_cb, opcode);
                    crate::instructions::lemma_cycles(use_cb, opcode);
                }
                let operation = instruction.operation;
                let cycles = instruction.cycles;
                self.gameboy.cpu.pc = pc.wrapping_add((instruction.operand_length as u16) + length);
                operation.run(&mut self.gameboy, arg1, arg2);
                Some(cycles)
            },
        }
    }

    /// Runs one step of the machine: one instruction, then the timer, the
    /// sound system and the picture processor for its cycles, the joypad
    /// register, the interrupt controller, and the sound trigger latches.
    pub fn step(&mut self, framebuffer: &mut Vec<u8>, sound_buffer: &mut Vec<u8>) -> (outcome:
        StepOutcome)
        requires
            old(self).wf(),
            old(framebuffer)@.len() >= FRAME_BYTES,
        ensures
            final(self).wf(),
            final(framebuffer)@.len() == old(framebuffer)@.len(),
            (Machine { system: final(self)@, frame: final(framebuffer)@, audio: final(sound_buffer)@ })
                == (Machine {
                system: old(self)@,
                frame: old(framebuffer)@,
                audio: old(sound_buffer)@,
            }).step(),
            outcome == (Machine {
                system: old(self)@,
                frame: old(framebuffer)@,
                audio: old(sound_buffer)@,
            }).step_outcome(),
    {
        proof {
            reveal(Machine::stepped);
            reveal(Machine::completes_frame);
            reveal(Machine::step);
            reveal(Machine::step_outcome);
        }
        let pc = self.gameboy.cpu.pc;
        let cycles_elapsed = match self.execute_next_instruction() {
            Some(cycles) => cycles,
            None => {
                let first = self.gameboy.memory.get_byte(pc);
                let extended = first == 0xCB;
                let opcode = if extended {
                    self.gameboy.memory.get_byte(pc.wrapping_add(1))
                } else {
                    first
                };
                return StepOutcome::Unimplemented { opcode, extended };
            },
        };
        self.clock.tick(&mut self.gameboy, cycles_elapsed);
        self.sound.update(&mut self.gameboy, sound_buffer, cycles_elapsed);
        let frame_end = self.gpu.update(&mut self.gameboy, framebuffer, cycles_elapsed);
        self.controller.update_joypad_register(&mut self.gameboy);
        crate::interrupts::check_interrupts(&mut self.gameboy);
        self.gameboy.memory.reset_triggers();
        if self.gameboy.exit_requested() {
            return StepOutcome::ExitRequested;
        }
        if frame_end {
            self.frame_count = self.frame_count.wrapping_add(1);
            return StepOutcome::FrameReady;
        }
        StepOutcome::Continue
    }

    /// Applies the input events to the joypad, in order.
    pub fn apply_events(&mut self, events: &[InputEvent])
        ensures
            final(self)@ == (SystemView {
                controller: controller_after(old(self).controller, events@),
                ..old(self)@
            }),
            old(self).wf() ==> final(self).wf(),
    {
        let mut i: usize = 0;
        while i < events.len()
            invariant
                i <= events@.len(),
                old(self).wf() ==> self.wf(),
                self@ == (SystemView {
                    controller: controller_after(old(self).controller, events@.subrange(0, i as int)),
                    ..old(self)@
                }),
            decreases events@.len() - i,
        {
            self.apply_event(events[i]);
            assert(events@.subrange(0, i + 1).drop_last() =~= events@.subrange(0, i as int));
            i += 1;
        }
        assert(events@.subrange(0, i as int) =~= events@);
    }

    /// Runs the machine until a frame is complete, the exit flag is set, a
    /// byte without an instruction is met, or `max_steps` steps have run.
    pub fn run_steps(
        &mut self,
        framebuffer: &mut Vec<u8>,
        sound_buffer: &mut Vec<u8>,
        max_steps: u64,
    ) -> (outcome: FrameOutcome)
        requires
            old(self).wf(),
            old(framebuffer)@.len() >= FRAME_BYTES,
        ensures
            final(self).wf(),
            final(framebuffer)@.len() == old(framebuffer)@.len(),
            (Machine { system: final(self)@, frame: final(framebuffer)@, audio: final(sound_buffer)@ })
                == (Machine {
                system: old(self)@,
                frame: old(framebuffer)@,
                audio: old(sound_buffer)@,
            }).run(max_steps as nat),
            outcome == (Machine {
                system: old(self)@,
                frame: old(framebuffer)@,
                audio: old(sound_buffer)@,
            }).run_outcome(max_steps as nat),
    {
        let ghost start = Machine {
            system: self@,
            frame: framebuffer@,
            audio: sound_buffer@,
        };
        let mut remaining = max_steps;
        while remaining > 0
            invariant
                self.wf(),
                framebuffer@.len() == old(framebuffer)@.len(),
                framebuffer@.len() >= FRAME_BYTES,
                start == (Machine {
                    system: old(self)@,
                    frame: old(framebuffer)@,
                    audio: old(sound_buffer)@,
                }),
                start.run(max_steps as nat) == (Machine {
                    system: self@,
                    frame: framebuffer@,
                    audio: sound_buffer@,
                }).run(remaining as nat),
                start.run_outcome(max_steps as nat) == (Machine {
                    system: self@,
                    frame: framebuffer@,
                    audio: sound_buffer@,
                }).run_outcome(remaining as nat),
            decreases remaining,
        {
            match self.step(framebuffer, sound_buffer) {
                StepOutcome::Continue => {},
                StepOutcome::FrameReady => {
                    return FrameOutcome::FrameReady;
                },
                StepOutcome::ExitRequested => {
                    return FrameOutcome::ExitRequested;
                },
                StepOutcome::Unimplemented { opcode, extended } => {
                    return FrameOutcome::Unimplemented { opcode, extended };
                },
            }
            remaining -= 1;
        }
        FrameOutcome::OutOfSteps
    }

    /// Applies the input events in order, then runs the machine until a
    /// frame is complete, the exit flag is set, a byte without an instruction
    /// is met, or `max_steps` steps have run.
    pub fn run_single_frame(
        &mut self,
        events: &[InputEvent],
        framebuffer: &mut Vec<u8>,
        sound_buffer: &mut Vec<u8>,
        max_steps: u64,
    ) -> (outcome: FrameOutcome)
        requires
            old(self).wf(),
            old(framebuffer)@.len() >= FRAME_BYTES,
        ensures
            final(self).wf(),
            final(framebuffer)@.len() == old(framebuffer)@.len(),
            (Machine { system: final(self)@, frame: final(framebuffer)@, audio: final(sound_buffer)@ })
                == (Machine {
                system: SystemView {
                    controller: controller_after(old(self).controller, events@),
                    ..old(self)@
                },
                frame: old(framebuffer)@,
                audio: old(sound_buffer)@,
            }).run(max_steps as nat),
            outcome == (Machine {
                system: SystemView {
                    controller: controller_after(old(self).controller, events@),
                    ..old(self)@
                },
                frame: old(framebuffer)@,
                audio: old(sound_buffer)@,
            }).run_outcome(max_steps as nat),
    {
        self.apply_events(events);
        self.run_steps(framebuffer, sound_buffer, max_steps)
    }
}

} // verus!
