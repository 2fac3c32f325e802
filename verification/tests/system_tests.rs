use gameboy::gpu::FRAME_BYTES;
use gameboy::memory::Register;
use gameboy::{
    Button, ButtonState, FrameOutcome, InitializationOptions, InputEvent, StepOutcome, System,
};

fn rom_with(program: &[u8]) -> Vec<u8> {
    let mut rom = vec![0u8; 0x8000];
    rom[0x100..0x100 + program.len()].copy_from_slice(program);
    rom
}

fn start(rom: &[u8]) -> System {
    let options = InitializationOptions {
        boot_rom: None,
        game_rom: rom,
        external_ram: None,
        debug_mode: false,
        sound_frequency: 48000,
    };
    assert!(System::accepts(&options));
    System::new(options)
}

#[test]
fn start_without_a_boot_rom() {
    let rom = rom_with(&[0x00]);
    let system = start(&rom);
    let cpu = system.gameboy.cpu;
    assert_eq!(cpu.pc, 0x0100);
    assert_eq!(cpu.get_a(), 0x01);
    assert_eq!(cpu.flag.value(), 0xB0);
    assert_eq!(cpu.bc, 0x0013);
    assert_eq!(cpu.de, 0x00D8);
    assert_eq!(cpu.hl, 0x014D);
    assert_eq!(cpu.sp, 0xFFFE);
    assert_eq!(system.gameboy.memory.get_byte(0xFF50), 1);
    assert_eq!(system.gameboy.memory.get_byte(0x0100), 0x00);
    assert!(!system.exit_requested());
    assert_eq!(System::screen_width(), 160);
    assert_eq!(System::screen_height(), 144);
    assert!(system.copy_external_ram_banks().is_none());
}

#[test]
fn start_with_a_boot_rom() {
    let rom = rom_with(&[0x00]);
    let boot = vec![0x3Cu8; 0x100];
    let options = InitializationOptions {
        boot_rom: Some(&boot),
        game_rom: &rom,
        external_ram: None,
        debug_mode: true,
        sound_frequency: 44100,
    };
    assert!(System::accepts(&options));
    let mut system = System::new(options);
    assert_eq!(system.gameboy.cpu.pc, 0x0000);
    assert!(system.debug_mode);
    assert_eq!(system.gameboy.memory.get_byte(0x0000), 0x3C);
    let mut frame = vec![0u8; FRAME_BYTES];
    let mut audio = Vec::new();
    assert_eq!(system.step(&mut frame, &mut audio), StepOutcome::Continue);
    assert_eq!(system.gameboy.cpu.pc, 0x0001);
    assert_eq!(system.gameboy.cpu.get_a(), 0x02);
}

#[test]
fn a_game_cannot_map_the_boot_overlay_again() {
    let mut rom = rom_with(&[0x3E, 0x00, 0xE0, 0x50, 0xFF]);
    rom[0x0038] = 0x18;
    rom[0x0039] = 0xFE;
    let mut system = start(&rom);
    let mut frame = vec![0u8; FRAME_BYTES];
    let mut audio = Vec::new();
    for _ in 0..3 {
        assert_eq!(system.step(&mut frame, &mut audio), StepOutcome::Continue);
    }
    assert_eq!(system.gameboy.memory.get_byte(0xFF50), 0);
    assert_eq!(system.gameboy.cpu.pc, 0x0038);
    assert_eq!(system.gameboy.memory.get_byte(0x0038), 0x18);
    assert_eq!(system.step(&mut frame, &mut audio), StepOutcome::Continue);
    assert_eq!(system.gameboy.cpu.pc, 0x0038);
}

#[test]
fn options_are_checked() {
    let rom = rom_with(&[0x00]);
    let long_boot = vec![0u8; 0x101];
    let mut options = InitializationOptions {
        boot_rom: Some(&long_boot),
        game_rom: &rom,
        external_ram: None,
        debug_mode: false,
        sound_frequency: 48000,
    };
    assert!(!System::accepts(&options));
    options.boot_rom = None;
    options.sound_frequency = 59;
    assert!(!System::accepts(&options));
    options.sound_frequency = 4_213_500;
    assert!(!System::accepts(&options));
    options.sound_frequency = 4_213_499;
    assert!(System::accepts(&options));
    options.sound_frequency = 60;
    assert!(System::accepts(&options));
    let mut battery = vec![0u8; 0x8000];
    battery[0x147] = 0x03;
    battery[0x149] = 0x02;
    let short_save = vec![0u8; 0x1FFF];
    let save = vec![0x5Au8; 0x2000];
    let mut options = InitializationOptions {
        boot_rom: None,
        game_rom: &battery,
        external_ram: Some(&short_save),
        debug_mode: false,
        sound_frequency: 48000,
    };
    assert!(!System::accepts(&options));
    options.external_ram = Some(&save);
    assert!(System::accepts(&options));
    let system = System::new(options);
    assert_eq!(system.gameboy.memory.get_byte(0xA000), 0x5A);
    assert_eq!(system.copy_external_ram_banks(), Some(save.clone()));
}

#[test]
fn one_frame_of_an_idle_loop() {
    let rom = rom_with(&[0x18, 0xFE]);
    let mut system = start(&rom);
    let mut frame = vec![0u8; FRAME_BYTES];
    let mut audio = Vec::new();
    let outcome = system.run_single_frame(&[], &mut frame, &mut audio, 1_000_000);
    assert_eq!(outcome, FrameOutcome::FrameReady);
    assert_eq!(system.frame_count, 1);
    assert_eq!(system.clock.ticks, 70224);
    assert_eq!(system.gpu.frame_step, 0);
    assert_eq!(system.gpu.scan_lines_rendered, 144);
    assert_eq!(system.gameboy.cpu.pc, 0x0100);
    assert!(frame.iter().all(|b| *b == 255));
    assert_eq!(audio.len(), 2 * 808);
    assert_eq!(system.gameboy.memory.get_register(Register::LcdcYCoord), 0);
    system.gameboy.memory.set_register(Register::BackgroundPaletteData, 0xFF);
    let outcome = system.run_single_frame(&[], &mut frame, &mut audio, 1_000_000);
    assert_eq!(outcome, FrameOutcome::FrameReady);
    assert_eq!(system.frame_count, 2);
    assert_eq!(&frame[0..4], &[0, 0, 0, 255]);
    assert_eq!(&frame[FRAME_BYTES - 4..], &[0, 0, 0, 255]);
}

#[test]
fn runs_end_for_every_reason() {
    let rom = rom_with(&[0x18, 0xFE]);
    let mut system = start(&rom);
    let mut frame = vec![0u8; FRAME_BYTES];
    let mut audio = Vec::new();
    assert_eq!(system.run_single_frame(&[], &mut frame, &mut audio, 10), FrameOutcome::OutOfSteps);
    assert_eq!(system.clock.ticks, 80);
    assert_eq!(system.run_single_frame(&[], &mut frame, &mut audio, 0), FrameOutcome::OutOfSteps);
    assert_eq!(system.clock.ticks, 80);
    system.request_exit();
    assert!(system.exit_requested());
    assert_eq!(
        system.run_single_frame(&[], &mut frame, &mut audio, 1_000_000),
        FrameOutcome::ExitRequested
    );
    assert_eq!(system.clock.ticks, 88);
    let rom = rom_with(&[0x00, 0xD3]);
    let mut system = start(&rom);
    assert_eq!(
        system.run_single_frame(&[], &mut frame, &mut audio, 1_000_000),
        FrameOutcome::Unimplemented { opcode: 0xD3, extended: false }
    );
    assert_eq!(system.gameboy.cpu.pc, 0x0101);
    assert_eq!(system.clock.ticks, 4);
    assert_eq!(system.execute_next_instruction(), None);
    assert_eq!(
        system.step(&mut frame, &mut audio),
        StepOutcome::Unimplemented { opcode: 0xD3, extended: false }
    );
}

#[test]
fn display_off_never_completes_a_frame() {
    let rom = rom_with(&[0x3E, 0x11, 0xE0, 0x40, 0x18, 0xFE]);
    let mut system = start(&rom);
    let mut frame = vec![0u8; FRAME_BYTES];
    let mut audio = Vec::new();
    let outcome = system.run_single_frame(&[], &mut frame, &mut audio, 50_000);
    assert_eq!(outcome, FrameOutcome::OutOfSteps);
    assert_eq!(system.gameboy.memory.get_register(Register::LcdControl), 0x11);
    assert_eq!(system.gameboy.memory.get_register(Register::LcdcYCoord), 0);
    assert_eq!(system.frame_count, 0);
}

#[test]
fn instructions_are_fetched_with_their_operands() {
    let rom = rom_with(&[0x3E, 0x80, 0xCB, 0x07, 0x21, 0x34, 0x12, 0x76, 0x00]);
    let mut system = start(&rom);
    assert_eq!(system.execute_next_instruction(), Some(8));
    assert_eq!(system.gameboy.cpu.get_a(), 0x80);
    assert_eq!(system.gameboy.cpu.pc, 0x0102);
    assert_eq!(system.execute_next_instruction(), Some(8));
    assert_eq!(system.gameboy.cpu.get_a(), 0x01);
    assert!(system.gameboy.cpu.flag.carry);
    assert_eq!(system.gameboy.cpu.pc, 0x0104);
    assert_eq!(system.execute_next_instruction(), Some(12));
    assert_eq!(system.gameboy.cpu.hl, 0x1234);
    assert_eq!(system.gameboy.cpu.pc, 0x0107);
    assert_eq!(system.execute_next_instruction(), Some(4));
    assert!(system.gameboy.cpu.is_halted);
    assert_eq!(system.gameboy.cpu.pc, 0x0108);
    assert_eq!(system.execute_next_instruction(), Some(4));
    assert_eq!(system.gameboy.cpu.pc, 0x0108);
}

#[test]
fn input_events_reach_the_joypad_register() {
    let rom = rom_with(&[0x3E, 0x10, 0xE0, 0x00, 0x18, 0xFE]);
    let mut system = start(&rom);
    let mut frame = vec![0u8; FRAME_BYTES];
    let mut audio = Vec::new();
    let events = [
        InputEvent { button: Button::A, state: ButtonState::Pressed },
        InputEvent { button: Button::Start, state: ButtonState::Pressed },
        InputEvent { button: Button::A, state: ButtonState::Released },
        InputEvent { button: Button::Left, state: ButtonState::Pressed },
    ];
    let outcome = system.run_single_frame(&events, &mut frame, &mut audio, 1_000_000);
    assert_eq!(outcome, FrameOutcome::FrameReady);
    assert_eq!(system.controller.button_states, 0b0111);
    assert_eq!(system.controller.direction_states, 0b1101);
    assert_eq!(system.gameboy.memory.get_register(Register::Joypad), 0x17);
    system.apply_events(&[InputEvent { button: Button::Start, state: ButtonState::Released }]);
    assert_eq!(system.controller.button_states, 0b1111);
}

#[test]
fn timer_interrupt_wakes_a_halted_processor() {
    let rom = rom_with(&[
        0x3E, 0x04, 0xE0, 0xFF, 0x3E, 0x05, 0xE0, 0x07, 0xFB, 0x76, 0x18, 0xFE,
    ]);
    let mut system = start(&rom);
    let mut frame = vec![0u8; FRAME_BYTES];
    let mut audio = Vec::new();
    for _ in 0..6 {
        assert_eq!(system.step(&mut frame, &mut audio), StepOutcome::Continue);
    }
    assert!(system.gameboy.cpu.is_halted);
    let mut steps = 0;
    while system.gameboy.cpu.is_halted {
        system.step(&mut frame, &mut audio);
        steps += 1;
        assert!(steps < 2000);
    }
    assert_eq!(system.gameboy.cpu.pc, 0x0050);
    assert_eq!(system.gameboy.cpu.sp, 0xFFFC);
    assert_eq!(system.gameboy.memory.get_word(0xFFFC), 0x010A);
    assert!(!system.gameboy.cpu.interrupt_enable_master);
    assert_eq!(system.gameboy.memory.get_register(Register::InterruptFlag) & 0x04, 0);
}
