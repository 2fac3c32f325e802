use gameboy::c_bindings::{Event, Key};
use gameboy::clock::Clock;
use gameboy::controller::{set_bit, Controller};
use gameboy::game_boy::GameBoy;
use gameboy::interrupts::{check_interrupts, get_interrupt_handler_addr, handle_interrupt};
use gameboy::libretro_types::{
    retro_device_subclass, JoypadInput, RetroDevice, RetroLogLevel, RetroPixelFormat, RetroRegion,
};
use gameboy::memory::Register;
use gameboy::{Button, ButtonState};

#[test]
fn divider_steps_every_256_cycles() {
    let mut gb = GameBoy::new();
    let mut clock = Clock::new();
    clock.tick(&mut gb, 255);
    assert_eq!(gb.memory.get_register(Register::Divider), 0);
    clock.tick(&mut gb, 1);
    assert_eq!(gb.memory.get_register(Register::Divider), 1);
    assert_eq!(clock.ticks, 256);
    gb.memory.set_register(Register::Divider, 0xFF);
    clock.tick(&mut gb, 255);
    clock.tick(&mut gb, 1);
    assert_eq!(gb.memory.get_register(Register::Divider), 0);
}

#[test]
fn timer_counter_overflow_raises_the_interrupt() {
    let mut gb = GameBoy::new();
    let mut clock = Clock::new();
    gb.memory.set_register(Register::TimerControl, 0b101);
    gb.memory.set_register(Register::TimerCounter, 0xFE);
    gb.memory.set_register(Register::TimerModulo, 0xAB);
    clock.tick(&mut gb, 15);
    assert_eq!(gb.memory.get_register(Register::TimerCounter), 0xFE);
    clock.tick(&mut gb, 1);
    assert_eq!(gb.memory.get_register(Register::TimerCounter), 0xFF);
    assert_eq!(gb.memory.get_register(Register::InterruptFlag), 0);
    clock.tick(&mut gb, 16);
    assert_eq!(gb.memory.get_register(Register::TimerCounter), 0xAB);
    assert_eq!(gb.memory.get_register(Register::InterruptFlag), 0b100);
}

#[test]
fn timer_periods() {
    for (control, period) in [(0b100u8, 1024u32), (0b101, 16), (0b110, 64), (0b111, 256)] {
        let mut gb = GameBoy::new();
        let mut clock = Clock::new();
        gb.memory.set_register(Register::TimerControl, control);
        for _ in 0..(period - 1) {
            clock.tick(&mut gb, 1);
        }
        assert_eq!(gb.memory.get_register(Register::TimerCounter), 0);
        clock.tick(&mut gb, 1);
        assert_eq!(gb.memory.get_register(Register::TimerCounter), 1);
    }
    let mut gb = GameBoy::new();
    let mut clock = Clock::new();
    gb.memory.set_register(Register::TimerControl, 0b001);
    clock.tick(&mut gb, 200);
    assert_eq!(gb.memory.get_register(Register::TimerCounter), 0);
}

#[test]
fn joypad_latches() {
    assert_eq!(set_bit(0x0F, 0b0100, false), 0x0B);
    assert_eq!(set_bit(0x0B, 0b0100, true), 0x0F);
    let mut controller = Controller::new();
    assert_eq!((controller.direction_states, controller.button_states), (0x0F, 0x0F));
    controller.down_changed(true);
    controller.right_changed(true);
    assert_eq!(controller.direction_states, 0b0110);
    controller.down_changed(false);
    controller.up_changed(true);
    controller.left_changed(true);
    assert_eq!(controller.direction_states, 0b1000);
    controller.a_changed(true);
    controller.start_changed(true);
    assert_eq!(controller.button_states, 0b0110);
    controller.b_changed(true);
    controller.select_changed(true);
    controller.a_changed(false);
    assert_eq!(controller.button_states, 0b0001);
}

#[test]
fn joypad_register_shows_the_selected_latch() {
    let mut gb = GameBoy::new();
    let mut controller = Controller::new();
    controller.a_changed(true);
    controller.down_changed(true);
    gb.memory.set_register(Register::Joypad, 0x10);
    controller.update_joypad_register(&mut gb);
    assert_eq!(gb.memory.get_register(Register::Joypad), 0x1E);
    gb.memory.set_register(Register::Joypad, 0x20);
    controller.update_joypad_register(&mut gb);
    assert_eq!(gb.memory.get_register(Register::Joypad), 0x27);
    gb.memory.set_register(Register::Joypad, 0x00);
    controller.update_joypad_register(&mut gb);
    assert_eq!(gb.memory.get_register(Register::Joypad), 0x0F);
    gb.memory.set_register(Register::Joypad, 0x35);
    controller.update_joypad_register(&mut gb);
    assert_eq!(gb.memory.get_register(Register::Joypad), 0x35);
}

#[test]
fn interrupts_are_taken_by_priority() {
    let mut gb = GameBoy::new();
    gb.memory.set_register(Register::InterruptEnable, 0x1F);
    gb.memory.set_register(Register::InterruptFlag, 0x16);
    gb.cpu.interrupt_enable_master = true;
    gb.cpu.is_halted = true;
    gb.cpu.pc = 0x1234;
    gb.cpu.sp = 0xFFFE;
    check_interrupts(&mut gb);
    assert_eq!(gb.cpu.pc, 0x48);
    assert_eq!(gb.cpu.sp, 0xFFFC);
    assert_eq!(gb.memory.get_word(0xFFFC), 0x1234);
    assert_eq!(gb.memory.get_register(Register::InterruptFlag), 0x14);
    assert!(!gb.cpu.interrupt_enable_master);
    assert!(!gb.cpu.is_halted);
    check_interrupts(&mut gb);
    assert_eq!(gb.cpu.pc, 0x48);
    gb.cpu.interrupt_enable_master = true;
    check_interrupts(&mut gb);
    assert_eq!(gb.cpu.pc, 0x50);
    assert_eq!(gb.memory.get_register(Register::InterruptFlag), 0x10);
}

#[test]
fn pending_interrupt_ends_a_halt_without_the_master_enable() {
    let mut gb = GameBoy::new();
    gb.memory.set_register(Register::InterruptEnable, 0x01);
    gb.memory.set_register(Register::InterruptFlag, 0x01);
    gb.cpu.is_halted = true;
    gb.cpu.pc = 0x0200;
    check_interrupts(&mut gb);
    assert!(!gb.cpu.is_halted);
    assert_eq!(gb.cpu.pc, 0x0200);
    assert_eq!(gb.memory.get_register(Register::InterruptFlag), 0x01);
    gb.cpu.is_halted = true;
    gb.memory.set_register(Register::InterruptEnable, 0x02);
    check_interrupts(&mut gb);
    assert!(gb.cpu.is_halted);
}

#[test]
fn interrupt_vectors() {
    assert_eq!(get_interrupt_handler_addr(0x01), 0x40);
    assert_eq!(get_interrupt_handler_addr(0x02), 0x48);
    assert_eq!(get_interrupt_handler_addr(0x04), 0x50);
    assert_eq!(get_interrupt_handler_addr(0x08), 0x58);
    assert_eq!(get_interrupt_handler_addr(0x10), 0x60);
    let mut gb = GameBoy::new();
    gb.cpu.sp = 0xD000;
    gb.cpu.pc = 0x4000;
    gb.cpu.interrupt_enable_master = true;
    handle_interrupt(&mut gb, 0xFF, 0x10);
    assert_eq!(gb.cpu.pc, 0x60);
    assert_eq!(gb.memory.get_register(Register::InterruptFlag), 0xEF);
    assert!(!gb.cpu.interrupt_enable_master);
}

#[test]
fn keys_name_buttons() {
    assert_eq!(Key::Up.to_button(), Button::Up);
    assert_eq!(Key::Select.to_button(), Button::Select);
    let event = Event { key: Key::A, is_pressed: true }.to_input_event();
    assert_eq!((event.button, event.state), (Button::A, ButtonState::Pressed));
    let event = Event { key: Key::Left, is_pressed: false }.to_input_event();
    assert_eq!((event.button, event.state), (Button::Left, ButtonState::Released));
}

#[test]
fn frontend_numbers() {
    assert_eq!(retro_device_subclass(RetroDevice::Joypad, 0), 0x101);
    assert_eq!(retro_device_subclass(RetroDevice::NoDevice, 2), 0x300);
    assert_eq!(retro_device_subclass(RetroDevice::Joypad, 0x00FF_FFFF), 0x0000_0001);
    assert_eq!(RetroPixelFormat::RetroPixelFormatXRGB8888.code(), 1);
    assert_eq!(RetroPixelFormat::RetroPixelFormatUnknown.code(), i32::MAX);
    assert_eq!(RetroLogLevel::Info.code(), 1);
    assert_eq!(RetroLogLevel::Dummy.code(), u32::MAX);
    assert_eq!(RetroRegion::Ntsc.code(), 0);
    assert_eq!(JoypadInput::A.code(), 8);
    assert_eq!(JoypadInput::R3.code(), 15);
}

#[test]
fn timer_counter_steps_once_for_each_period_passed() {
    let mut gb = GameBoy::new();
    let mut clock = Clock::new();
    gb.memory.set_register(Register::TimerControl, 0b101);
    clock.tick(&mut gb, 32);
    assert_eq!(gb.memory.get_register(Register::TimerCounter), 2);
    clock.tick(&mut gb, 15);
    assert_eq!(gb.memory.get_register(Register::TimerCounter), 2);
    clock.tick(&mut gb, 255);
    assert_eq!(gb.memory.get_register(Register::TimerCounter), 18);
    gb.memory.set_register(Register::TimerCounter, 0xFF);
    gb.memory.set_register(Register::TimerModulo, 0xFE);
    clock.tick(&mut gb, 50);
    assert_eq!(gb.memory.get_register(Register::TimerCounter), 0xFF);
    assert_eq!(gb.memory.get_register(Register::InterruptFlag), 0b100);
}
