use gameboy::game_boy::GameBoy;
use gameboy::gpu::{
    background_index, get_bg_tile_addr, get_color, get_palette_color, get_palette_index,
    get_sprite_tile_addr, get_sprites_in_scan_line, get_tile_index, line_at, mode_at, pixel,
    set_pixel, sprite_size, Gpu, Sprite, TileAddressingMode, FRAME_BYTES,
};
use gameboy::memory::Register;

fn machine() -> GameBoy {
    let mut gb = GameBoy::new();
    gb.power_on();
    gb
}

fn put_sprite(gb: &mut GameBoy, index: u16, y: u8, x: u8, tile: u8, attributes: u8) {
    gb.memory.set_owned_byte(0xFE00 + 4 * index, y);
    gb.memory.set_owned_byte(0xFE00 + 4 * index + 1, x);
    gb.memory.set_owned_byte(0xFE00 + 4 * index + 2, tile);
    gb.memory.set_owned_byte(0xFE00 + 4 * index + 3, attributes);
}

#[test]
fn shades_of_grey() {
    assert_eq!(get_color(0), 255);
    assert_eq!(get_color(1), 192);
    assert_eq!(get_color(2), 96);
    assert_eq!(get_color(3), 0);
    let mut frame = vec![7u8; FRAME_BYTES];
    set_pixel(&mut frame, 159, 143, 2);
    assert_eq!(&frame[FRAME_BYTES - 4..], &[96, 96, 96, 255]);
    assert_eq!(frame[FRAME_BYTES - 5], 7);
    set_pixel(&mut frame, 1, 0, 3);
    assert_eq!(&frame[0..8], &[7, 7, 7, 7, 0, 0, 0, 255]);
}

#[test]
fn palette_decoding() {
    assert_eq!(get_palette_index(0x0001, 0), 1);
    assert_eq!(get_palette_index(0x0100, 0), 2);
    assert_eq!(get_palette_index(0x8080, 7), 3);
    assert_eq!(get_palette_index(0x8080, 6), 0);
    assert_eq!(get_palette_index(0x3C7E, 1), 1);
    assert_eq!(get_palette_index(0x3C7E, 2), 3);
    assert_eq!(get_palette_color(0b1110_0100, 0), 0);
    assert_eq!(get_palette_color(0b1110_0100, 1), 1);
    assert_eq!(get_palette_color(0b1110_0100, 2), 2);
    assert_eq!(get_palette_color(0b1110_0100, 3), 3);
    assert_eq!(get_palette_color(0xFC, 1), 3);
}

#[test]
fn tile_addresses() {
    assert_eq!(get_tile_index(0, 0), 0);
    assert_eq!(get_tile_index(255, 255), 1023);
    assert_eq!(get_tile_index(8, 16), 65);
    assert_eq!(get_sprite_tile_addr(0), 0x8000);
    assert_eq!(get_sprite_tile_addr(255), 0x8FF0);
    assert_eq!(get_bg_tile_addr(TileAddressingMode::Unsigned, 0x80), 0x8800);
    assert_eq!(get_bg_tile_addr(TileAddressingMode::Signed, 0), 0x9000);
    assert_eq!(get_bg_tile_addr(TileAddressingMode::Signed, 127), 0x97F0);
    assert_eq!(get_bg_tile_addr(TileAddressingMode::Signed, 128), 0x8800);
    assert_eq!(get_bg_tile_addr(TileAddressingMode::Signed, 255), 0x8FF0);
}

#[test]
fn modes_and_lines_of_a_frame() {
    assert_eq!(mode_at(0), 2);
    assert_eq!(mode_at(79), 2);
    assert_eq!(mode_at(80), 3);
    assert_eq!(mode_at(251), 3);
    assert_eq!(mode_at(252), 0);
    assert_eq!(mode_at(455), 0);
    assert_eq!(mode_at(456), 2);
    assert_eq!(mode_at(65663), 0);
    assert_eq!(mode_at(65664), 1);
    assert_eq!(mode_at(70223), 1);
    assert_eq!(line_at(0), 0);
    assert_eq!(line_at(251), 0);
    assert_eq!(line_at(252), 1);
    assert_eq!(line_at(65663), 144);
    assert_eq!(line_at(69563), 152);
    assert_eq!(line_at(69564), 153);
    assert_eq!(line_at(70019), 153);
    assert_eq!(line_at(70020), 0);
    assert_eq!(line_at(70223), 0);
}

#[test]
fn a_frame_takes_70224_cycles() {
    let mut gb = machine();
    let mut gpu = Gpu::new();
    let mut frame = vec![0u8; FRAME_BYTES];
    let mut cycles = 0u32;
    let mut frames = 0;
    let mut lines = Vec::new();
    while frames < 2 {
        let ready = gpu.update(&mut gb, &mut frame, 4);
        cycles += 4;
        let line = gb.memory.get_register(Register::LcdcYCoord);
        assert!(line <= 153);
        if lines.last() != Some(&line) {
            lines.push(line);
        }
        if ready {
            frames += 1;
            assert_eq!(cycles, 70224 * frames);
            assert_eq!(gpu.frame_step, 0);
        }
    }
    let mut expected: Vec<u8> = (0..=153).collect();
    expected.push(0);
    expected.extend(1..=153u8);
    expected.push(0);
    assert_eq!(lines, expected);
    assert_eq!(gpu.scan_lines_rendered, 288);
}

#[test]
fn display_off_forces_line_zero() {
    let mut gb = machine();
    let mut gpu = Gpu::new();
    let mut frame = vec![9u8; FRAME_BYTES];
    gb.memory.set_register(Register::LcdControl, 0x11);
    gb.memory.set_register(Register::LcdcYCoord, 77);
    for _ in 0..40000 {
        assert!(!gpu.update(&mut gb, &mut frame, 4));
    }
    assert_eq!(gb.memory.get_register(Register::LcdcYCoord), 0);
    assert_eq!(gpu.frame_step, 0);
    assert!(frame.iter().all(|b| *b == 9));
}

#[test]
fn lcd_interrupts() {
    let mut gb = machine();
    let mut gpu = Gpu::new();
    let mut frame = vec![0u8; FRAME_BYTES];
    gb.memory.set_register(Register::LcdcStatus, 0b0100_1000);
    gb.memory.set_register(Register::LyCompare, 2);
    gb.memory.set_register(Register::InterruptFlag, 0);
    for _ in 0..20 {
        gpu.update(&mut gb, &mut frame, 4);
    }
    assert_eq!(gb.memory.get_register(Register::LcdcStatus), 0b0100_1011);
    assert_eq!(gb.memory.get_register(Register::InterruptFlag), 0);
    for _ in 0..43 {
        gpu.update(&mut gb, &mut frame, 4);
    }
    assert_eq!(gpu.frame_step, 252);
    assert_eq!(gb.memory.get_register(Register::LcdcStatus), 0b0100_1000);
    assert_eq!(gb.memory.get_register(Register::LcdcYCoord), 1);
    assert_eq!(gb.memory.get_register(Register::InterruptFlag), 0b10);
    gb.memory.set_register(Register::InterruptFlag, 0);
    gb.memory.set_register(Register::LcdcStatus, 0b0100_0000);
    for _ in 0..114 {
        gpu.update(&mut gb, &mut frame, 4);
    }
    assert_eq!(gb.memory.get_register(Register::LcdcYCoord), 2);
    assert_eq!(gb.memory.get_register(Register::LcdcStatus), 0b0100_0100);
    assert_eq!(gb.memory.get_register(Register::InterruptFlag), 0b10);
    gb.memory.set_register(Register::InterruptFlag, 0);
    while gpu.frame_step < 65664 {
        gpu.update(&mut gb, &mut frame, 4);
    }
    assert_eq!(gb.memory.get_register(Register::LcdcStatus) & 0b11, 1);
    assert_eq!(gb.memory.get_register(Register::InterruptFlag) & 0b01, 0b01);
}

#[test]
fn background_and_window_pixels() {
    let mut gb = machine();
    gb.memory.set_register(Register::BackgroundPaletteData, 0b1110_0100);
    gb.memory.set_byte(0x8010, 0b1000_0000);
    gb.memory.set_byte(0x8011, 0b1100_0000);
    gb.memory.set_byte(0x9800, 1);
    assert_eq!(background_index(&gb, 0, 0), 3);
    assert_eq!(background_index(&gb, 1, 0), 2);
    assert_eq!(background_index(&gb, 2, 0), 0);
    assert_eq!(background_index(&gb, 0, 1), 0);
    let none: Vec<Sprite> = Vec::new();
    assert_eq!(pixel(&gb, &none, 0, 0), 3);
    assert_eq!(pixel(&gb, &none, 1, 0), 2);
    gb.memory.set_register(Register::ScrollX, 1);
    assert_eq!(background_index(&gb, 0, 0), 2);
    gb.memory.set_register(Register::ScrollX, 0);
    gb.memory.set_register(Register::ScrollY, 255);
    assert_eq!(background_index(&gb, 0, 1), 3);
    gb.memory.set_register(Register::ScrollY, 0);
    gb.memory.set_register(Register::LcdControl, 0x91 | 0x08);
    assert_eq!(background_index(&gb, 0, 0), 0);
    gb.memory.set_byte(0x9C00, 1);
    assert_eq!(background_index(&gb, 0, 0), 3);
    gb.memory.set_register(Register::LcdControl, 0x90);
    assert_eq!(background_index(&gb, 0, 0), 0);
    gb.memory.set_register(Register::LcdControl, 0x91 | 0x20);
    gb.memory.set_register(Register::WindowX, 7 + 8);
    gb.memory.set_register(Register::WindowY, 4);
    assert_eq!(pixel(&gb, &none, 8, 4), 3);
    assert_eq!(pixel(&gb, &none, 9, 4), 2);
    assert_eq!(pixel(&gb, &none, 7, 4), 0);
    assert_eq!(pixel(&gb, &none, 8, 3), 0);
    gb.memory.set_register(Register::LcdControl, 0x81 | 0x20);
    gb.memory.set_byte(0x9010, 0xFF);
    assert_eq!(pixel(&gb, &none, 8, 4), 1);
}

#[test]
fn sprite_pixels() {
    let mut gb = machine();
    gb.memory.set_register(Register::ObjectPalette0Data, 0b1110_0100);
    gb.memory.set_register(Register::ObjectPalette1Data, 0b0001_1011);
    gb.memory.set_byte(0x8020, 0b1000_0001);
    gb.memory.set_byte(0x8021, 0b1000_0000);
    put_sprite(&mut gb, 0, 16, 8, 2, 0x00);
    let set = get_sprites_in_scan_line(&gb, 0);
    assert_eq!(set.len(), 1);
    assert_eq!((set[0].left(), set[0].right(), set[0].top(), set[0].bottom()), (0, 8, 0, 8));
    assert_eq!(set[0].get_tile_pattern(), 0x8081);
    assert!(set[0].above_bg());
    assert!(!set[0].is_mirrored_horizontally());
    assert!(!set[0].is_mirrored_vertically());
    assert_eq!(pixel(&gb, &set, 0, 0), 3);
    assert_eq!(pixel(&gb, &set, 7, 0), 1);
    assert_eq!(pixel(&gb, &set, 3, 0), 0);
    assert_eq!(pixel(&gb, &set, 8, 0), 0);
    put_sprite(&mut gb, 0, 16, 8, 2, 0x20);
    let set = get_sprites_in_scan_line(&gb, 0);
    assert!(set[0].is_mirrored_horizontally());
    assert_eq!(pixel(&gb, &set, 0, 0), 1);
    assert_eq!(pixel(&gb, &set, 7, 0), 3);
    put_sprite(&mut gb, 0, 16, 8, 2, 0x10);
    let set = get_sprites_in_scan_line(&gb, 0);
    assert_eq!(pixel(&gb, &set, 0, 0), 0);
    assert_eq!(pixel(&gb, &set, 7, 0), 2);
    put_sprite(&mut gb, 0, 9, 8, 2, 0x40);
    let set = get_sprites_in_scan_line(&gb, 0);
    assert_eq!(set.len(), 1);
    assert_eq!(set[0].get_tile_pattern(), 0x8081);
    assert!(get_sprites_in_scan_line(&gb, 1).is_empty());
    put_sprite(&mut gb, 0, 16, 8, 2, 0x80);
    gb.memory.set_byte(0x8000, 0x80);
    let set = get_sprites_in_scan_line(&gb, 0);
    assert!(!set[0].above_bg());
    assert_eq!(pixel(&gb, &set, 0, 0), 3);
    assert_eq!(pixel(&gb, &set, 7, 0), 1);
}

#[test]
fn working_set_is_the_first_ten_by_left_edge() {
    let mut gb = machine();
    for i in 0..12u16 {
        put_sprite(&mut gb, i, 16, 100 - 5 * i as u8, 0, 0);
    }
    put_sprite(&mut gb, 20, 40, 1, 0, 0);
    let set = get_sprites_in_scan_line(&gb, 0);
    let indices: Vec<u8> = set.iter().map(|s| s.index).collect();
    assert_eq!(indices, vec![11, 10, 9, 8, 7, 6, 5, 4, 3, 2]);
    for i in 0..12u16 {
        put_sprite(&mut gb, i, 16, 50, 0, 0);
    }
    let set = get_sprites_in_scan_line(&gb, 7);
    let indices: Vec<u8> = set.iter().map(|s| s.index).collect();
    assert_eq!(indices, vec![0, 1, 2, 3, 4, 5, 6, 7, 8, 9]);
    assert!(get_sprites_in_scan_line(&gb, 8).is_empty());
    assert_eq!(sprite_size(&gb), 8);
    gb.memory.set_register(Register::LcdControl, 0x95);
    assert_eq!(sprite_size(&gb), 16);
    assert_eq!(get_sprites_in_scan_line(&gb, 8).len(), 10);
    assert_eq!(get_sprites_in_scan_line(&gb, 24)[0].index, 20);
}

#[test]
fn a_scanline_is_drawn_into_its_row() {
    let mut gb = machine();
    let mut gpu = Gpu::new();
    let mut frame = vec![7u8; FRAME_BYTES];
    gb.memory.set_register(Register::BackgroundPaletteData, 0b1110_0100);
    gb.memory.set_byte(0x8010, 0xFF);
    gb.memory.set_byte(0x9800, 1);
    gpu.draw_scan_line(&gb, &mut frame, 0);
    assert_eq!(&frame[0..4], &[192, 192, 192, 255]);
    assert_eq!(&frame[28..32], &[192, 192, 192, 255]);
    assert_eq!(&frame[32..36], &[255, 255, 255, 255]);
    assert_eq!(&frame[636..640], &[255, 255, 255, 255]);
    assert_eq!(frame[640], 7);
    assert_eq!(gpu.scan_lines_rendered, 1);
    assert!(gpu.line_sprites.is_empty());
    gpu.draw_scan_line(&gb, &mut frame, 143);
    assert_eq!(&frame[FRAME_BYTES - 4..], &[255, 255, 255, 255]);
    assert_eq!(frame[143 * 640 - 1], 7);
    assert_eq!(gpu.scan_lines_rendered, 2);
}
