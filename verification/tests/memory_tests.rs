use gameboy::mbc1::{map_to_rom_bank, MemoryBankController1};
use gameboy::memory::{Memory, Register};

fn cartridge(mbc_type: u8, rom_code: u8, ram_code: u8, banks: usize) -> Vec<u8> {
    let mut rom = vec![0u8; banks * 0x4000];
    for bank in 1..banks {
        for i in 0..0x4000 {
            rom[bank * 0x4000 + i] = bank as u8;
        }
    }
    rom[0x147] = mbc_type;
    rom[0x148] = rom_code;
    rom[0x149] = ram_code;
    rom
}

#[test]
fn divider_write_resets() {
    let mut memory = Memory::new();
    memory.set_register(Register::Divider, 0x42);
    memory.set_byte(0xFF04, 0x05);
    assert_eq!(memory.get_byte(0xFF04), 0x00);
}

#[test]
fn echo_region_mirrors_work_ram() {
    let mut memory = Memory::new();
    memory.set_byte(0xE123, 0x55);
    assert_eq!(memory.get_byte(0xC123), 0x55);
    assert_eq!(memory.get_byte(0xE123), 0x55);
    memory.set_byte(0xC200, 0x66);
    assert_eq!(memory.get_byte(0xE200), 0x66);
}

#[test]
fn unusable_region_drops_writes() {
    let mut memory = Memory::new();
    memory.set_byte(0xFEA0, 0x11);
    memory.set_byte(0xFEFF, 0x22);
    assert_eq!(memory.get_byte(0xFEA0), 0);
    assert_eq!(memory.get_byte(0xFEFF), 0);
}

#[test]
fn read_only_registers() {
    let mut memory = Memory::new();
    memory.set_register(Register::LcdcYCoord, 0x33);
    memory.set_byte(0xFF44, 0x99);
    assert_eq!(memory.get_byte(0xFF44), 0x33);
    memory.set_register(Register::LcdcStatus, 0b0000_0101);
    memory.set_byte(0xFF41, 0b1111_1010);
    assert_eq!(memory.get_byte(0xFF41), 0b1111_1101);
    memory.set_byte(0xFF26, 0xFF);
    assert_eq!(memory.get_byte(0xFF26), 0x80);
    memory.set_byte(0xFF26, 0x7F);
    assert_eq!(memory.get_byte(0xFF26), 0x00);
}

#[test]
fn rom_is_read_only_without_a_controller() {
    let mut memory = Memory::new();
    memory.set_byte(0xFF50, 1);
    let mut rom = vec![0u8; 0x8000];
    rom[0x0100] = 0xAA;
    rom[0x7FFF] = 0xBB;
    assert!(Memory::accepts_rom(&rom));
    memory.load_rom(&rom);
    memory.set_byte(0x0100, 0x01);
    memory.set_byte(0x7FFF, 0x02);
    assert_eq!(memory.get_byte(0x0100), 0xAA);
    assert_eq!(memory.get_byte(0x7FFF), 0xBB);
    assert!(!memory.use_battery());
    memory.set_byte(0xA000, 0x77);
    assert_eq!(memory.get_byte(0xA000), 0x77);
}

#[test]
fn oam_is_closed_in_modes_two_and_three() {
    let mut memory = Memory::new();
    memory.set_register(Register::LcdcStatus, 2);
    memory.set_byte(0xFE00, 0x12);
    assert_eq!(memory.get_byte(0xFE00), 0);
    memory.set_register(Register::LcdcStatus, 3);
    memory.set_byte(0xFE00, 0x12);
    assert_eq!(memory.get_byte(0xFE00), 0);
    memory.set_register(Register::LcdcStatus, 0);
    memory.set_byte(0xFE00, 0x12);
    assert_eq!(memory.get_byte(0xFE00), 0x12);
    memory.set_register(Register::LcdcStatus, 1);
    memory.set_byte(0xFE9F, 0x34);
    assert_eq!(memory.get_byte(0xFE9F), 0x34);
}

#[test]
fn oam_dma_copies_160_bytes() {
    let mut memory = Memory::new();
    for i in 0..0x100u16 {
        memory.set_byte(0xC100 + i, i as u8);
    }
    memory.set_register(Register::LcdcStatus, 3);
    memory.set_byte(0xFF46, 0xC1);
    for i in 0..0xA0u16 {
        assert_eq!(memory.get_byte(0xFE00 + i), i as u8);
    }
    assert_eq!(memory.get_byte(0xFEA0), 0);
    assert_eq!(memory.get_byte(0xFF46), 0xC1);
    let sprite = memory.read_sprite(3);
    assert_eq!((sprite.y_pos, sprite.x_pos, sprite.tile_number, sprite.attributes), (12, 13, 14, 15));
}

#[test]
fn trigger_latches() {
    let mut memory = Memory::new();
    memory.set_byte(0xFF14, 0x7F);
    assert!(!memory.channel_1_triggered());
    memory.set_byte(0xFF14, 0x80);
    memory.set_byte(0xFF19, 0xC0);
    assert!(memory.channel_1_triggered());
    assert!(memory.channel_2_triggered());
    assert!(!memory.channel_3_triggered());
    memory.set_byte(0xFF1E, 0x80);
    memory.set_byte(0xFF23, 0x80);
    assert!(memory.channel_3_triggered());
    assert!(memory.channel_4_triggered());
    assert_eq!(memory.get_byte(0xFF14), 0x80);
    memory.reset_triggers();
    assert!(!memory.channel_1_triggered());
    assert!(!memory.channel_2_triggered());
    assert!(!memory.channel_3_triggered());
    assert!(!memory.channel_4_triggered());
}

#[test]
fn boot_overlay_until_ff50_is_written() {
    let mut memory = Memory::new();
    let boot: Vec<u8> = (0..=255u8).map(|i| i ^ 0x5A).collect();
    memory.load_boot_rom(&boot);
    let mut rom = vec![0x11u8; 0x8000];
    rom[0x147] = 0;
    memory.load_rom(&rom);
    assert_eq!(memory.get_byte(0x0000), 0x5A);
    assert_eq!(memory.get_byte(0x00FF), 0xFF ^ 0x5A);
    assert_eq!(memory.get_byte(0x0100), 0x11);
    memory.set_byte(0xFF50, 0x01);
    assert_eq!(memory.get_byte(0x0000), 0x11);
    assert_eq!(memory.get_byte(0x00FF), 0x11);
}

#[test]
fn boot_overlay_is_never_mapped_again() {
    let mut memory = Memory::new();
    let boot = vec![0xB0u8; 0x100];
    memory.load_boot_rom(&boot);
    let mut rom = vec![0x11u8; 0x8000];
    rom[0x147] = 0;
    memory.load_rom(&rom);
    assert_eq!(memory.get_byte(0x0038), 0xB0);
    memory.set_byte(0xFF50, 0x00);
    assert_eq!(memory.get_byte(0x0038), 0xB0);
    memory.set_byte(0xFF50, 0x01);
    assert_eq!(memory.get_byte(0x0038), 0x11);
    memory.set_byte(0xFF50, 0x00);
    assert_eq!(memory.get_byte(0xFF50), 0x00);
    assert_eq!(memory.get_byte(0x0000), 0x11);
    assert_eq!(memory.get_byte(0x0038), 0x11);
    assert_eq!(memory.get_byte(0x00FF), 0x11);
    assert_eq!(memory.get_word(0x0040), 0x1111);
    memory.set_owned_byte(0xFF50, 0x00);
    memory.set_unchecked(0xFF50, 0x00);
    assert_eq!(memory.get_byte(0x0038), 0x11);
    let mut direct = Memory::new();
    direct.load_boot_rom(&boot);
    direct.load_rom(&rom);
    direct.set_owned_byte(0xFF50, 0x80);
    direct.set_owned_byte(0xFF50, 0x00);
    assert_eq!(direct.get_byte(0x0038), 0x11);
}

#[test]
fn power_on_registers_of_the_address_space() {
    let mut memory = Memory::new();
    memory.power_on();
    assert_eq!(memory.get_register(Register::LcdControl), 0x91);
    assert_eq!(memory.get_register(Register::BackgroundPaletteData), 0xFC);
    assert_eq!(memory.get_register(Register::SoundEnable), 0xF1);
    assert_eq!(memory.get_register(Register::Channel1Sweep), 0x80);
    assert_eq!(memory.get_register(Register::InterruptEnable), 0x00);
    assert_eq!(Register::SpriteData.address(), 0xFE00);
    assert_eq!(Register::LyCompare.address(), 0xFF45);
    assert_eq!(Register::InterruptEnable.address(), 0xFFFF);
}

#[test]
fn words_are_little_endian() {
    let mut memory = Memory::new();
    memory.set_word(0xC000, 0x1234);
    assert_eq!(memory.get_byte(0xC000), 0x34);
    assert_eq!(memory.get_byte(0xC001), 0x12);
    assert_eq!(memory.get_word(0xC000), 0x1234);
    memory.set_owned_byte(0x0000, 0x01);
    memory.set_owned_byte(0xFF50, 0x01);
    memory.set_word(0xFFFF, 0xBBAA);
    assert_eq!(memory.get_byte(0xFFFF), 0xAA);
    assert_eq!(memory.get_word(0xFFFF), 0x01AA);
}

#[test]
fn unreachable_banks_show_the_next_bank() {
    assert_eq!(map_to_rom_bank(0x00), 0x01);
    assert_eq!(map_to_rom_bank(0x20), 0x21);
    assert_eq!(map_to_rom_bank(0x40), 0x41);
    assert_eq!(map_to_rom_bank(0x60), 0x61);
    assert_eq!(map_to_rom_bank(0x1F), 0x1F);
    let rom = cartridge(0x01, 5, 0, 64);
    let mut memory = Memory::new();
    memory.set_byte(0xFF50, 1);
    assert!(Memory::accepts_rom(&rom));
    memory.load_rom(&rom);
    assert_eq!(memory.get_byte(0x4000), 1);
    memory.set_byte(0x2000, 0x00);
    assert_eq!(memory.get_byte(0x4000), 1);
    memory.set_byte(0x2000, 0x05);
    assert_eq!(memory.get_byte(0x7FFF), 5);
    memory.set_byte(0x4000, 0x01);
    assert_eq!(memory.get_byte(0x4000), 0x25);
    memory.set_byte(0x2000, 0x00);
    assert_eq!(memory.get_byte(0x4000), 0x21);
    memory.set_byte(0x2000, 0x20);
    assert_eq!(memory.get_byte(0x5555), 0x21);
    assert_eq!(memory.get_byte(0x0147), 0x01);
}

#[test]
fn external_ram_banks_and_save_image() {
    let rom = cartridge(0x03, 1, 3, 4);
    let mut memory = Memory::new();
    memory.load_rom(&rom);
    assert!(memory.use_battery());
    memory.set_byte(0xA000, 0x11);
    memory.set_byte(0xBFFF, 0x22);
    assert_eq!(memory.get_byte(0xA000), 0x11);
    memory.set_byte(0x6000, 0x01);
    memory.set_byte(0x4000, 0x02);
    assert_eq!(memory.get_byte(0xA000), 0x00);
    memory.set_byte(0xA000, 0x33);
    let image = memory.get_external_ram_banks();
    assert_eq!(image.len(), 4 * 0x2000);
    assert_eq!(image[0], 0x11);
    assert_eq!(image[0x1FFF], 0x22);
    assert_eq!(image[2 * 0x2000], 0x33);
    let mut restored = Memory::new();
    restored.load_rom(&rom);
    restored.load_external_ram(&image);
    assert_eq!(restored.get_byte(0xA000), 0x11);
    assert_eq!(restored.get_external_ram_banks(), image);
}

#[test]
fn missing_banks_are_not_supplied() {
    let rom = cartridge(0x01, 0, 0, 2);
    let mut memory = Memory::new();
    memory.load_rom(&rom);
    assert_eq!(memory.get_byte(0x4000), 1);
    memory.set_byte(0x2000, 0x05);
    assert_eq!(memory.get_byte(0x4000), 0);
    memory.set_byte(0xA000, 0x44);
    assert_eq!(memory.get_byte(0xA000), 0);
    assert!(!memory.use_battery());
    let small = cartridge(0x02, 0, 1, 2);
    let mut memory = Memory::new();
    memory.load_rom(&small);
    memory.set_byte(0xA7FF, 0x55);
    memory.set_byte(0xA800, 0x66);
    assert_eq!(memory.get_byte(0xA7FF), 0x55);
    assert_eq!(memory.get_byte(0xA800), 0);
    assert_eq!(memory.get_external_ram_banks().len(), 0x800);
}

#[test]
fn cartridge_headers_are_checked() {
    let mut rom = cartridge(0x01, 1, 0, 4);
    assert!(MemoryBankController1::accepts(&rom));
    assert!(Memory::accepts_rom(&rom));
    rom[0x148] = 7;
    assert!(!MemoryBankController1::accepts(&rom));
    assert!(!Memory::accepts_rom(&rom));
    rom[0x148] = 1;
    rom[0x149] = 5;
    assert!(!Memory::accepts_rom(&rom));
    rom[0x149] = 0;
    rom[0x148] = 2;
    assert!(!Memory::accepts_rom(&rom));
    rom[0x147] = 0x19;
    rom[0x148] = 1;
    assert!(Memory::accepts_rom(&rom));
    let mut memory = Memory::new();
    memory.load_rom(&rom);
    memory.set_byte(0x2000, 3);
    assert_eq!(memory.get_byte(0x4000), 3);
    let short = vec![0u8; 0x100];
    assert!(!Memory::accepts_rom(&short));
    let plain = vec![0u8; 0x4000];
    assert!(!Memory::accepts_rom(&plain));
    assert_eq!(MemoryBankController1::external_ram_size(&cartridge(0x03, 0, 4, 2)), 16 * 0x2000);
}
