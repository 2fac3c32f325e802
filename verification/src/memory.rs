use vstd::prelude::*;
use crate::mbc1::{header_ok, Mbc1View, MemoryBankController1};
use crate::util::{concat_bytes, get_lower, get_upper};

verus! {

/// The named addresses of the memory map: the start of the sprite table, the
/// I/O registers, and the interrupt-enable byte.
#[derive(Copy, Clone, Debug, PartialEq, Eq, Structural)]
pub enum Register {
    SpriteData,
    Joypad,
    Divider,
    TimerCounter,
    TimerModulo,
    TimerControl,
    InterruptFlag,
    Channel1Sweep,
    Channel1LengthDuty,
    Channel1VolumeEnvelope,
    Channel1FrequencyLo,
    Channel1FrequencyHi,
    Channel2LengthDuty,
    Channel2VolumeEnvelope,
    Channel2FrequencyLo,
    Channel2FrequencyHi,
    Channel3DacPower,
    Channel3Length,
    Channel3VolumeCode,
    Channel3FrequencyLo,
    Channel3FrequencyHi,
    Channel4TriggerLength,
    ChannelControl,
    SoundOutputTerminal,
    SoundEnable,
    LcdControl,
    LcdcStatus,
    ScrollY,
    ScrollX,
    LcdcYCoord,
    LyCompare,
    BackgroundPaletteData,
    ObjectPalette0Data,
    ObjectPalette1Data,
    WindowY,
    WindowX,
    InterruptEnable,
}

impl Register {
    /// The address of the register.
    pub open spec fn spec_address(self) -> u16 {
        match self {
            Register::SpriteData => 0xFE00,
            Register::Joypad => 0xFF00,
            Register::Divider => 0xFF04,
            Register::TimerCounter => 0xFF05,
            Register::TimerModulo => 0xFF06,
            Register::TimerControl => 0xFF07,
            Register::InterruptFlag => 0xFF0F,
            Register::Channel1Sweep => 0xFF10,
            Register::Channel1LengthDuty => 0xFF11,
            Register::Channel1VolumeEnvelope => 0xFF12,
            Register::Channel1FrequencyLo => 0xFF13,
            Register::Channel1FrequencyHi => 0xFF14,
            Register::Channel2LengthDuty => 0xFF16,
            Register::Channel2VolumeEnvelope => 0xFF17,
            Register::Channel2FrequencyLo => 0xFF18,
            Register::Channel2FrequencyHi => 0xFF19,
            Register::Channel3DacPower => 0xFF1A,
            Register::Channel3Length => 0xFF1B,
            Register::Channel3VolumeCode => 0xFF1C,
            Register::Channel3FrequencyLo => 0xFF1D,
            Register::Channel3FrequencyHi => 0xFF1E,
            Register::Channel4TriggerLength => 0xFF23,
            Register::ChannelControl => 0xFF24,
            Register::SoundOutputTerminal => 0xFF25,
            Register::SoundEnable => 0xFF26,
            Register::LcdControl => 0xFF40,
            Register::LcdcStatus => 0xFF41,
            Register::ScrollY => 0xFF42,
            Register::ScrollX => 0xFF43,
            Register::LcdcYCoord => 0xFF44,
            Register::LyCompare => 0xFF45,
            Register::BackgroundPaletteData => 0xFF47,
            Register::ObjectPalette0Data => 0xFF48,
            Register::ObjectPalette1Data => 0xFF49,
            Register::WindowY => 0xFF4A,
            Register::WindowX => 0xFF4B,
            Register::InterruptEnable => 0xFFFF,
        }
    }

    #[verifier::when_used_as_spec(spec_address)]
    pub fn address(self) -> (r: u16)
        ensures
            r == self.spec_address(),
    {
        match self {
            Register::SpriteData => 0xFE00,
            Register::Joypad => 0xFF00,
            Register::Divider => 0xFF04,
            Register::TimerCounter => 0xFF05,
            Register::TimerModulo => 0xFF06,
            Register::TimerControl => 0xFF07,
            Register::InterruptFlag => 0xFF0F,
            Register::Channel1Sweep => 0xFF10,
            Register::Channel1LengthDuty => 0xFF11,
            Register::Channel1VolumeEnvelope => 0xFF12,
            Register::Channel1FrequencyLo => 0xFF13,
            Register::Channel1FrequencyHi => 0xFF14,
            Register::Channel2LengthDuty => 0xFF16,
            Register::Channel2VolumeEnvelope => 0xFF17,
            Register::Channel2FrequencyLo => 0xFF18,
            Register::Channel2FrequencyHi => 0xFF19,
            Register::Channel3DacPower => 0xFF1A,
            Register::Channel3Length => 0xFF1B,
            Register::Channel3VolumeCode => 0xFF1C,
            Register::Channel3FrequencyLo => 0xFF1D,
            Register::Channel3FrequencyHi => 0xFF1E,
            Register::Channel4TriggerLength => 0xFF23,
            Register::ChannelControl => 0xFF24,
            Register::SoundOutputTerminal => 0xFF25,
            Register::SoundEnable => 0xFF26,
            Register::LcdControl => 0xFF40,
            Register::LcdcStatus => 0xFF41,
            Register::ScrollY => 0xFF42,
            Register::ScrollX => 0xFF43,
            Register::LcdcYCoord => 0xFF44,
            Register::LyCompare => 0xFF45,
            Register::BackgroundPaletteData => 0xFF47,
            Register::ObjectPalette0Data => 0xFF48,
            Register::ObjectPalette1Data => 0xFF49,
            Register::WindowY => 0xFF4A,
            Register::WindowX => 0xFF4B,
            Register::InterruptEnable => 0xFFFF,
        }
    }
}

/// One entry of the sprite table.
#[derive(Copy, Clone, Debug, PartialEq, Eq, Structural)]
pub struct SpriteData {
    pub y_pos: u8,
    pub x_pos: u8,
    pub tile_number: u8,
    pub attributes: u8,
}

/// Whether a cartridge type byte selects the MBC1 controller.
pub open spec fn uses_mbc1(mbc_type: u8) -> bool {
    1 <= mbc_type <= 3 || mbc_type == 0x19
}

/// A cartridge image that can be loaded: it reaches past its header, and it
/// either is for the MBC1 controller and passes its checks, or holds the two
/// fixed ROM banks.
pub open spec fn rom_image_ok(rom: Seq<u8>) -> bool {
    &&& rom.len() > 0x149
    &&& if uses_mbc1(rom[0x147]) {
        header_ok(rom)
    } else {
        rom.len() >= 0x8000
    }
}

/// The memory cells after an OAM DMA from page `page`: the 160 bytes that
/// start at `page * 256` are copied to the sprite table.
pub open spec fn oam_dma(mem: Seq<u8>, page: u8) -> Seq<u8> {
    Seq::new(
        mem.len(),
        |i: int|
            if 0xFE00 <= i < 0xFEA0 {
                mem[page * 256 + (i - 0xFE00)]
            } else {
                mem[i]
            },
    )
}

/// The cells as they are right after power-on: the documented start values
/// of the I/O registers, every other cell as it was.
pub open spec fn power_on_cells(mem: Seq<u8>) -> Seq<u8> {
    mem.update(0xFF05, 0x00).update(0xFF06, 0x00).update(0xFF07, 0x00).update(0xFF10, 0x80).update(
        0xFF11,
        0xBF,
    ).update(0xFF12, 0xF3).update(0xFF14, 0xBF).update(0xFF16, 0x3F).update(0xFF17, 0x00).update(
        0xFF19,
        0xBF,
    ).update(0xFF1A, 0x7F).update(0xFF1B, 0xFF).update(0xFF1C, 0x9F).update(0xFF1E, 0xBF).update(
        0xFF20,
        0xFF,
    ).update(0xFF21, 0x00).update(0xFF22, 0x00).update(0xFF23, 0xBF).update(0xFF24, 0x77).update(
        0xFF25,
        0xF3,
    ).update(0xFF26, 0xF1).update(0xFF40, 0x91).update(0xFF42, 0x00).update(0xFF43, 0x00).update(
        0xFF45,
        0x00,
    ).update(0xFF47, 0xFC).update(0xFF48, 0xFF).update(0xFF49, 0xFF).update(0xFF4A, 0x00).update(
        0xFF4B,
        0x00,
    ).update(0xFFFF, 0x00)
}

/// The mathematical model of the address space: the 64 KiB of cells, the
/// boot ROM overlay with the latch that switches it off for good, the
/// cartridge controller if there is one, and the four sound trigger latches.
pub struct MemoryView {
    pub mem: Seq<u8>,
    pub boot_rom: Seq<u8>,
    pub boot_overlay_off: bool,
    pub mbc1: Option<Mbc1View>,
    pub channel_1_triggered: bool,
    pub channel_2_triggered: bool,
    pub channel_3_triggered: bool,
    pub channel_4_triggered: bool,
}

impl MemoryView {
    pub open spec fn wf(self) -> bool {
        &&& self.mem.len() == 0x10000
        &&& self.boot_rom.len() == 0x100
        &&& (self.mbc1 is Some ==> self.mbc1.unwrap().wf())
    }

    /// An address space of zeros with no cartridge and the boot overlay
    /// mapped.
    pub open spec fn empty() -> MemoryView {
        MemoryView {
            mem: Seq::new(0x10000, |i: int| 0u8),
            boot_rom: Seq::new(0x100, |i: int| 0u8),
            boot_overlay_off: false,
            mbc1: None,
            channel_1_triggered: false,
            channel_2_triggered: false,
            channel_3_triggered: false,
            channel_4_triggered: false,
        }
    }

    /// Whether the boot ROM is mapped over the first 256 bytes: it is until
    /// the first value other than zero is stored at 0xFF50, and never again.
    pub open spec fn boot_overlay_enabled(self) -> bool {
        !self.boot_overlay_off
    }

    /// The latch of the boot overlay after `value` is stored at `address`: a
    /// value other than zero at 0xFF50 sets it, and nothing clears it.
    pub open spec fn overlay_latch_after(self, address: u16, value: u8) -> bool {
        self.boot_overlay_off || (address == 0xFF50 && value != 0)
    }

    /// The cell of a register, read directly.
    pub open spec fn register(self, reg: Register) -> u8 {
        self.mem[reg.spec_address() as int]
    }

    /// The model after a cell is overwritten directly, with no write policy.
    /// The boot overlay latch follows a store at 0xFF50 here too.
    pub open spec fn with_cell(self, address: u16, value: u8) -> MemoryView {
        MemoryView {
            mem: self.mem.update(address as int, value),
            boot_overlay_off: self.overlay_latch_after(address, value),
            ..self
        }
    }

    /// What the processor reads at `address`.
    pub open spec fn read(self, address: u16) -> u8 {
        if address < 0x100 && self.boot_overlay_enabled() {
            self.boot_rom[address as int]
        } else if self.mbc1 is Some && self.mbc1.unwrap().read(address) is Some {
            self.mbc1.unwrap().read(address).unwrap()
        } else if 0xE000 <= address < 0xFE00 {
            self.mem[address - 0x2000]
        } else {
            self.mem[address as int]
        }
    }

    /// The little-endian word at `address`; the high byte comes from the
    /// next address, which wraps round at the top of the address space.
    pub open spec fn read_word(self, address: u16) -> u16 {
        (self.read(address.wrapping_add(1)) * 256 + self.read(address)) as u16
    }

    /// The LCD mode in the low two bits of the status register.
    pub open spec fn lcd_mode(self) -> u8 {
        self.mem[0xFF41] % 4
    }

    /// The model after the processor writes `b` to `address`.
    pub open spec fn write(self, address: u16, b: u8) -> MemoryView {
        if self.mbc1 is Some && Mbc1View::claims_write(address) {
            MemoryView { mbc1: Some(self.mbc1.unwrap().write(address, b)), ..self }
        } else if address < 0x8000 {
            self
        } else if address == 0xFF04 {
            self.with_cell(address, 0)
        } else if 0xFEA0 <= address < 0xFF00 {
            self
        } else if address == 0xFF44 {
            self
        } else if address == 0xFF41 {
            self.with_cell(address, ((b / 8) * 8 + self.mem[0xFF41] % 8) as u8)
        } else if 0xFE00 <= address < 0xFEA0 && (self.lcd_mode() == 2 || self.lcd_mode() == 3) {
            self
        } else if 0xE000 <= address < 0xFE00 {
            self.with_cell((address - 0x2000) as u16, b)
        } else if address == 0xFF46 {
            MemoryView { mem: oam_dma(self.mem, b).update(0xFF46, b), ..self }
        } else if address == 0xFF26 {
            self.with_cell(address, ((b / 128) * 128) as u8)
        } else {
            MemoryView {
                mem: self.mem.update(address as int, b),
                boot_overlay_off: self.overlay_latch_after(address, b),
                channel_1_triggered: self.channel_1_triggered || (address == 0xFF14 && b >= 0x80),
                channel_2_triggered: self.channel_2_triggered || (address == 0xFF19 && b >= 0x80),
                channel_3_triggered: self.channel_3_triggered || (address == 0xFF1E && b >= 0x80),
                channel_4_triggered: self.channel_4_triggered || (address == 0xFF23 && b >= 0x80),
                ..self
            }
        }
    }

    /// The model after the word `word` is written at `address`, low byte
    /// first.
    pub open spec fn write_word(self, address: u16, word: u16) -> MemoryView {
        self.write(address, (word % 256) as u8).write(address.wrapping_add(1), (word / 256) as u8)
    }

    /// The model after a cartridge image is loaded.
    pub open spec fn with_rom(self, rom: Seq<u8>) -> MemoryView {
        let fixed: int = if uses_mbc1(rom[0x147]) {
            0x4000
        } else {
            0x8000
        };
        MemoryView {
            mem: Seq::new(
                self.mem.len(),
                |i: int|
                    if i < fixed {
                        rom[i]
                    } else {
                        self.mem[i]
                    },
            ),
            mbc1: if uses_mbc1(rom[0x147]) {
                Some(Mbc1View::fresh().initialized(rom))
            } else {
                self.mbc1
            },
            ..self
        }
    }

    /// Whether the cartridge keeps its external RAM on a battery.
    pub open spec fn use_battery(self) -> bool {
        self.mbc1 is Some && self.mbc1.unwrap().use_battery
    }

    /// Sprite table entry number `index`, for `index < 40`.
    pub open spec fn sprite(self, index: int) -> SpriteData {
        SpriteData {
            y_pos: self.mem[0xFE00 + 4 * index],
            x_pos: self.mem[0xFE00 + 4 * index + 1],
            tile_number: self.mem[0xFE00 + 4 * index + 2],
            attributes: self.mem[0xFE00 + 4 * index + 3],
        }
    }
}

/// The unified address space of the machine.
pub struct Memory {
    pub mem: Vec<u8>,
    pub boot_rom: Vec<u8>,
    pub boot_overlay_off: bool,
    pub mbc1: Option<MemoryBankController1>,
    pub channel_1_triggered: bool,
    pub channel_2_triggered: bool,
    pub channel_3_triggered: bool,
    pub channel_4_triggered: bool,
}

impl View for Memory {
    type V = MemoryView;

    open spec fn view(&self) -> MemoryView {
        MemoryView {
            mem: self.mem@,
            boot_rom: self.boot_rom@,
            boot_overlay_off: self.boot_overlay_off,
            mbc1: match self.mbc1 {
                Some(mbc1) => Some(mbc1@),
                None => None,
            },
            channel_1_triggered: self.channel_1_triggered,
            channel_2_triggered: self.channel_2_triggered,
            channel_3_triggered: self.channel_3_triggered,
            channel_4_triggered: self.channel_4_triggered,
        }
    }
}

/// A vector of `n` zero bytes.
fn zeroed(n: usize) -> (v: Vec<u8>)
    ensures
        v@ == Seq::new(n as nat, |i: int| 0u8),
{
    let mut v: Vec<u8> = Vec::new();
    let mut i: usize = 0;
    while i < n
        invariant
            i <= n,
            v@ == Seq::new(i as nat, |k: int| 0u8),
        decreases n - i,
    {
        v.push(0);
        i += 1;
        assert(v@ =~= Seq::new(i as nat, |k: int| 0u8));
    }
    v
}

impl Memory {
    pub open spec fn wf(&self) -> bool {
        self@.wf()
    }

    /// An address space of zeros with no cartridge. The boot overlay is
    /// mapped; the first value other than zero that is stored at 0xFF50
    /// switches it off for good.
    pub fn new() -> (r: Memory)
        ensures
            r.wf(),
            r@ == MemoryView::empty(),
    {
        Memory {
            mem: zeroed(0x10000),
            boot_rom: zeroed(0x100),
            boot_overlay_off: false,
            mbc1: None,
            channel_1_triggered: false,
            channel_2_triggered: false,
            channel_3_triggered: false,
            channel_4_triggered: false,
        }
    }

    /// Loads the start values of the I/O registers.
    pub fn power_on(&mut self)
        requires
            old(self).wf(),
        ensures
            final(self).wf(),
            final(self)@ == (MemoryView { mem: power_on_cells(old(self)@.mem), ..old(self)@ }),
    {
        self.mem[0xFF05] = 0x00;
        self.mem[0xFF06] = 0x00;
        self.mem[0xFF07] = 0x00;
        self.mem[0xFF10] = 0x80;
        self.mem[0xFF11] = 0xBF;
        self.mem[0xFF12] = 0xF3;
        self.mem[0xFF14] = 0xBF;
        self.mem[0xFF16] = 0x3F;
        self.mem[0xFF17] = 0x00;
        self.mem[0xFF19] = 0xBF;
        self.mem[0xFF1A] = 0x7F;
        self.mem[0xFF1B] = 0xFF;
        self.mem[0xFF1C] = 0x9F;
        self.mem[0xFF1E] = 0xBF;
        self.mem[0xFF20] = 0xFF;
        self.mem[0xFF21] = 0x00;
        self.mem[0xFF22] = 0x00;
        self.mem[0xFF23] = 0xBF;
        self.mem[0xFF24] = 0x77;
        self.mem[0xFF25] = 0xF3;
        self.mem[0xFF26] = 0xF1;
        self.mem[0xFF40] = 0x91;
        self.mem[0xFF42] = 0x00;
        self.mem[0xFF43] = 0x00;
        self.mem[0xFF45] = 0x00;
        self.mem[0xFF47] = 0xFC;
        self.mem[0xFF48] = 0xFF;
        self.mem[0xFF49] = 0xFF;
        self.mem[0xFF4A] = 0x00;
        self.mem[0xFF4B] = 0x00;
        self.mem[0xFFFF] = 0x00;
    }

    /// Copies a boot ROM image of at most 256 bytes to the start of the
    /// overlay.
    pub fn load_boot_rom(&mut self, boot_buf: &[u8])
        requires
            old(self).wf(),
            boot_buf@.len() <= 0x100,
        ensures
            final(self).wf(),
            final(self)@ == (MemoryView {
                boot_rom: boot_buf@ + old(self)@.boot_rom.subrange(boot_buf@.len() as int, 0x100),
                ..old(self)@
            }),
    {
        let n: usize = boot_buf.len();
        let mut i: usize = 0;
        while i < n
            invariant
                i <= n,
                n == boot_buf@.len(),
                n <= 0x100,
                self.boot_rom@.len() == 0x100,
                old(self)@.boot_rom.len() == 0x100,
                self.boot_rom@ == boot_buf@.subrange(0, i as int) + old(self)@.boot_rom.subrange(
                    i as int,
                    0x100,
                ),
                self.mem == old(self).mem,
                self.mbc1 == old(self).mbc1,
                self.boot_overlay_off == old(self).boot_overlay_off,
                self.channel_1_triggered == old(self).channel_1_triggered,
                self.channel_2_triggered == old(self).channel_2_triggered,
                self.channel_3_triggered == old(self).channel_3_triggered,
                self.channel_4_triggered == old(self).channel_4_triggered,
            decreases n - i,
        {
            self.boot_rom[i] = boot_buf[i];
            i += 1;
            assert(self.boot_rom@ =~= boot_buf@.subrange(0, i as int) + old(
                self,
            )@.boot_rom.subrange(i as int, 0x100));
        }
        assert(boot_buf@.subrange(0, n as int) =~= boot_buf@);
    }

    /// Whether `load_rom` accepts the cartridge image.
    pub fn accepts_rom(rom_buf: &[u8]) -> (ok: bool)
        ensures
            ok == rom_image_ok(rom_buf@),
    {
        if rom_buf.len() <= 0x149 {
            return false;
        }
        let mbc_type = rom_buf[0x147];
        if mbc_type >= 1 && mbc_type <= 3 || mbc_type == 0x19 {
            MemoryBankController1::accepts(rom_buf)
        } else {
            rom_buf.len() >= 0x8000
        }
    }

    /// Loads a cartridge image. Cartridge types 1 to 3 and 0x19 get an MBC1
    /// controller and bank 0 in the fixed slot; every other type is copied
    /// into the 32 KiB of ROM space as it is.
    pub fn load_rom(&mut self, rom_buf: &[u8])
        requires
            old(self).wf(),
            rom_image_ok(rom_buf@),
        ensures
            final(self).wf(),
            final(self)@ == old(self)@.with_rom(rom_buf@),
    {
        let mbc_type = rom_buf[0x147];
        let use_mbc1 = mbc_type >= 1 && mbc_type <= 3 || mbc_type == 0x19;
        if use_mbc1 {
            let mut mbc1 = MemoryBankController1::new();
            mbc1.initialize(rom_buf);
            self.mbc1 = Some(mbc1);
        }
        let rom_size: usize = if use_mbc1 { 0x4000 } else { 0x8000 };
        let mut i: usize = 0;
        while i < rom_size
            invariant
                i <= rom_size <= rom_buf@.len(),
                rom_size <= 0x8000,
                self.mem@.len() == 0x10000,
                self.mem@ == Seq::new(
                    0x10000,
                    |k: int|
                        if k < i {
                            rom_buf@[k]
                        } else {
                            old(self)@.mem[k]
                        },
                ),
                self.boot_rom == old(self).boot_rom,
                self.boot_overlay_off == old(self).boot_overlay_off,
                self@.mbc1 == old(self)@.with_rom(rom_buf@).mbc1,
                self.wf(),
                self.channel_1_triggered == old(self).channel_1_triggered,
                self.channel_2_triggered == old(self).channel_2_triggered,
                self.channel_3_triggered == old(self).channel_3_triggered,
                self.channel_4_triggered == old(self).channel_4_triggered,
            decreases rom_size - i,
        {
            self.mem[i] = rom_buf[i];
            i += 1;
            assert(self.mem@ =~= Seq::new(
                0x10000,
                |k: int|
                    if k < i {
                        rom_buf@[k]
                    } else {
                        old(self)@.mem[k]
                    },
            ));
        }
        assert(self@.mem =~= old(self)@.with_rom(rom_buf@).mem);
    }

    /// Restores the external RAM of the cartridge from a save image.
    pub fn load_external_ram(&mut self, save_buf: &[u8])
        requires
            old(self).wf(),
            old(self)@.mbc1 is Some,
            save_buf@.len() >= old(self)@.mbc1.unwrap().ram_banks.len(),
        ensures
            final(self).wf(),
            final(self)@ == (MemoryView {
                mbc1: Some(old(self)@.mbc1.unwrap().with_ram(save_buf@)),
                ..old(self)@
            }),
    {
        match &mut self.mbc1 {
            Some(mbc1) => mbc1.load_external_ram(save_buf),
            None => {},
        }
    }

    pub fn use_battery(&self) -> (r: bool)
        ensures
            r == self@.use_battery(),
    {
        match &self.mbc1 {
            Some(mbc1) => mbc1.use_battery,
            None => false,
        }
    }

    /// The external RAM of the cartridge as a save image.
    pub fn get_external_ram_banks(&self) -> (r: Vec<u8>)
        requires
            self@.mbc1 is Some,
        ensures
            r@ == self@.mbc1.unwrap().ram_banks,
    {
        match &self.mbc1 {
            Some(mbc1) => mbc1.get_external_ram_banks(),
            None => Vec::new(),
        }
    }

    /// Reads the cell of a register directly.
    pub fn get_register(&self, reg: Register) -> (r: u8)
        requires
            self.wf(),
        ensures
            r == self@.register(reg),
    {
        self.get_unchecked(reg.address())
    }

    /// Reads a byte the way the processor does.
    pub fn get_byte(&self, address: u16) -> (r: u8)
        requires
            self.wf(),
        ensures
            r == self@.read(address),
    {
        if address < 0x100 && !self.boot_overlay_off {
            return self.boot_rom[address as usize];
        }
        match &self.mbc1 {
            Some(mbc1) => match mbc1.get_byte(address) {
                Some(x) => {
                    return x;
                },
                None => {},
            },
            None => {},
        }
        if address >= 0xE000 && address < 0xFE00 {
            return self.get_unchecked(address - 0x2000);
        }
        self.get_unchecked(address)
    }

    /// Reads entry `sprite_index` of the sprite table.
    pub fn read_sprite(&self, sprite_index: u8) -> (r: SpriteData)
        requires
            self.wf(),
            sprite_index < 40,
        ensures
            r == self@.sprite(sprite_index as int),
    {
        let base: usize = 0xFE00 + 4 * (sprite_index as usize);
        SpriteData {
            y_pos: self.mem[base],
            x_pos: self.mem[base + 1],
            tile_number: self.mem[base + 2],
            attributes: self.mem[base + 3],
        }
    }

    /// Writes a byte the way the processor does: the cartridge controller
    /// gets the write first, then the policy of the region decides.
    pub fn set_byte(&mut self, address: u16, b: u8)
        requires
            old(self).wf(),
        ensures
            final(self).wf(),
            final(self)@ == old(self)@.write(address, b),
    {
        match &mut self.mbc1 {
            Some(mbc1) => {
                if mbc1.set_byte(address, b) {
                    return;
                }
            },
            None => {},
        }
        if address < 0x8000 {
            return;
        }
        if address == 0xFF04 {
            self.mem[address as usize] = 0;
            return;
        }
        if address >= 0xFEA0 && address < 0xFF00 {
            return;
        }
        if address == 0xFF44 {
            return;
        }
        if address == 0xFF41 {
            let read_only_part = self.mem[0xFF41] % 8;
            self.mem[0xFF41] = (b / 8) * 8 + read_only_part;
            return;
        }
        if address >= 0xFE00 && address < 0xFEA0 {
            let lcd_mode = self.mem[0xFF41] % 4;
            if lcd_mode == 2 || lcd_mode == 3 {
                return;
            }
        }
        if address >= 0xE000 && address < 0xFE00 {
            self.mem[(address - 0x2000) as usize] = b;
            return;
        }
        if address == 0xFF46 {
            self.oam_dma_transfer(b);
            self.mem[address as usize] = b;
            return;
        }
        if address == 0xFF26 {
            self.mem[address as usize] = (b / 128) * 128;
            return;
        }
        if address == 0xFF14 && b >= 0x80 {
            self.channel_1_triggered = true;
        }
        if address == 0xFF19 && b >= 0x80 {
            self.channel_2_triggered = true;
        }
        if address == 0xFF1E && b >= 0x80 {
            self.channel_3_triggered = true;
        }
        if address == 0xFF23 && b >= 0x80 {
            self.channel_4_triggered = true;
        }
        if address == 0xFF50 && b != 0 {
            self.boot_overlay_off = true;
        }
        self.mem[address as usize] = b;
    }

    /// Copies the 160 bytes that start at `page * 256` to the sprite table,
    /// in one step.
    fn oam_dma_transfer(&mut self, page: u8)
        requires
            old(self).wf(),
        ensures
            final(self).wf(),
            final(self)@ == (MemoryView { mem: oam_dma(old(self)@.mem, page), ..old(self)@ }),
    {
        let source: usize = (page as usize) * 256;
        let mut k: usize = 0;
        while k < 0xA0
            invariant
                k <= 0xA0,
                source == page * 256,
                self.mem@.len() == 0x10000,
                forall|i: int|
                    0 <= i < 0x10000 ==> self.mem@[i] == if 0xFE00 <= i < 0xFE00 + k {
                        old(self)@.mem[source + (i - 0xFE00)]
                    } else {
                        old(self)@.mem[i]
                    },
                self.boot_rom == old(self).boot_rom,
                self.mbc1 == old(self).mbc1,
                self.boot_overlay_off == old(self).boot_overlay_off,
                self.channel_1_triggered == old(self).channel_1_triggered,
                self.channel_2_triggered == old(self).channel_2_triggered,
                self.channel_3_triggered == old(self).channel_3_triggered,
                self.channel_4_triggered == old(self).channel_4_triggered,
            decreases 0xA0 - k,
        {
            let value = self.mem[source + k];
            self.mem[0xFE00 + k] = value;
            k += 1;
        }
        assert(self.mem@ =~= oam_dma(old(self)@.mem, page));
    }

    /// Overwrites a cell directly, with no write policy.
    pub fn set_owned_byte(&mut self, address: u16, value: u8)
        requires
            old(self).wf(),
        ensures
            final(self).wf(),
            final(self)@ == old(self)@.with_cell(address, value),
    {
        self.set_unchecked(address, value);
    }

    /// Overwrites the cell of a register directly.
    pub fn set_register(&mut self, register: Register, value: u8)
        requires
            old(self).wf(),
        ensures
            final(self).wf(),
            final(self)@ == old(self)@.with_cell(register.spec_address(), value),
    {
        self.set_unchecked(register.address(), value);
    }

    /// Reads a little-endian word through the byte read path.
    pub fn get_word(&self, address: u16) -> (r: u16)
        requires
            self.wf(),
        ensures
            r == self@.read_word(address),
    {
        let lower = self.get_byte(address);
        let upper = self.get_byte(address.wrapping_add(1));
        concat_bytes(upper, lower)
    }

    /// Writes a little-endian word through the byte write path, low byte
    /// first.
    pub fn set_word(&mut self, address: u16, word: u16)
        requires
            old(self).wf(),
        ensures
            final(self).wf(),
            final(self)@ == old(self)@.write_word(address, word),
    {
        self.set_byte(address, get_lower(word));
        self.set_byte(address.wrapping_add(1), get_upper(word));
    }

    /// Reads a cell directly.
    pub fn get_unchecked(&self, address: u16) -> (r: u8)
        requires
            self.wf(),
        ensures
            r == self@.mem[address as int],
    {
        self.mem[address as usize]
    }

    /// Overwrites a cell directly.
    pub fn set_unchecked(&mut self, address: u16, value: u8)
        requires
            old(self).wf(),
        ensures
            final(self).wf(),
            final(self)@ == old(self)@.with_cell(address, value),
    {
        if address == 0xFF50 && value != 0 {
            self.boot_overlay_off = true;
        }
        self.mem[address as usize] = value;
    }

    pub fn channel_1_triggered(&self) -> (r: bool)
        ensures
            r == self@.channel_1_triggered,
    {
        self.channel_1_triggered
    }

    pub fn channel_2_triggered(&self) -> (r: bool)
        ensures
            r == self@.channel_2_triggered,
    {
        self.channel_2_triggered
    }

    pub fn channel_3_triggered(&self) -> (r: bool)
        ensures
            r == self@.channel_3_triggered,
    {
        self.channel_3_triggered
    }

    pub fn channel_4_triggered(&self) -> (r: bool)
        ensures
            r == self@.channel_4_triggered,
    {
        self.channel_4_triggered
    }

    /// Clears the four sound trigger latches.
    pub fn reset_triggers(&mut self)
        ensures
            final(self)@ == (MemoryView {
                channel_1_triggered: false,
                channel_2_triggered: false,
                channel_3_triggered: false,
                channel_4_triggered: false,
                ..old(self)@
            }),
    {
        self.channel_1_triggered = false;
        self.channel_2_triggered = false;
        self.channel_3_triggered = false;
        self.channel_4_triggered = false;
    }
}

/// The boot overlay is switched off for good: a value other than zero that
/// the processor writes to 0xFF50 switches it off, and once it is off no
/// write of the processor and no direct store switches it on again, whatever
/// is stored at 0xFF50 afterwards. While it is still on, the cell at 0xFF50
/// holds zero, if it held zero before.
pub proof fn lemma_boot_overlay_stays_off(m: MemoryView, address: u16, b: u8)
    ensures
        b != 0 ==> !m.write(0xFF50, b).boot_overlay_enabled(),
        !m.boot_overlay_enabled() ==> !m.write(address, b).boot_overlay_enabled()
            && !m.with_cell(address, b).boot_overlay_enabled() && !m.write_word(
            address,
            b as u16,
        ).boot_overlay_enabled(),
        (m.boot_overlay_enabled() ==> m.mem[0xFF50] == 0) && m.mem.len() == 0x10000
            && m.write(address, b).boot_overlay_enabled() ==> m.write(address, b).mem[0xFF50] == 0,
        (m.boot_overlay_enabled() ==> m.mem[0xFF50] == 0) && m.mem.len() == 0x10000
            && m.with_cell(address, b).boot_overlay_enabled() ==> m.with_cell(
            address,
            b,
        ).mem[0xFF50] == 0,
{
}

/// After the overlay was switched off, a read below 0x100 never shows the
/// boot ROM again: it shows what lies under the overlay, also after zero was
/// written to 0xFF50.
pub proof fn lemma_boot_overlay_read(m: MemoryView, b: u8, address: u16)
    requires
        m.wf(),
        b != 0,
        address < 0x100,
    ensures
        m.write(0xFF50, b).write(0xFF50, 0).read(address) == m.mem[address as int],
        m.write(0xFF50, b).read(address) == m.mem[address as int],
{
}

} // verus!
