use vstd::prelude::*;

verus! {

/// What a write to 0x4000-0x5FFF selects.
#[derive(Copy, Clone, Debug, PartialEq, Eq, Structural)]
pub enum BankingMode {
    Rom,
    Ram,
}

/// The size of one ROM bank in bytes.
pub const ROM_BANK_SIZE: usize = 0x4000;

/// The number of 16 KiB ROM banks that the header byte at 0x148 declares.
pub open spec fn rom_bank_count_for(code: u8) -> Option<nat> {
    if code == 0 {
        Some(2)
    } else if code == 1 {
        Some(4)
    } else if code == 2 {
        Some(8)
    } else if code == 3 {
        Some(16)
    } else if code == 4 {
        Some(32)
    } else if code == 5 {
        Some(64)
    } else if code == 6 {
        Some(128)
    } else {
        None
    }
}

/// The number of external RAM banks that the header byte at 0x149 declares.
pub open spec fn ram_bank_count_for(code: u8) -> Option<nat> {
    if code == 0 {
        Some(0)
    } else if code == 1 || code == 2 {
        Some(1)
    } else if code == 3 {
        Some(4)
    } else if code == 4 {
        Some(16)
    } else {
        None
    }
}

/// The size of each external RAM bank: 2 KiB for size code 1, else 8 KiB.
pub open spec fn ram_bank_size_for(code: u8) -> nat {
    if code == 1 {
        0x800
    } else {
        0x2000
    }
}

/// The number of bytes of external RAM that a cartridge header declares.
pub open spec fn declared_ram_size(rom: Seq<u8>) -> nat {
    ram_bank_count_for(rom[0x149]).unwrap() * ram_bank_size_for(rom[0x149])
}

/// A cartridge image that the controller can be set up from: the two size
/// bytes of its header are known, and it holds every ROM bank it declares.
pub open spec fn header_ok(rom: Seq<u8>) -> bool {
    &&& rom.len() > 0x149
    &&& rom_bank_count_for(rom[0x148]) is Some
    &&& ram_bank_count_for(rom[0x149]) is Some
    &&& rom.len() >= rom_bank_count_for(rom[0x148]).unwrap() * 0x4000
}

/// The bank that the switchable slot shows for a requested bank number: the
/// numbers 0x00, 0x20, 0x40 and 0x60 cannot be reached and give the bank
/// after them.
pub open spec fn spec_map_to_rom_bank(requested_bank: u8) -> u8 {
    if requested_bank == 0x00 || requested_bank == 0x20 || requested_bank == 0x40
        || requested_bank == 0x60 {
        (requested_bank + 1) as u8
    } else {
        requested_bank
    }
}

/// The mathematical model of the controller. The switchable ROM banks (bank 1
/// and up) lie end to end in `rom_banks`, the external RAM banks in
/// `ram_banks`.
pub struct Mbc1View {
    pub use_battery: bool,
    pub ram_banks_enabled: bool,
    pub selected_rom_bank: u8,
    pub selected_ram_bank: u8,
    pub banking_mode: BankingMode,
    pub rom_banks: Seq<u8>,
    pub ram_banks: Seq<u8>,
    pub ram_bank_size: nat,
}

impl Mbc1View {
    /// A controller with no banks, ROM bank 1 and RAM bank 0 selected.
    pub open spec fn fresh() -> Mbc1View {
        Mbc1View {
            use_battery: false,
            ram_banks_enabled: false,
            selected_rom_bank: 1,
            selected_ram_bank: 0,
            banking_mode: BankingMode::Rom,
            rom_banks: Seq::empty(),
            ram_banks: Seq::empty(),
            ram_bank_size: 0x2000,
        }
    }

    pub open spec fn wf(self) -> bool {
        &&& 1 <= self.selected_rom_bank < 128
        &&& self.selected_ram_bank < 4
        &&& (self.ram_bank_size == 0x800 || self.ram_bank_size == 0x2000)
        &&& self.rom_banks.len() % 0x4000 == 0
        &&& self.ram_banks.len() % self.ram_bank_size == 0
    }

    /// How many ROM banks the switchable slot can show.
    pub open spec fn rom_bank_count(self) -> nat {
        self.rom_banks.len() / 0x4000
    }

    pub open spec fn ram_bank_count(self) -> nat {
        self.ram_banks.len() / self.ram_bank_size
    }

    /// ROM bank number `bank`, for `1 <= bank <= rom_bank_count()`.
    pub open spec fn rom_bank(self, bank: int) -> Seq<u8> {
        self.rom_banks.subrange((bank - 1) * 0x4000, bank * 0x4000)
    }

    /// External RAM bank number `bank`, for `0 <= bank < ram_bank_count()`.
    pub open spec fn ram_bank(self, bank: int) -> Seq<u8> {
        self.ram_banks.subrange(bank * self.ram_bank_size, (bank + 1) * self.ram_bank_size)
    }

    /// Whether the selected ROM bank is one that the cartridge holds.
    pub open spec fn rom_selected_present(self) -> bool {
        self.selected_rom_bank as int <= self.rom_bank_count()
    }

    /// Whether `offset` lies inside the selected RAM bank and the cartridge
    /// holds that bank.
    pub open spec fn ram_selected_present(self, offset: int) -> bool {
        self.selected_ram_bank < self.ram_bank_count() && 0 <= offset < self.ram_bank_size
    }

    /// The byte that the controller supplies for a read, or `None` where it
    /// does not claim the address: outside the two banked regions, and inside
    /// them where the selected bank does not exist.
    pub open spec fn read(self, address: u16) -> Option<u8> {
        if 0x4000 <= address < 0x8000 {
            if self.rom_selected_present() {
                Some(self.rom_banks[(self.selected_rom_bank - 1) * 0x4000 + (address - 0x4000)])
            } else {
                None
            }
        } else if 0xA000 <= address < 0xC000 {
            if self.ram_selected_present(address - 0xA000) {
                Some(
                    self.ram_banks[self.selected_ram_bank * self.ram_bank_size + (address
                        - 0xA000)],
                )
            } else {
                None
            }
        } else {
            None
        }
    }

    /// Whether the controller consumes a write to `address`.
    pub open spec fn claims_write(address: u16) -> bool {
        0x2000 <= address < 0x8000 || 0xA000 <= address < 0xC000
    }

    /// The controller after a write of `b` to `address`.
    pub open spec fn write(self, address: u16, b: u8) -> Mbc1View {
        if 0x2000 <= address < 0x4000 {
            Mbc1View {
                selected_rom_bank: spec_map_to_rom_bank(
                    (b & 0x1F) | (self.selected_rom_bank & 0x60),
                ),
                ..self
            }
        } else if 0xA000 <= address < 0xC000 {
            if self.ram_selected_present(address - 0xA000) {
                Mbc1View {
                    ram_banks: self.ram_banks.update(
                        self.selected_ram_bank * self.ram_bank_size + (address - 0xA000),
                        b,
                    ),
                    ..self
                }
            } else {
                self
            }
        } else if 0x4000 <= address < 0x6000 {
            match self.banking_mode {
                BankingMode::Ram => Mbc1View { selected_ram_bank: b & 0x03, ..self },
                BankingMode::Rom => Mbc1View {
                    selected_rom_bank: spec_map_to_rom_bank(
                        (self.selected_rom_bank & 0x1F) | ((b << 5) & 0x60),
                    ),
                    ..self
                },
            }
        } else if 0x6000 <= address < 0x8000 {
            Mbc1View {
                banking_mode: if b & 1 == 1 {
                    BankingMode::Ram
                } else {
                    BankingMode::Rom
                },
                ..self
            }
        } else {
            self
        }
    }

    /// The controller as `initialize` leaves it for a cartridge image.
    pub open spec fn initialized(self, rom: Seq<u8>) -> Mbc1View {
        Mbc1View {
            use_battery: rom[0x147] == 0x03,
            rom_banks: rom.subrange(
                0x4000,
                (rom_bank_count_for(rom[0x148]).unwrap() * 0x4000) as int,
            ),
            ram_banks: Seq::new(
                ram_bank_count_for(rom[0x149]).unwrap() * ram_bank_size_for(rom[0x149]),
                |i: int| 0u8,
            ),
            ram_bank_size: ram_bank_size_for(rom[0x149]),
            ..self
        }
    }

    /// The controller after a save image was loaded into its RAM banks.
    pub open spec fn with_ram(self, save: Seq<u8>) -> Mbc1View {
        Mbc1View { ram_banks: save.subrange(0, self.ram_banks.len() as int), ..self }
    }
}

/// Facts about the masks used in bank selection.
pub proof fn lemma_bank_select_bounds(b: u8, selected: u8)
    by (bit_vector)
    ensures
        (b & 0x1F) | (selected & 0x60) < 128,
        (selected & 0x1F) | ((b << 5) & 0x60) < 128,
        b & 0x03 < 4,
        b & 1 == 0 || b & 1 == 1,
{
}

/// The bank numbers 0x00, 0x20, 0x40 and 0x60 cannot be reached through the
/// switchable slot: after a write to the bank select register that asks for
/// one of them, a read of the slot gives the bytes of the bank after it.
pub proof fn lemma_unreachable_banks(mbc: Mbc1View, b: u8, offset: u16)
    requires
        mbc.wf(),
        offset < 0x4000,
        ({
            let requested = (b & 0x1F) | (mbc.selected_rom_bank & 0x60);
            &&& (requested == 0x00 || requested == 0x20 || requested == 0x40 || requested == 0x60)
            &&& requested + 1 <= mbc.rom_bank_count()
        }),
    ensures
        mbc.write(0x2000, b).selected_rom_bank == ((b & 0x1F) | (mbc.selected_rom_bank & 0x60)) + 1,
        mbc.write(0x2000, b).read((0x4000 + offset) as u16) == Some(
            mbc.rom_bank(((b & 0x1F) | (mbc.selected_rom_bank & 0x60)) + 1)[offset as int],
        ),
{
}

/// The MBC1 cartridge controller.
pub struct MemoryBankController1 {
    pub use_battery: bool,
    pub ram_banks_enabled: bool,
    pub selected_rom_bank: u8,
    pub selected_ram_bank: u8,
    pub banking_mode: BankingMode,
    pub rom_banks: Vec<u8>,
    pub ram_banks: Vec<u8>,
    pub ram_bank_size: usize,
}

impl View for MemoryBankController1 {
    type V = Mbc1View;

    open spec fn view(&self) -> Mbc1View {
        Mbc1View {
            use_battery: self.use_battery,
            ram_banks_enabled: self.ram_banks_enabled,
            selected_rom_bank: self.selected_rom_bank,
            selected_ram_bank: self.selected_ram_bank,
            banking_mode: self.banking_mode,
            rom_banks: self.rom_banks@,
            ram_banks: self.ram_banks@,
            ram_bank_size: self.ram_bank_size as nat,
        }
    }
}

impl MemoryBankController1 {
    pub open spec fn wf(&self) -> bool {
        self@.wf()
    }

    /// A controller with no banks, ROM bank 1 and RAM bank 0 selected.
    pub fn new() -> (r: MemoryBankController1)
        ensures
            r.wf(),
            r@ == Mbc1View::fresh(),
    {
        MemoryBankController1 {
            use_battery: false,
            ram_banks_enabled: false,
            selected_rom_bank: 1,
            selected_ram_bank: 0,
            banking_mode: BankingMode::Rom,
            rom_banks: Vec::new(),
            ram_banks: Vec::new(),
            ram_bank_size: 0x2000,
        }
    }

    /// Whether `initialize` accepts the cartridge image.
    pub fn accepts(rom_buf: &[u8]) -> (ok: bool)
        ensures
            ok == header_ok(rom_buf@),
    {
        if rom_buf.len() <= 0x149 {
            return false;
        }
        let rom_code = rom_buf[0x148];
        let ram_code = rom_buf[0x149];
        if rom_code > 6 || ram_code > 4 {
            return false;
        }
        let num_rom_banks: usize = rom_bank_count(rom_code);
        rom_buf.len() >= num_rom_banks * ROM_BANK_SIZE
    }

    /// The number of bytes of external RAM that the header of an accepted
    /// cartridge image declares.
    pub fn external_ram_size(rom_buf: &[u8]) -> (n: usize)
        requires
            header_ok(rom_buf@),
        ensures
            n == declared_ram_size(rom_buf@),
    {
        let ram_code = rom_buf[0x149];
        let bank_size: usize = if ram_code == 1 { 0x800 } else { 0x2000 };
        ram_bank_count(ram_code) * bank_size
    }

    /// Reads the cartridge header and takes over the banks: every ROM bank
    /// after bank 0, and zeroed external RAM of the declared size. The battery
    /// flag is set for cartridge type 0x03.
    pub fn initialize(&mut self, rom_buf: &[u8])
        requires
            old(self).wf(),
            header_ok(rom_buf@),
        ensures
            final(self).wf(),
            final(self)@ == old(self)@.initialized(rom_buf@),
    {
        let mbc_type = rom_buf[0x147];
        let num_rom_banks: usize = rom_bank_count(rom_buf[0x148]);
        let ram_code = rom_buf[0x149];
        let num_ram_banks: usize = ram_bank_count(ram_code);
        let bank_size: usize = if ram_code == 1 { 0x800 } else { 0x2000 };

        self.use_battery = mbc_type == 0x03;

        let end: usize = num_rom_banks * ROM_BANK_SIZE;
        let mut rom: Vec<u8> = Vec::new();
        let mut i: usize = ROM_BANK_SIZE;
        while i < end
            invariant
                0x4000 <= i <= end <= rom_buf@.len(),
                rom@ == rom_buf@.subrange(0x4000, i as int),
            decreases end - i,
        {
            rom.push(rom_buf[i]);
            i += 1;
            assert(rom@ =~= rom_buf@.subrange(0x4000, i as int));
        }
        self.rom_banks = rom;

        let ram_len: usize = num_ram_banks * bank_size;
        let mut ram: Vec<u8> = Vec::new();
        let mut j: usize = 0;
        while j < ram_len
            invariant
                j <= ram_len,
                ram@ == Seq::new(j as nat, |k: int| 0u8),
            decreases ram_len - j,
        {
            ram.push(0);
            j += 1;
            assert(ram@ =~= Seq::new(j as nat, |k: int| 0u8));
        }
        self.ram_banks = ram;
        self.ram_bank_size = bank_size;
        assert(end % 0x4000 == 0);
        assert(ram_len % bank_size == 0);
    }

    /// Reads through the controller. `None` means that the controller does
    /// not supply this address.
    pub fn get_byte(&self, address: u16) -> (r: Option<u8>)
        requires
            self.wf(),
        ensures
            r == self@.read(address),
    {
        if address >= 0x4000 && address < 0x8000 {
            let bank: usize = self.selected_rom_bank as usize;
            if bank <= self.rom_banks.len() / ROM_BANK_SIZE {
                return Some(self.rom_banks[(bank - 1) * ROM_BANK_SIZE + (address - 0x4000) as usize]);
            }
            return None;
        }
        if address >= 0xA000 && address < 0xC000 {
            let bank: usize = self.selected_ram_bank as usize;
            let offset: usize = (address - 0xA000) as usize;
            if bank < self.ram_banks.len() / self.ram_bank_size && offset < self.ram_bank_size {
                assert((bank + 1) * self.ram_bank_size <= self.ram_banks.len()) by (nonlinear_arith)
                    requires
                        bank < self.ram_banks.len() / self.ram_bank_size,
                        self.ram_bank_size > 0,
                ;
                assert(bank * self.ram_bank_size + self.ram_bank_size == (bank + 1)
                    * self.ram_bank_size) by (nonlinear_arith);
                return Some(self.ram_banks[bank * self.ram_bank_size + offset]);
            }
            return None;
        }
        None
    }

    /// Lets the controller take a write. Returns whether it consumed it.
    pub fn set_byte(&mut self, address: u16, b: u8) -> (consumed: bool)
        requires
            old(self).wf(),
        ensures
            final(self).wf(),
            consumed == Mbc1View::claims_write(address),
            final(self)@ == old(self)@.write(address, b),
    {
        proof {
            lemma_bank_select_bounds(b, self.selected_rom_bank);
        }
        if address >= 0x2000 && address < 0x4000 {
            let requested_bank = (b & 0x1F) | (self.selected_rom_bank & 0x60);
            self.selected_rom_bank = map_to_rom_bank(requested_bank);
            return true;
        }
        if address >= 0xA000 && address < 0xC000 {
            let bank: usize = self.selected_ram_bank as usize;
            let offset: usize = (address - 0xA000) as usize;
            if bank < self.ram_banks.len() / self.ram_bank_size && offset < self.ram_bank_size {
                assert((bank + 1) * self.ram_bank_size <= self.ram_banks.len()) by (nonlinear_arith)
                    requires
                        bank < self.ram_banks.len() / self.ram_bank_size,
                        self.ram_bank_size > 0,
                ;
                assert(bank * self.ram_bank_size + self.ram_bank_size == (bank + 1)
                    * self.ram_bank_size) by (nonlinear_arith);
                self.ram_banks[bank * self.ram_bank_size + offset] = b;
            }
            return true;
        }
        if address >= 0x4000 && address < 0x6000 {
            match self.banking_mode {
                BankingMode::Ram => {
                    self.selected_ram_bank = b & 0x03;
                },
                BankingMode::Rom => {
                    let requested_bank = (self.selected_rom_bank & 0x1F) | ((b << 5) & 0x60);
                    self.selected_rom_bank = map_to_rom_bank(requested_bank);
                },
            }
            return true;
        }
        if address >= 0x6000 && address < 0x8000 {
            self.banking_mode = if b & 1 == 1 {
                BankingMode::Ram
            } else {
                BankingMode::Rom
            };
            return true;
        }
        false
    }

    /// Restores the external RAM from a save image: the banks in index order,
    /// one after the other.
    pub fn load_external_ram(&mut self, save_buf: &[u8])
        requires
            old(self).wf(),
            save_buf@.len() >= old(self).ram_banks@.len(),
        ensures
            final(self).wf(),
            final(self)@ == old(self)@.with_ram(save_buf@),
    {
        let n: usize = self.ram_banks.len();
        let mut i: usize = 0;
        while i < n
            invariant
                i <= n,
                n == self.ram_banks@.len(),
                n <= save_buf@.len(),
                self.ram_banks@.subrange(0, i as int) == save_buf@.subrange(0, i as int),
                self.use_battery == old(self).use_battery,
                self.ram_banks_enabled == old(self).ram_banks_enabled,
                self.selected_rom_bank == old(self).selected_rom_bank,
                self.selected_ram_bank == old(self).selected_ram_bank,
                self.banking_mode == old(self).banking_mode,
                self.rom_banks == old(self).rom_banks,
                self.ram_bank_size == old(self).ram_bank_size,
            decreases n - i,
        {
            let ghost before = self.ram_banks@;
            self.ram_banks[i] = save_buf[i];
            assert(self.ram_banks@.subrange(0, i + 1) =~= save_buf@.subrange(0, i + 1)) by {
                assert forall|k: int| 0 <= k < i implies self.ram_banks@[k] == save_buf@[k] by {
                    assert(before.subrange(0, i as int)[k] == save_buf@.subrange(0, i as int)[k]);
                }
            }
            i += 1;
        }
        assert(self.ram_banks@ =~= self.ram_banks@.subrange(0, n as int));
    }

    /// The external RAM as a save image: the banks in index order, one after
    /// the other.
    pub fn get_external_ram_banks(&self) -> (r: Vec<u8>)
        ensures
            r@ == self@.ram_banks,
    {
        let n: usize = self.ram_banks.len();
        let mut result: Vec<u8> = Vec::new();
        let mut i: usize = 0;
        while i < n
            invariant
                i <= n,
                n == self.ram_banks@.len(),
                result@ == self.ram_banks@.subrange(0, i as int),
            decreases n - i,
        {
            result.push(self.ram_banks[i]);
            i += 1;
            assert(result@ =~= self.ram_banks@.subrange(0, i as int));
        }
        assert(result@ =~= self.ram_banks@);
        result
    }
}

/// The number of ROM banks for a size code from 0 to 6.
fn rom_bank_count(code: u8) -> (n: usize)
    requires
        code <= 6,
    ensures
        Some(n as nat) == rom_bank_count_for(code),
        n <= 128,
{
    if code == 0 {
        2
    } else if code == 1 {
        4
    } else if code == 2 {
        8
    } else if code == 3 {
        16
    } else if code == 4 {
        32
    } else if code == 5 {
        64
    } else {
        128
    }
}

/// The number of external RAM banks for a size code from 0 to 4.
fn ram_bank_count(code: u8) -> (n: usize)
    requires
        code <= 4,
    ensures
        Some(n as nat) == ram_bank_count_for(code),
        n <= 16,
{
    if code == 0 {
        0
    } else if code == 1 || code == 2 {
        1
    } else if code == 3 {
        4
    } else {
        16
    }
}

/// Maps a requested bank number to the bank that the switchable slot shows.
pub fn map_to_rom_bank(requested_bank: u8) -> (r: u8)
    ensures
        r == spec_map_to_rom_bank(requested_bank),
        requested_bank < 128 ==> 1 <= r < 128,
{
    if requested_bank == 0x00 || requested_bank == 0x20 || requested_bank == 0x40
        || requested_bank == 0x60 {
        requested_bank + 1
    } else {
        requested_bank
    }
}

} // verus!
