use vstd::prelude::*;
use crate::cb_instructions::get_cb_instruction_set;
use crate::instructions::{
    decode, get_instruction_set, lemma_table_entries, table_entries, Instruction,
};
use crate::util::{concat_bytes, get_lower, get_upper, set_lower, set_upper};

verus! {

/// The four condition flags of the processor. They occupy the upper four bits
/// of the F register; its lower four bits always read zero.
#[derive(Copy, Clone, Debug, PartialEq, Eq, Structural)]
pub struct FlagRegister {
    pub zero: bool,
    pub subtract: bool,
    pub half_carry: bool,
    pub carry: bool,
}

/// The byte that the F register shows for a set of flags.
pub open spec fn flags_to_byte(f: FlagRegister) -> u8 {
    ((if f.zero { 0x80int } else { 0 }) + (if f.subtract { 0x40int } else { 0 })
        + (if f.half_carry { 0x20int } else { 0 }) + (if f.carry { 0x10int } else { 0 })) as u8
}

/// The flags that a byte written to the F register selects. The low four bits
/// of the byte are ignored.
pub open spec fn byte_to_flags(val: u8) -> FlagRegister {
    FlagRegister {
        zero: (val / 0x80) % 2 == 1,
        subtract: (val / 0x40) % 2 == 1,
        half_carry: (val / 0x20) % 2 == 1,
        carry: (val / 0x10) % 2 == 1,
    }
}

impl FlagRegister {
    pub fn new() -> (r: FlagRegister)
        ensures
            r == (FlagRegister { zero: false, subtract: false, half_carry: false, carry: false }),
    {
        FlagRegister { zero: false, subtract: false, half_carry: false, carry: false }
    }

    /// The value-form of the flags: Z, N, H and C in bits 7 to 4.
    pub fn value(&self) -> (val: u8)
        ensures
            val == flags_to_byte(*self),
            val % 16 == 0,
    {
        let mut val: u8 = 0;
        if self.zero {
            val += 0x80;
        }
        if self.subtract {
            val += 0x40;
        }
        if self.half_carry {
            val += 0x20;
        }
        if self.carry {
            val += 0x10;
        }
        val
    }

    /// Loads the flags from a byte; its low four bits are dropped.
    pub fn set(&mut self, val: u8)
        ensures
            *final(self) == byte_to_flags(val),
    {
        self.zero = (val / 0x80) % 2 == 1;
        self.subtract = (val / 0x40) % 2 == 1;
        self.half_carry = (val / 0x20) % 2 == 1;
        self.carry = (val / 0x10) % 2 == 1;
    }
}

/// Reading the flags back after loading them from a byte gives that byte with
/// its low four bits cleared, and loading the value-form of a set of flags
/// gives the same flags.
pub proof fn lemma_flags_round_trip(f: FlagRegister, val: u8)
    ensures
        byte_to_flags(flags_to_byte(f)) == f,
        flags_to_byte(byte_to_flags(val)) == val - val % 16,
        flags_to_byte(f) % 16 == 0,
{
}

/// The register file of the processor.
#[derive(Copy, Clone, Debug, PartialEq, Eq, Structural)]
pub struct Cpu {
    pub a: u8,
    pub bc: u16,
    pub de: u16,
    pub hl: u16,
    pub sp: u16,
    pub pc: u16,
    pub interrupt_enable_master: bool,
    pub flag: FlagRegister,
    pub is_halted: bool,
}

impl Cpu {
    /// The register pair AF: A in the high byte, the flags in the low byte.
    pub open spec fn spec_af(self) -> u16 {
        (self.a * 256 + flags_to_byte(self.flag)) as u16
    }

    pub open spec fn spec_b(self) -> u8 {
        (self.bc / 256) as u8
    }

    pub open spec fn spec_c(self) -> u8 {
        (self.bc % 256) as u8
    }

    pub open spec fn spec_d(self) -> u8 {
        (self.de / 256) as u8
    }

    pub open spec fn spec_e(self) -> u8 {
        (self.de % 256) as u8
    }

    pub open spec fn spec_h(self) -> u8 {
        (self.hl / 256) as u8
    }

    pub open spec fn spec_l(self) -> u8 {
        (self.hl % 256) as u8
    }

    /// The registers after AF is loaded with `val`.
    pub open spec fn with_af(self, val: u16) -> Cpu {
        Cpu { a: (val / 256) as u8, flag: byte_to_flags((val % 256) as u8), ..self }
    }

    /// The register file as it is right after power-on.
    pub open spec fn spec_power_on(self) -> Cpu {
        Cpu {
            a: 0x01,
            flag: FlagRegister { zero: true, subtract: false, half_carry: true, carry: true },
            bc: 0x0013,
            de: 0x00D8,
            hl: 0x014D,
            sp: 0xFFFE,
            pc: 0x0000,
            ..self
        }
    }

    /// The register file with every register zero and every flag clear.
    pub open spec fn spec_new() -> Cpu {
        Cpu {
            a: 0,
            bc: 0,
            de: 0,
            hl: 0,
            sp: 0,
            pc: 0,
            interrupt_enable_master: false,
            flag: FlagRegister { zero: false, subtract: false, half_carry: false, carry: false },
            is_halted: false,
        }
    }

    pub fn new() -> (r: Cpu)
        ensures
            r == Cpu::spec_new(),
    {
        Cpu {
            a: 0,
            bc: 0,
            de: 0,
            hl: 0,
            sp: 0,
            pc: 0,
            interrupt_enable_master: false,
            flag: FlagRegister::new(),
            is_halted: false,
        }
    }

    pub fn get_af(&self) -> (r: u16)
        ensures
            r == self.spec_af(),
            r % 16 == 0,
    {
        concat_bytes(self.a, self.flag.value())
    }

    pub fn get_a(&self) -> (r: u8)
        ensures
            r == self.a,
    {
        self.a
    }

    pub fn get_b(&self) -> (r: u8)
        ensures
            r == self.spec_b(),
    {
        get_upper(self.bc)
    }

    pub fn get_d(&self) -> (r: u8)
        ensures
            r == self.spec_d(),
    {
        get_upper(self.de)
    }

    pub fn get_h(&self) -> (r: u8)
        ensures
            r == self.spec_h(),
    {
        get_upper(self.hl)
    }

    pub fn get_c(&self) -> (r: u8)
        ensures
            r == self.spec_c(),
    {
        get_lower(self.bc)
    }

    pub fn get_e(&self) -> (r: u8)
        ensures
            r == self.spec_e(),
    {
        get_lower(self.de)
    }

    pub fn get_l(&self) -> (r: u8)
        ensures
            r == self.spec_l(),
    {
        get_lower(self.hl)
    }

    /// Loads A from the high byte and the flags from the low byte, whose low
    /// four bits are dropped.
    pub fn set_af(&mut self, val: u16)
        ensures
            *final(self) == old(self).with_af(val),
    {
        self.a = get_upper(val);
        self.flag.set(get_lower(val));
    }

    pub fn set_a(&mut self, b: u8)
        ensures
            *final(self) == (Cpu { a: b, ..*old(self) }),
    {
        self.a = b;
    }

    pub fn set_b(&mut self, b: u8)
        ensures
            *final(self) == (Cpu { bc: (b * 256 + old(self).bc % 256) as u16, ..*old(self) }),
    {
        set_upper(&mut self.bc, b);
    }

    pub fn set_d(&mut self, b: u8)
        ensures
            *final(self) == (Cpu { de: (b * 256 + old(self).de % 256) as u16, ..*old(self) }),
    {
        set_upper(&mut self.de, b);
    }

    pub fn set_h(&mut self, b: u8)
        ensures
            *final(self) == (Cpu { hl: (b * 256 + old(self).hl % 256) as u16, ..*old(self) }),
    {
        set_upper(&mut self.hl, b);
    }

    pub fn set_c(&mut self, b: u8)
        ensures
            *final(self) == (Cpu { bc: ((old(self).bc / 256) * 256 + b) as u16, ..*old(self) }),
    {
        set_lower(&mut self.bc, b);
    }

    pub fn set_e(&mut self, b: u8)
        ensures
            *final(self) == (Cpu { de: ((old(self).de / 256) * 256 + b) as u16, ..*old(self) }),
    {
        set_lower(&mut self.de, b);
    }

    pub fn set_l(&mut self, b: u8)
        ensures
            *final(self) == (Cpu { hl: ((old(self).hl / 256) * 256 + b) as u16, ..*old(self) }),
    {
        set_lower(&mut self.hl, b);
    }

    /// Puts the registers into their power-on state. The interrupt master
    /// enable and the halt latch are left as they are.
    pub fn power_on(&mut self)
        ensures
            *final(self) == old(self).spec_power_on(),
            final(self).spec_af() == 0x01B0,
    {
        self.set_af(0x01B0);
        self.bc = 0x0013;
        self.de = 0x00D8;
        self.hl = 0x014D;
        self.sp = 0xFFFE;
        self.pc = 0x0000;
    }
}

/// The two instruction tables, indexed by opcode byte.
pub struct InstructionSet {
    pub instructions: Vec<Option<Instruction>>,
    pub cb_instructions: Vec<Option<Instruction>>,
}

/// Whether `map` holds, under each byte, what the table has for it.
pub open spec fn indexes_table(map: Seq<Option<Instruction>>, extended: bool) -> bool {
    &&& map.len() == 256
    &&& forall|opcode: u8| #[trigger] map[opcode as int] == decode(extended, opcode)
}

/// Lays the list of a table out by opcode.
fn index_table(extended: bool) -> (map: Vec<Option<Instruction>>)
    ensures
        indexes_table(map@, extended),
{
    let list = if extended { get_cb_instruction_set() } else { get_instruction_set() };
    let mut map: Vec<Option<Instruction>> = Vec::new();
    let mut n: usize = 0;
    while n < 0x100
        invariant
            n <= 0x100,
            map@.len() == n,
            forall|i: int| 0 <= i < n ==> map@[i] is None,
        decreases 0x100 - n,
    {
        map.push(None);
        n += 1;
    }
    proof {
        lemma_table_entries(extended, 256);
    }
    let mut k: usize = 0;
    while k < list.len()
        invariant
            k <= list@.len(),
            list@ == table_entries(extended, 256),
            map@.len() == 256,
            forall|i: int|
                0 <= i < list@.len() ==> (#[trigger] list@[i]).opcode < 256 && decode(
                    extended,
                    list@[i].opcode,
                ) == Some(list@[i]),
            forall|i: int, j: int|
                0 <= i < j < list@.len() ==> (#[trigger] list@[i]).opcode < (
                #[trigger] list@[j]).opcode,
            forall|opcode: u8| (#[trigger] map@[opcode as int]) is Some ==> map@[opcode as int]
                == decode(extended, opcode),
            forall|j: int| 0 <= j < k ==> map@[(#[trigger] list@[j]).opcode as int] == Some(list@[j]),
        decreases list@.len() - k,
    {
        let ins = list[k];
        let opcode = ins.opcode;
        map[opcode as usize] = Some(ins);
        k += 1;
    }
    assert forall|opcode: u8| #[trigger] map@[opcode as int] == decode(extended, opcode) by {
        if decode(extended, opcode) is Some {
            let entry = decode(extended, opcode).unwrap();
            assert(list@.contains(entry));
            let j = choose|j: int| 0 <= j < list@.len() && list@[j] == entry;
            assert(list@[j].opcode == opcode);
        }
    }
    map
}

impl InstructionSet {
    pub open spec fn wf(&self) -> bool {
        &&& indexes_table(self.instructions@, false)
        &&& indexes_table(self.cb_instructions@, true)
    }

    /// Builds both tables from their lists.
    pub fn new() -> (r: InstructionSet)
        ensures
            r.wf(),
    {
        InstructionSet { instructions: index_table(false), cb_instructions: index_table(true) }
    }

    /// The entry of the primary table for an opcode byte.
    pub fn get_instruction(&self, opcode: u8) -> (r: Option<&Instruction>)
        requires
            self.wf(),
        ensures
            r == match decode(false, opcode) {
                Some(entry) => Some(&entry),
                None => None,
            },
    {
        self.instructions[opcode as usize].as_ref()
    }

    /// The entry of the extended table for the byte after the prefix.
    pub fn get_cb_instruction(&self, opcode: u8) -> (r: Option<&Instruction>)
        requires
            self.wf(),
        ensures
            r == match decode(true, opcode) {
                Some(entry) => Some(&entry),
                None => None,
            },
    {
        self.cb_instructions[opcode as usize].as_ref()
    }
}

} // verus!
