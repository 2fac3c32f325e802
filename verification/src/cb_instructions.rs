use vstd::prelude::*;
use crate::cpu::FlagRegister;
use crate::game_boy::{GameBoy, GameBoyView};
use crate::instructions::{table_entries, Instruction, Operation};
use crate::math::{rotate_left, rotate_right, shift_flags, spec_rotate_left, spec_rotate_right};
use crate::util::{get_reg8, set_reg8, Reg8};

verus! {

/// A byte with its two nibbles exchanged.
pub open spec fn spec_swap(value: u8) -> u8 {
    ((value % 16) * 16 + value / 16) as u8
}

/// A byte with bit `bit` cleared.
pub open spec fn spec_reset_bit(value: u8, bit: u8) -> u8 {
    value & !(1u8 << bit)
}

/// A byte with bit `bit` set.
pub open spec fn spec_set_bit(value: u8, bit: u8) -> u8 {
    value | (1u8 << bit)
}

/// The flags after BIT: Z is set when the tested bit is clear, N is clear, H
/// is set, C is kept.
pub open spec fn test_bit_flags(f: FlagRegister, val: u8, bit: u8) -> FlagRegister {
    FlagRegister { zero: val & (1u8 << bit) == 0, subtract: false, half_carry: true, carry: f.carry }
}

impl GameBoyView {
    /// RLC and RL on a register or on `(HL)`.
    pub open spec fn after_rotate_left(self, reg: Reg8, through: bool) -> GameBoyView {
        let v = self.reg8(reg);
        let result = spec_rotate_left(v, self.cpu.flag.carry, through);
        self.with_flags(shift_flags(result, v >= 128)).with_reg8(reg, result)
    }

    /// RRC and RR on a register or on `(HL)`.
    pub open spec fn after_rotate_right(self, reg: Reg8, through: bool) -> GameBoyView {
        let v = self.reg8(reg);
        let result = spec_rotate_right(v, self.cpu.flag.carry, through);
        self.with_flags(shift_flags(result, v % 2 == 1)).with_reg8(reg, result)
    }

    /// SWAP: the nibbles change places; Z from the value, the other flags
    /// clear.
    pub open spec fn after_swap(self, reg: Reg8) -> GameBoyView {
        let v = self.reg8(reg);
        self.with_flags(shift_flags(v, false)).with_reg8(reg, spec_swap(v))
    }

    /// SLA: shift left, bit 0 becomes zero.
    pub open spec fn after_shift_left(self, reg: Reg8) -> GameBoyView {
        let v = self.reg8(reg);
        let result = ((v * 2) % 256) as u8;
        self.with_flags(shift_flags(result, v >= 128)).with_reg8(reg, result)
    }

    /// SRA: shift right, bit 7 keeps its value.
    pub open spec fn after_shift_right_keep_sign(self, reg: Reg8) -> GameBoyView {
        let v = self.reg8(reg);
        let result = (v / 2 + (v / 128) * 128) as u8;
        self.with_flags(shift_flags(result, v % 2 == 1)).with_reg8(reg, result)
    }

    /// SRL: shift right, bit 7 becomes zero.
    pub open spec fn after_shift_right(self, reg: Reg8) -> GameBoyView {
        let v = self.reg8(reg);
        let result = v / 2;
        self.with_flags(shift_flags(result, v % 2 == 1)).with_reg8(reg, result)
    }
}

/// BIT on a value: sets the flags from bit `bit` of `val`.
pub fn test_bit(gb: &mut GameBoy, val: u8, bit: u8)
    requires
        bit < 8,
    ensures
        final(gb)@ == old(gb)@.with_flags(test_bit_flags(old(gb).cpu.flag, val, bit)),
{
    let mask: u8 = 1u8 << bit;
    gb.cpu.flag.subtract = false;
    gb.cpu.flag.half_carry = true;
    gb.cpu.flag.zero = val & mask == 0;
}

/// BIT n,r and BIT n,(HL).
pub fn test_bit_n(gb: &mut GameBoy, bit: u8, reg: Reg8)
    requires
        old(gb).wf(),
        bit < 8,
    ensures
        final(gb).wf(),
        final(gb)@ == old(gb)@.with_flags(
            test_bit_flags(old(gb).cpu.flag, old(gb)@.reg8(reg), bit),
        ),
{
    let b = get_reg8(gb, reg);
    test_bit(gb, b, bit)
}

/// Clears bit `bit` of a byte.
pub fn reset_bit(value: u8, bit: u8) -> (r: u8)
    requires
        bit < 8,
    ensures
        r == spec_reset_bit(value, bit),
{
    value & !(1u8 << bit)
}

/// RES n,r and RES n,(HL); no flag changes.
pub fn reset_bit_n(gb: &mut GameBoy, bit: u8, reg: Reg8)
    requires
        old(gb).wf(),
        bit < 8,
    ensures
        final(gb).wf(),
        final(gb)@ == old(gb)@.with_reg8(reg, spec_reset_bit(old(gb)@.reg8(reg), bit)),
{
    let reg_val = get_reg8(gb, reg);
    let result = reset_bit(reg_val, bit);
    set_reg8(gb, reg, result);
}

/// Sets bit `bit` of a byte.
pub fn set_bit(value: u8, bit: u8) -> (r: u8)
    requires
        bit < 8,
    ensures
        r == spec_set_bit(value, bit),
{
    value | (1u8 << bit)
}

/// SET n,r and SET n,(HL); no flag changes.
pub fn set_bit_n(gb: &mut GameBoy, bit: u8, reg: Reg8)
    requires
        old(gb).wf(),
        bit < 8,
    ensures
        final(gb).wf(),
        final(gb)@ == old(gb)@.with_reg8(reg, spec_set_bit(old(gb)@.reg8(reg), bit)),
{
    let reg_val = get_reg8(gb, reg);
    let result = set_bit(reg_val, bit);
    set_reg8(gb, reg, result);
}

/// Exchanges the nibbles of a byte and sets the flags.
pub fn swap(gb: &mut GameBoy, value: u8) -> (r: u8)
    ensures
        r == spec_swap(value),
        final(gb)@ == old(gb)@.with_flags(shift_flags(value, false)),
{
    gb.cpu.flag.zero = value == 0;
    gb.cpu.flag.subtract = false;
    gb.cpu.flag.half_carry = false;
    gb.cpu.flag.carry = false;
    (value % 16) * 16 + value / 16
}

/// SWAP r and SWAP (HL).
pub fn swap_reg(gb: &mut GameBoy, reg: Reg8)
    requires
        old(gb).wf(),
    ensures
        final(gb).wf(),
        final(gb)@ == old(gb)@.after_swap(reg),
{
    let value = get_reg8(gb, reg);
    let result = swap(gb, value);
    set_reg8(gb, reg, result);
}

/// RLC and RL: the bit that leaves at the top becomes the carry.
pub fn rotate_reg_left(gb: &mut GameBoy, reg: Reg8, through: bool)
    requires
        old(gb).wf(),
    ensures
        final(gb).wf(),
        final(gb)@ == old(gb)@.after_rotate_left(reg, through),
        final(gb).cpu.flag.carry == (old(gb)@.reg8(reg) >= 128),
{
    let reg_val = get_reg8(gb, reg);
    let result = rotate_left(gb, reg_val, through);
    set_reg8(gb, reg, result);
}

/// RRC and RR: the bit that leaves at the bottom becomes the carry.
pub fn rotate_reg_right(gb: &mut GameBoy, reg: Reg8, through: bool)
    requires
        old(gb).wf(),
    ensures
        final(gb).wf(),
        final(gb)@ == old(gb)@.after_rotate_right(reg, through),
        final(gb).cpu.flag.carry == (old(gb)@.reg8(reg) % 2 == 1),
{
    let reg_val = get_reg8(gb, reg);
    let result = rotate_right(gb, reg_val, through);
    set_reg8(gb, reg, result);
}

/// Shifts a byte left by one bit and sets the flags.
pub fn shift_left(gb: &mut GameBoy, val: u8) -> (result: u8)
    ensures
        result == (val * 2) % 256,
        final(gb)@ == old(gb)@.with_flags(shift_flags(result, val >= 128)),
{
    gb.cpu.flag.subtract = false;
    gb.cpu.flag.half_carry = false;
    gb.cpu.flag.carry = val >= 128;
    let result = (val % 128) * 2;
    gb.cpu.flag.zero = result == 0;
    result
}

/// Shifts a byte right by one bit and sets the flags. Bit 7 keeps its value
/// if `keep_sign` is set, else it becomes zero.
pub fn shift_right(gb: &mut GameBoy, val: u8, keep_sign: bool) -> (result: u8)
    ensures
        result == val / 2 + (if keep_sign {
            (val / 128) * 128
        } else {
            0
        }),
        final(gb)@ == old(gb)@.with_flags(shift_flags(result, val % 2 == 1)),
{
    gb.cpu.flag.subtract = false;
    gb.cpu.flag.half_carry = false;
    gb.cpu.flag.carry = val % 2 == 1;
    let msb: u8 = if keep_sign { (val / 128) * 128 } else { 0 };
    let result = (val / 2) + msb;
    gb.cpu.flag.zero = result == 0;
    result
}

/// SLA.
pub fn shift_left_lsb_0(gb: &mut GameBoy, reg: Reg8)
    requires
        old(gb).wf(),
    ensures
        final(gb).wf(),
        final(gb)@ == old(gb)@.after_shift_left(reg),
        final(gb).cpu.flag.carry == (old(gb)@.reg8(reg) >= 128),
{
    let reg_val = get_reg8(gb, reg);
    let result = shift_left(gb, reg_val);
    set_reg8(gb, reg, result);
}

/// SRA.
pub fn shift_right_msb_same(gb: &mut GameBoy, reg: Reg8)
    requires
        old(gb).wf(),
    ensures
        final(gb).wf(),
        final(gb)@ == old(gb)@.after_shift_right_keep_sign(reg),
        final(gb).cpu.flag.carry == (old(gb)@.reg8(reg) % 2 == 1),
{
    let reg_val = get_reg8(gb, reg);
    let result = shift_right(gb, reg_val, true);
    set_reg8(gb, reg, result);
}

/// SRL.
pub fn shift_right_msb_0(gb: &mut GameBoy, reg: Reg8)
    requires
        old(gb).wf(),
    ensures
        final(gb).wf(),
        final(gb)@ == old(gb)@.after_shift_right(reg),
        final(gb).cpu.flag.carry == (old(gb)@.reg8(reg) % 2 == 1),
{
    let reg_val = get_reg8(gb, reg);
    let result = shift_right(gb, reg_val, false);
    set_reg8(gb, reg, result);
}

/// The extended instruction table, reached through the prefix byte 0xCB: the
/// entry for the byte that follows the prefix. Every byte has one.
pub open spec fn spec_cb_instruction(opcode: u8) -> Option<Instruction> {
    match opcode {
        0x00 => Some(Instruction::spec_new("RLC B", 0x00, 0, 8, Operation::RotateLeft(Reg8::B, false))),
        0x01 => Some(Instruction::spec_new("RLC C", 0x01, 0, 8, Operation::RotateLeft(Reg8::C, false))),
        0x02 => Some(Instruction::spec_new("RLC D", 0x02, 0, 8, Operation::RotateLeft(Reg8::D, false))),
        0x03 => Some(Instruction::spec_new("RLC E", 0x03, 0, 8, Operation::RotateLeft(Reg8::E, false))),
        0x04 => Some(Instruction::spec_new("RLC H", 0x04, 0, 8, Operation::RotateLeft(Reg8::H, false))),
        0x05 => Some(Instruction::spec_new("RLC L", 0x05, 0, 8, Operation::RotateLeft(Reg8::L, false))),
        0x06 => Some(Instruction::spec_new("RLC (HL)", 0x06, 0, 16, Operation::RotateLeft(Reg8::MemHl, false))),
        0x07 => Some(Instruction::spec_new("RLC A", 0x07, 0, 8, Operation::RotateLeft(Reg8::A, false))),
        0x08 => Some(Instruction::spec_new("RRC B", 0x08, 0, 8, Operation::RotateRight(Reg8::B, false))),
        0x09 => Some(Instruction::spec_new("RRC C", 0x09, 0, 8, Operation::RotateRight(Reg8::C, false))),
        0x0A => Some(Instruction::spec_new("RRC D", 0x0A, 0, 8, Operation::RotateRight(Reg8::D, false))),
        0x0B => Some(Instruction::spec_new("RRC E", 0x0B, 0, 8, Operation::RotateRight(Reg8::E, false))),
        0x0C => Some(Instruction::spec_new("RRC H", 0x0C, 0, 8, Operation::RotateRight(Reg8::H, false))),
        0x0D => Some(Instruction::spec_new("RRC L", 0x0D, 0, 8, Operation::RotateRight(Reg8::L, false))),
        0x0E => Some(Instruction::spec_new("RRC (HL)", 0x0E, 0, 16, Operation::RotateRight(Reg8::MemHl, false))),
        0x0F => Some(Instruction::spec_new("RRC A", 0x0F, 0, 8, Operation::RotateRight(Reg8::A, false))),
        0x10 => Some(Instruction::spec_new("RL B", 0x10, 0, 8, Operation::RotateLeft(Reg8::B, true))),
        0x11 => Some(Instruction::spec_new("RL C", 0x11, 0, 8, Operation::RotateLeft(Reg8::C, true))),
        0x12 => Some(Instruction::spec_new("RL D", 0x12, 0, 8, Operation::RotateLeft(Reg8::D, true))),
        0x13 => Some(Instruction::spec_new("RL E", 0x13, 0, 8, Operation::RotateLeft(Reg8::E, true))),
        0x14 => Some(Instruction::spec_new("RL H", 0x14, 0, 8, Operation::RotateLeft(Reg8::H, true))),
        0x15 => Some(Instruction::spec_new("RL L", 0x15, 0, 8, Operation::RotateLeft(Reg8::L, true))),
        0x16 => Some(Instruction::spec_new("RL (HL)", 0x16, 0, 16, Operation::RotateLeft(Reg8::MemHl, true))),
        0x17 => Some(Instruction::spec_new("RL A", 0x17, 0, 8, Operation::RotateLeft(Reg8::A, true))),
        0x18 => Some(Instruction::spec_new("RR B", 0x18, 0, 8, Operation::RotateRight(Reg8::B, true))),
        0x19 => Some(Instruction::spec_new("RR C", 0x19, 0, 8, Operation::RotateRight(Reg8::C, true))),
        0x1A => Some(Instruction::spec_new("RR D", 0x1A, 0, 8, Operation::RotateRight(Reg8::D, true))),
        0x1B => Some(Instruction::spec_new("RR E", 0x1B, 0, 8, Operation::RotateRight(Reg8::E, true))),
        0x1C => Some(Instruction::spec_new("RR H", 0x1C, 0, 8, Operation::RotateRight(Reg8::H, true))),
        0x1D => Some(Instruction::spec_new("RR L", 0x1D, 0, 8, Operation::RotateRight(Reg8::L, true))),
        0x1E => Some(Instruction::spec_new("RR (HL)", 0x1E, 0, 16, Operation::RotateRight(Reg8::MemHl, true))),
        0x1F => Some(Instruction::spec_new("RR A", 0x1F, 0, 8, Operation::RotateRight(Reg8::A, true))),
        0x20 => Some(Instruction::spec_new("SLA B", 0x20, 0, 8, Operation::ShiftLeft(Reg8::B))),
        0x21 => Some(Instruction::spec_new("SLA C", 0x21, 0, 8, Operation::ShiftLeft(Reg8::C))),
        0x22 => Some(Instruction::spec_new("SLA D", 0x22, 0, 8, Operation::ShiftLeft(Reg8::D))),
        0x23 => Some(Instruction::spec_new("SLA E", 0x23, 0, 8, Operation::ShiftLeft(Reg8::E))),
        0x24 => Some(Instruction::spec_new("SLA H", 0x24, 0, 8, Operation::ShiftLeft(Reg8::H))),
        0x25 => Some(Instruction::spec_new("SLA L", 0x25, 0, 8, Operation::ShiftLeft(Reg8::L))),
        0x26 => Some(Instruction::spec_new("SLA (HL)", 0x26, 0, 16, Operation::ShiftLeft(Reg8::MemHl))),
        0x27 => Some(Instruction::spec_new("SLA A", 0x27, 0, 8, Operation::ShiftLeft(Reg8::A))),
        0x28 => Some(Instruction::spec_new("SRA B", 0x28, 0, 8, Operation::ShiftRightKeepSign(Reg8::B))),
        0x29 => Some(Instruction::spec_new("SRA C", 0x29, 0, 8, Operation::ShiftRightKeepSign(Reg8::C))),
        0x2A => Some(Instruction::spec_new("SRA D", 0x2A, 0, 8, Operation::ShiftRightKeepSign(Reg8::D))),
        0x2B => Some(Instruction::spec_new("SRA E", 0x2B, 0, 8, Operation::ShiftRightKeepSign(Reg8::E))),
        0x2C => Some(Instruction::spec_new("SRA H", 0x2C, 0, 8, Operation::ShiftRightKeepSign(Reg8::H))),
        0x2D => Some(Instruction::spec_new("SRA L", 0x2D, 0, 8, Operation::ShiftRightKeepSign(Reg8::L))),
        0x2E => Some(Instruction::spec_new("SRA (HL)", 0x2E, 0, 16, Operation::ShiftRightKeepSign(Reg8::MemHl))),
        0x2F => Some(Instruction::spec_new("SRA A", 0x2F, 0, 8, Operation::ShiftRightKeepSign(Reg8::A))),
        0x30 => Some(Instruction::spec_new("SWAP B", 0x30, 0, 8, Operation::Swap(Reg8::B))),
        0x31 => Some(Instruction::spec_new("SWAP C", 0x31, 0, 8, Operation::Swap(Reg8::C))),
        0x32 => Some(Instruction::spec_new("SWAP D", 0x32, 0, 8, Operation::Swap(Reg8::D))),
        0x33 => Some(Instruction::spec_new("SWAP E", 0x33, 0, 8, Operation::Swap(Reg8::E))),
        0x34 => Some(Instruction::spec_new("SWAP H", 0x34, 0, 8, Operation::Swap(Reg8::H))),
        0x35 => Some(Instruction::spec_new("SWAP L", 0x35, 0, 8, Operation::Swap(Reg8::L))),
        0x36 => Some(Instruction::spec_new("SWAP (HL)", 0x36, 0, 16, Operation::Swap(Reg8::MemHl))),
        0x37 => Some(Instruction::spec_new("SWAP A", 0x37, 0, 8, Operation::Swap(Reg8::A))),
        0x38 => Some(Instruction::spec_new("SRL B", 0x38, 0, 8, Operation::ShiftRight(Reg8::B))),
        0x39 => Some(Instruction::spec_new("SRL C", 0x39, 0, 8, Operation::ShiftRight(Reg8::C))),
        0x3A => Some(Instruction::spec_new("SRL D", 0x3A, 0, 8, Operation::ShiftRight(Reg8::D))),
        0x3B => Some(Instruction::spec_new("SRL E", 0x3B, 0, 8, Operation::ShiftRight(Reg8::E))),
        0x3C => Some(Instruction::spec_new("SRL H", 0x3C, 0, 8, Operation::ShiftRight(Reg8::H))),
        0x3D => Some(Instruction::spec_new("SRL L", 0x3D, 0, 8, Operation::ShiftRight(Reg8::L))),
        0x3E => Some(Instruction::spec_new("SRL (HL)", 0x3E, 0, 16, Operation::ShiftRight(Reg8::MemHl))),
        0x3F => Some(Instruction::spec_new("SRL A", 0x3F, 0, 8, Operation::ShiftRight(Reg8::A))),
        0x40 => Some(Instruction::spec_new("BIT 0,B", 0x40, 0, 8, Operation::TestBit(0, Reg8::B))),
        0x41 => Some(Instruction::spec_new("BIT 0,C", 0x41, 0, 8, Operation::TestBit(0, Reg8::C))),
        0x42 => Some(Instruction::spec_new("BIT 0,D", 0x42, 0, 8, Operation::TestBit(0, Reg8::D))),
        0x43 => Some(Instruction::spec_new("BIT 0,E", 0x43, 0, 8, Operation::TestBit(0, Reg8::E))),
        0x44 => Some(Instruction::spec_new("BIT 0,H", 0x44, 0, 8, Operation::TestBit(0, Reg8::H))),
        0x45 => Some(Instruction::spec_new("BIT 0,L", 0x45, 0, 8, Operation::TestBit(0, Reg8::L))),
        0x46 => Some(Instruction::spec_new("BIT 0,(HL)", 0x46, 0, 16, Operation::TestBit(0, Reg8::MemHl))),
        0x47 => Some(Instruction::spec_new("BIT 0,A", 0x47, 0, 8, Operation::TestBit(0, Reg8::A))),
        0x48 => Some(Instruction::spec_new("BIT 1,B", 0x48, 0, 8, Operation::TestBit(1, Reg8::B))),
        0x49 => Some(Instruction::spec_new("BIT 1,C", 0x49, 0, 8, Operation::TestBit(1, Reg8::C))),
        0x4A => Some(Instruction::spec_new("BIT 1,D", 0x4A, 0, 8, Operation::TestBit(1, Reg8::D))),
        0x4B => Some(Instruction::spec_new("BIT 1,E", 0x4B, 0, 8, Operation::TestBit(1, Reg8::E))),
        0x4C => Some(Instruction::spec_new("BIT 1,H", 0x4C, 0, 8, Operation::TestBit(1, Reg8::H))),
        0x4D => Some(Instruction::spec_new("BIT 1,L", 0x4D, 0, 8, Operation::TestBit(1, Reg8::L))),
        0x4E => Some(Instruction::spec_new("BIT 1,(HL)", 0x4E, 0, 16, Operation::TestBit(1, Reg8::MemHl))),
        0x4F => Some(Instruction::spec_new("BIT 1,A", 0x4F, 0, 8, Operation::TestBit(1, Reg8::A))),
        0x50 => Some(Instruction::spec_new("BIT 2,B", 0x50, 0, 8, Operation::TestBit(2, Reg8::B))),
        0x51 => Some(Instruction::spec_new("BIT 2,C", 0x51, 0, 8, Operation::TestBit(2, Reg8::C))),
        0x52 => Some(Instruction::spec_new("BIT 2,D", 0x52, 0, 8, Operation::TestBit(2, Reg8::D))),
        0x53 => Some(Instruction::spec_new("BIT 2,E", 0x53, 0, 8, Operation::TestBit(2, Reg8::E))),
        0x54 => Some(Instruction::spec_new("BIT 2,H", 0x54, 0, 8, Operation::TestBit(2, Reg8::H))),
        0x55 => Some(Instruction::spec_new("BIT 2,L", 0x55, 0, 8, Operation::TestBit(2, Reg8::L))),
        0x56 => Some(Instruction::spec_new("BIT 2,(HL)", 0x56, 0, 16, Operation::TestBit(2, Reg8::MemHl))),
        0x57 => Some(Instruction::spec_new("BIT 2,A", 0x57, 0, 8, Operation::TestBit(2, Reg8::A))),
        0x58 => Some(Instruction::spec_new("BIT 3,B", 0x58, 0, 8, Operation::TestBit(3, Reg8::B))),
        0x59 => Some(Instruction::spec_new("BIT 3,C", 0x59, 0, 8, Operation::TestBit(3, Reg8::C))),
        0x5A => Some(Instruction::spec_new("BIT 3,D", 0x5A, 0, 8, Operation::TestBit(3, Reg8::D))),
        0x5B => Some(Instruction::spec_new("BIT 3,E", 0x5B, 0, 8, Operation::TestBit(3, Reg8::E))),
        0x5C => Some(Instruction::spec_new("BIT 3,H", 0x5C, 0, 8, Operation::TestBit(3, Reg8::H))),
        0x5D => Some(Instruction::spec_new("BIT 3,L", 0x5D, 0, 8, Operation::TestBit(3, Reg8::L))),
        0x5E => Some(Instruction::spec_new("BIT 3,(HL)", 0x5E, 0, 16, Operation::TestBit(3, Reg8::MemHl))),
        0x5F => Some(Instruction::spec_new("BIT 3,A", 0x5F, 0, 8, Operation::TestBit(3, Reg8::A))),
        0x60 => Some(Instruction::spec_new("BIT 4,B", 0x60, 0, 8, Operation::TestBit(4, Reg8::B))),
        0x61 => Some(Instruction::spec_new("BIT 4,C", 0x61, 0, 8, Operation::TestBit(4, Reg8::C))),
        0x62 => Some(Instruction::spec_new("BIT 4,D", 0x62, 0, 8, Operation::TestBit(4, Reg8::D))),
        0x63 => Some(Instruction::spec_new("BIT 4,E", 0x63, 0, 8, Operation::TestBit(4, Reg8::E))),
        0x64 => Some(Instruction::spec_new("BIT 4,H", 0x64, 0, 8, Operation::TestBit(4, Reg8::H))),
        0x65 => Some(Instruction::spec_new("BIT 4,L", 0x65, 0, 8, Operation::TestBit(4, Reg8::L))),
        0x66 => Some(Instruction::spec_new("BIT 4,(HL)", 0x66, 0, 16, Operation::TestBit(4, Reg8::MemHl))),
        0x67 => Some(Instruction::spec_new("BIT 4,A", 0x67, 0, 8, Operation::TestBit(4, Reg8::A))),
        0x68 => Some(Instruction::spec_new("BIT 5,B", 0x68, 0, 8, Operation::TestBit(5, Reg8::B))),
        0x69 => Some(Instruction::spec_new("BIT 5,C", 0x69, 0, 8, Operation::TestBit(5, Reg8::C))),
        0x6A => Some(Instruction::spec_new("BIT 5,D", 0x6A, 0, 8, Operation::TestBit(5, Reg8::D))),
        0x6B => Some(Instruction::spec_new("BIT 5,E", 0x6B, 0, 8, Operation::TestBit(5, Reg8::E))),
        0x6C => Some(Instruction::spec_new("BIT 5,H", 0x6C, 0, 8, Operation::TestBit(5, Reg8::H))),
        0x6D => Some(Instruction::spec_new("BIT 5,L", 0x6D, 0, 8, Operation::TestBit(5, Reg8::L))),
        0x6E => Some(Instruction::spec_new("BIT 5,(HL)", 0x6E, 0, 16, Operation::TestBit(5, Reg8::MemHl))),
        0x6F => Some(Instruction::spec_new("BIT 5,A", 0x6F, 0, 8, Operation::TestBit(5, Reg8::A))),
        0x70 => Some(Instruction::spec_new("BIT 6,B", 0x70, 0, 8, Operation::TestBit(6, Reg8::B))),
        0x71 => Some(Instruction::spec_new("BIT 6,C", 0x71, 0, 8, Operation::TestBit(6, Reg8::C))),
        0x72 => Some(Instruction::spec_new("BIT 6,D", 0x72, 0, 8, Operation::TestBit(6, Reg8::D))),
        0x73 => Some(Instruction::spec_new("BIT 6,E", 0x73, 0, 8, Operation::TestBit(6, Reg8::E))),
        0x74 => Some(Instruction::spec_new("BIT 6,H", 0x74, 0, 8, Operation::TestBit(6, Reg8::H))),
        0x75 => Some(Instruction::spec_new("BIT 6,L", 0x75, 0, 8, Operation::TestBit(6, Reg8::L))),
        0x76 => Some(Instruction::spec_new("BIT 6,(HL)", 0x76, 0, 16, Operation::TestBit(6, Reg8::MemHl))),
        0x77 => Some(Instruction::spec_new("BIT 6,A", 0x77, 0, 8, Operation::TestBit(6, Reg8::A))),
        0x78 => Some(Instruction::spec_new("BIT 7,B", 0x78, 0, 8, Operation::TestBit(7, Reg8::B))),
        0x79 => Some(Instruction::spec_new("BIT 7,C", 0x79, 0, 8, Operation::TestBit(7, Reg8::C))),
        0x7A => Some(Instruction::spec_new("BIT 7,D", 0x7A, 0, 8, Operation::TestBit(7, Reg8::D))),
        0x7B => Some(Instruction::spec_new("BIT 7,E", 0x7B, 0, 8, Operation::TestBit(7, Reg8::E))),
        0x7C => Some(Instruction::spec_new("BIT 7,H", 0x7C, 0, 8, Operation::TestBit(7, Reg8::H))),
        0x7D => Some(Instruction::spec_new("BIT 7,L", 0x7D, 0, 8, Operation::TestBit(7, Reg8::L))),
        0x7E => Some(Instruction::spec_new("BIT 7,(HL)", 0x7E, 0, 16, Operation::TestBit(7, Reg8::MemHl))),
        0x7F => Some(Instruction::spec_new("BIT 7,A", 0x7F, 0, 8, Operation::TestBit(7, Reg8::A))),
        0x80 => Some(Instruction::spec_new("RES 0,B", 0x80, 0, 8, Operation::ResetBit(0, Reg8::B))),
        0x81 => Some(Instruction::spec_new("RES 0,C", 0x81, 0, 8, Operation::ResetBit(0, Reg8::C))),
        0x82 => Some(Instruction::spec_new("RES 0,D", 0x82, 0, 8, Operation::ResetBit(0, Reg8::D))),
        0x83 => Some(Instruction::spec_new("RES 0,E", 0x83, 0, 8, Operation::ResetBit(0, Reg8::E))),
        0x84 => Some(Instruction::spec_new("RES 0,H", 0x84, 0, 8, Operation::ResetBit(0, Reg8::H))),
        0x85 => Some(Instruction::spec_new("RES 0,L", 0x85, 0, 8, Operation::ResetBit(0, Reg8::L))),
        0x86 => Some(Instruction::spec_new("RES 0,(HL)", 0x86, 0, 8, Operation::ResetBit(0, Reg8::MemHl))),
        0x87 => Some(Instruction::spec_new("RES 0,A", 0x87, 0, 8, Operation::ResetBit(0, Reg8::A))),
        0x88 => Some(Instruction::spec_new("RES 1,B", 0x88, 0, 8, Operation::ResetBit(1, Reg8::B))),
        0x89 => Some(Instruction::spec_new("RES 1,C", 0x89, 0, 8, Operation::ResetBit(1, Reg8::C))),
        0x8A => Some(Instruction::spec_new("RES 1,D", 0x8A, 0, 8, Operation::ResetBit(1, Reg8::D))),
        0x8B => Some(Instruction::spec_new("RES 1,E", 0x8B, 0, 8, Operation::ResetBit(1, Reg8::E))),
        0x8C => Some(Instruction::spec_new("RES 1,H", 0x8C, 0, 8, Operation::ResetBit(1, Reg8::H))),
        0x8D => Some(Instruction::spec_new("RES 1,L", 0x8D, 0, 8, Operation::ResetBit(1, Reg8::L))),
        0x8E => Some(Instruction::spec_new("RES 1,(HL)", 0x8E, 0, 8, Operation::ResetBit(1, Reg8::MemHl))),
        0x8F => Some(Instruction::spec_new("RES 1,A", 0x8F, 0, 8, Operation::ResetBit(1, Reg8::A))),
        0x90 => Some(Instruction::spec_new("RES 2,B", 0x90, 0, 8, Operation::ResetBit(2, Reg8::B))),
        0x91 => Some(Instruction::spec_new("RES 2,C", 0x91, 0, 8, Operation::ResetBit(2, Reg8::C))),
        0x92 => Some(Instruction::spec_new("RES 2,D", 0x92, 0, 8, Operation::ResetBit(2, Reg8::D))),
        0x93 => Some(Instruction::spec_new("RES 2,E", 0x93, 0, 8, Operation::ResetBit(2, Reg8::E))),
        0x94 => Some(Instruction::spec_new("RES 2,H", 0x94, 0, 8, Operation::ResetBit(2, Reg8::H))),
        0x95 => Some(Instruction::spec_new("RES 2,L", 0x95, 0, 8, Operation::ResetBit(2, Reg8::L))),
        0x96 => Some(Instruction::spec_new("RES 2,(HL)", 0x96, 0, 8, Operation::ResetBit(2, Reg8::MemHl))),
        0x97 => Some(Instruction::spec_new("RES 2,A", 0x97, 0, 8, Operation::ResetBit(2, Reg8::A))),
        0x98 => Some(Instruction::spec_new("RES 3,B", 0x98, 0, 8, Operation::ResetBit(3, Reg8::B))),
        0x99 => Some(Instruction::spec_new("RES 3,C", 0x99, 0, 8, Operation::ResetBit(3, Reg8::C))),
        0x9A => Some(Instruction::spec_new("RES 3,D", 0x9A, 0, 8, Operation::ResetBit(3, Reg8::D))),
        0x9B => Some(Instruction::spec_new("RES 3,E", 0x9B, 0, 8, Operation::ResetBit(3, Reg8::E))),
        0x9C => Some(Instruction::spec_new("RES 3,H", 0x9C, 0, 8, Operation::ResetBit(3, Reg8::H))),
        0x9D => Some(Instruction::spec_new("RES 3,L", 0x9D, 0, 8, Operation::ResetBit(3, Reg8::L))),
        0x9E => Some(Instruction::spec_new("RES 3,(HL)", 0x9E, 0, 8, Operation::ResetBit(3, Reg8::MemHl))),
        0x9F => Some(Instruction::spec_new("RES 3,A", 0x9F, 0, 8, Operation::ResetBit(3, Reg8::A))),
        0xA0 => Some(Instruction::spec_new("RES 4,B", 0xA0, 0, 8, Operation::ResetBit(4, Reg8::B))),
        0xA1 => Some(Instruction::spec_new("RES 4,C", 0xA1, 0, 8, Operation::ResetBit(4, Reg8::C))),
        0xA2 => Some(Instruction::spec_new("RES 4,D", 0xA2, 0, 8, Operation::ResetBit(4, Reg8::D))),
        0xA3 => Some(Instruction::spec_new("RES 4,E", 0xA3, 0, 8, Operation::ResetBit(4, Reg8::E))),
        0xA4 => Some(Instruction::spec_new("RES 4,H", 0xA4, 0, 8, Operation::ResetBit(4, Reg8::H))),
        0xA5 => Some(Instruction::spec_new("RES 4,L", 0xA5, 0, 8, Operation::ResetBit(4, Reg8::L))),
        0xA6 => Some(Instruction::spec_new("RES 4,(HL)", 0xA6, 0, 8, Operation::ResetBit(4, Reg8::MemHl))),
        0xA7 => Some(Instruction::spec_new("RES 4,A", 0xA7, 0, 8, Operation::ResetBit(4, Reg8::A))),
        0xA8 => Some(Instruction::spec_new("RES 5,B", 0xA8, 0, 8, Operation::ResetBit(5, Reg8::B))),
        0xA9 => Some(Instruction::spec_new("RES 5,C", 0xA9, 0, 8, Operation::ResetBit(5, Reg8::C))),
        0xAA => Some(Instruction::spec_new("RES 5,D", 0xAA, 0, 8, Operation::ResetBit(5, Reg8::D))),
        0xAB => Some(Instruction::spec_new("RES 5,E", 0xAB, 0, 8, Operation::ResetBit(5, Reg8::E))),
        0xAC => Some(Instruction::spec_new("RES 5,H", 0xAC, 0, 8, Operation::ResetBit(5, Reg8::H))),
        0xAD => Some(Instruction::spec_new("RES 5,L", 0xAD, 0, 8, Operation::ResetBit(5, Reg8::L))),
        0xAE => Some(Instruction::spec_new("RES 5,(HL)", 0xAE, 0, 8, Operation::ResetBit(5, Reg8::MemHl))),
        0xAF => Some(Instruction::spec_new("RES 5,A", 0xAF, 0, 8, Operation::ResetBit(5, Reg8::A))),
        0xB0 => Some(Instruction::spec_new("RES 6,B", 0xB0, 0, 8, Operation::ResetBit(6, Reg8::B))),
        0xB1 => Some(Instruction::spec_new("RES 6,C", 0xB1, 0, 8, Operation::ResetBit(6, Reg8::C))),
        0xB2 => Some(Instruction::spec_new("RES 6,D", 0xB2, 0, 8, Operation::ResetBit(6, Reg8::D))),
        0xB3 => Some(Instruction::spec_new("RES 6,E", 0xB3, 0, 8, Operation::ResetBit(6, Reg8::E))),
        0xB4 => Some(Instruction::spec_new("RES 6,H", 0xB4, 0, 8, Operation::ResetBit(6, Reg8::H))),
        0xB5 => Some(Instruction::spec_new("RES 6,L", 0xB5, 0, 8, Operation::ResetBit(6, Reg8::L))),
        0xB6 => Some(Instruction::spec_new("RES 6,(HL)", 0xB6, 0, 8, Operation::ResetBit(6, Reg8::MemHl))),
        0xB7 => Some(Instruction::spec_new("RES 6,A", 0xB7, 0, 8, Operation::ResetBit(6, Reg8::A))),
        0xB8 => Some(Instruction::spec_new("RES 7,B", 0xB8, 0, 8, Operation::ResetBit(7, Reg8::B))),
        0xB9 => Some(Instruction::spec_new("RES 7,C", 0xB9, 0, 8, Operation::ResetBit(7, Reg8::C))),
        0xBA => Some(Instruction::spec_new("RES 7,D", 0xBA, 0, 8, Operation::ResetBit(7, Reg8::D))),
        0xBB => Some(Instruction::spec_new("RES 7,E", 0xBB, 0, 8, Operation::ResetBit(7, Reg8::E))),
        0xBC => Some(Instruction::spec_new("RES 7,H", 0xBC, 0, 8, Operation::ResetBit(7, Reg8::H))),
        0xBD => Some(Instruction::spec_new("RES 7,L", 0xBD, 0, 8, Operation::ResetBit(7, Reg8::L))),
        0xBE => Some(Instruction::spec_new("RES 7,(HL)", 0xBE, 0, 8, Operation::ResetBit(7, Reg8::MemHl))),
        0xBF => Some(Instruction::spec_new("RES 7,A", 0xBF, 0, 8, Operation::ResetBit(7, Reg8::A))),
        0xC0 => Some(Instruction::spec_new("SET 0,B", 0xC0, 0, 8, Operation::SetBit(0, Reg8::B))),
        0xC1 => Some(Instruction::spec_new("SET 0,C", 0xC1, 0, 8, Operation::SetBit(0, Reg8::C))),
        0xC2 => Some(Instruction::spec_new("SET 0,D", 0xC2, 0, 8, Operation::SetBit(0, Reg8::D))),
        0xC3 => Some(Instruction::spec_new("SET 0,E", 0xC3, 0, 8, Operation::SetBit(0, Reg8::E))),
        0xC4 => Some(Instruction::spec_new("SET 0,H", 0xC4, 0, 8, Operation::SetBit(0, Reg8::H))),
        0xC5 => Some(Instruction::spec_new("SET 0,L", 0xC5, 0, 8, Operation::SetBit(0, Reg8::L))),
        0xC6 => Some(Instruction::spec_new("SET 0,(HL)", 0xC6, 0, 8, Operation::SetBit(0, Reg8::MemHl))),
        0xC7 => Some(Instruction::spec_new("SET 0,A", 0xC7, 0, 8, Operation::SetBit(0, Reg8::A))),
        0xC8 => Some(Instruction::spec_new("SET 1,B", 0xC8, 0, 8, Operation::SetBit(1, Reg8::B))),
        0xC9 => Some(Instruction::spec_new("SET 1,C", 0xC9, 0, 8, Operation::SetBit(1, Reg8::C))),
        0xCA => Some(Instruction::spec_new("SET 1,D", 0xCA, 0, 8, Operation::SetBit(1, Reg8::D))),
        0xCB => Some(Instruction::spec_new("SET 1,E", 0xCB, 0, 8, Operation::SetBit(1, Reg8::E))),
        0xCC => Some(Instruction::spec_new("SET 1,H", 0xCC, 0, 8, Operation::SetBit(1, Reg8::H))),
        0xCD => Some(Instruction::spec_new("SET 1,L", 0xCD, 0, 8, Operation::SetBit(1, Reg8::L))),
        0xCE => Some(Instruction::spec_new("SET 1,(HL)", 0xCE, 0, 8, Operation::SetBit(1, Reg8::MemHl))),
        0xCF => Some(Instruction::spec_new("SET 1,A", 0xCF, 0, 8, Operation::SetBit(1, Reg8::A))),
        0xD0 => Some(Instruction::spec_new("SET 2,B", 0xD0, 0, 8, Operation::SetBit(2, Reg8::B))),
        0xD1 => Some(Instruction::spec_new("SET 2,C", 0xD1, 0, 8, Operation::SetBit(2, Reg8::C))),
        0xD2 => Some(Instruction::spec_new("SET 2,D", 0xD2, 0, 8, Operation::SetBit(2, Reg8::D))),
        0xD3 => Some(Instruction::spec_new("SET 2,E", 0xD3, 0, 8, Operation::SetBit(2, Reg8::E))),
        0xD4 => Some(Instruction::spec_new("SET 2,H", 0xD4, 0, 8, Operation::SetBit(2, Reg8::H))),
        0xD5 => Some(Instruction::spec_new("SET 2,L", 0xD5, 0, 8, Operation::SetBit(2, Reg8::L))),
        0xD6 => Some(Instruction::spec_new("SET 2,(HL)", 0xD6, 0, 8, Operation::SetBit(2, Reg8::MemHl))),
        0xD7 => Some(Instruction::spec_new("SET 2,A", 0xD7, 0, 8, Operation::SetBit(2, Reg8::A))),
        0xD8 => Some(Instruction::spec_new("SET 3,B", 0xD8, 0, 8, Operation::SetBit(3, Reg8::B))),
        0xD9 => Some(Instruction::spec_new("SET 3,C", 0xD9, 0, 8, Operation::SetBit(3, Reg8::C))),
        0xDA => Some(Instruction::spec_new("SET 3,D", 0xDA, 0, 8, Operation::SetBit(3, Reg8::D))),
        0xDB => Some(Instruction::spec_new("SET 3,E", 0xDB, 0, 8, Operation::SetBit(3, Reg8::E))),
        0xDC => Some(Instruction::spec_new("SET 3,H", 0xDC, 0, 8, Operation::SetBit(3, Reg8::H))),
        0xDD => Some(Instruction::spec_new("SET 3,L", 0xDD, 0, 8, Operation::SetBit(3, Reg8::L))),
        0xDE => Some(Instruction::spec_new("SET 3,(HL)", 0xDE, 0, 8, Operation::SetBit(3, Reg8::MemHl))),
        0xDF => Some(Instruction::spec_new("SET 3,A", 0xDF, 0, 8, Operation::SetBit(3, Reg8::A))),
        0xE0 => Some(Instruction::spec_new("SET 4,B", 0xE0, 0, 8, Operation::SetBit(4, Reg8::B))),
        0xE1 => Some(Instruction::spec_new("SET 4,C", 0xE1, 0, 8, Operation::SetBit(4, Reg8::C))),
        0xE2 => Some(Instruction::spec_new("SET 4,D", 0xE2, 0, 8, Operation::SetBit(4, Reg8::D))),
        0xE3 => Some(Instruction::spec_new("SET 4,E", 0xE3, 0, 8, Operation::SetBit(4, Reg8::E))),
        0xE4 => Some(Instruction::spec_new("SET 4,H", 0xE4, 0, 8, Operation::SetBit(4, Reg8::H))),
        0xE5 => Some(Instruction::spec_new("SET 4,L", 0xE5, 0, 8, Operation::SetBit(4, Reg8::L))),
        0xE6 => Some(Instruction::spec_new("SET 4,(HL)", 0xE6, 0, 8, Operation::SetBit(4, Reg8::MemHl))),
        0xE7 => Some(Instruction::spec_new("SET 4,A", 0xE7, 0, 8, Operation::SetBit(4, Reg8::A))),
        0xE8 => Some(Instruction::spec_new("SET 5,B", 0xE8, 0, 8, Operation::SetBit(5, Reg8::B))),
        0xE9 => Some(Instruction::spec_new("SET 5,C", 0xE9, 0, 8, Operation::SetBit(5, Reg8::C))),
        0xEA => Some(Instruction::spec_new("SET 5,D", 0xEA, 0, 8, Operation::SetBit(5, Reg8::D))),
        0xEB => Some(Instruction::spec_new("SET 5,E", 0xEB, 0, 8, Operation::SetBit(5, Reg8::E))),
        0xEC => Some(Instruction::spec_new("SET 5,H", 0xEC, 0, 8, Operation::SetBit(5, Reg8::H))),
        0xED => Some(Instruction::spec_new("SET 5,L", 0xED, 0, 8, Operation::SetBit(5, Reg8::L))),
        0xEE => Some(Instruction::spec_new("SET 5,(HL)", 0xEE, 0, 8, Operation::SetBit(5, Reg8::MemHl))),
        0xEF => Some(Instruction::spec_new("SET 5,A", 0xEF, 0, 8, Operation::SetBit(5, Reg8::A))),
        0xF0 => Some(Instruction::spec_new("SET 6,B", 0xF0, 0, 8, Operation::SetBit(6, Reg8::B))),
        0xF1 => Some(Instruction::spec_new("SET 6,C", 0xF1, 0, 8, Operation::SetBit(6, Reg8::C))),
        0xF2 => Some(Instruction::spec_new("SET 6,D", 0xF2, 0, 8, Operation::SetBit(6, Reg8::D))),
        0xF3 => Some(Instruction::spec_new("SET 6,E", 0xF3, 0, 8, Operation::SetBit(6, Reg8::E))),
        0xF4 => Some(Instruction::spec_new("SET 6,H", 0xF4, 0, 8, Operation::SetBit(6, Reg8::H))),
        0xF5 => Some(Instruction::spec_new("SET 6,L", 0xF5, 0, 8, Operation::SetBit(6, Reg8::L))),
        0xF6 => Some(Instruction::spec_new("SET 6,(HL)", 0xF6, 0, 8, Operation::SetBit(6, Reg8::MemHl))),
        0xF7 => Some(Instruction::spec_new("SET 6,A", 0xF7, 0, 8, Operation::SetBit(6, Reg8::A))),
        0xF8 => Some(Instruction::spec_new("SET 7,B", 0xF8, 0, 8, Operation::SetBit(7, Reg8::B))),
        0xF9 => Some(Instruction::spec_new("SET 7,C", 0xF9, 0, 8, Operation::SetBit(7, Reg8::C))),
        0xFA => Some(Instruction::spec_new("SET 7,D", 0xFA, 0, 8, Operation::SetBit(7, Reg8::D))),
        0xFB => Some(Instruction::spec_new("SET 7,E", 0xFB, 0, 8, Operation::SetBit(7, Reg8::E))),
        0xFC => Some(Instruction::spec_new("SET 7,H", 0xFC, 0, 8, Operation::SetBit(7, Reg8::H))),
        0xFD => Some(Instruction::spec_new("SET 7,L", 0xFD, 0, 8, Operation::SetBit(7, Reg8::L))),
        0xFE => Some(Instruction::spec_new("SET 7,(HL)", 0xFE, 0, 8, Operation::SetBit(7, Reg8::MemHl))),
        0xFF => Some(Instruction::spec_new("SET 7,A", 0xFF, 0, 8, Operation::SetBit(7, Reg8::A))),
    }
}

/// Looks a byte up in the extended instruction table.
pub fn lookup_cb_instruction(opcode: u8) -> (r: Option<Instruction>)
    ensures
        r == spec_cb_instruction(opcode),
        r is Some ==> r.unwrap().opcode == opcode && r.unwrap().operation.wf(),
        r is Some,
{
    match opcode {
        0x00 => Some(Instruction::new("RLC B", 0x00, 0, 8, Operation::RotateLeft(Reg8::B, false))),
        0x01 => Some(Instruction::new("RLC C", 0x01, 0, 8, Operation::RotateLeft(Reg8::C, false))),
        0x02 => Some(Instruction::new("RLC D", 0x02, 0, 8, Operation::RotateLeft(Reg8::D, false))),
        0x03 => Some(Instruction::new("RLC E", 0x03, 0, 8, Operation::RotateLeft(Reg8::E, false))),
        0x04 => Some(Instruction::new("RLC H", 0x04, 0, 8, Operation::RotateLeft(Reg8::H, false))),
        0x05 => Some(Instruction::new("RLC L", 0x05, 0, 8, Operation::RotateLeft(Reg8::L, false))),
        0x06 => Some(Instruction::new("RLC (HL)", 0x06, 0, 16, Operation::RotateLeft(Reg8::MemHl, false))),
        0x07 => Some(Instruction::new("RLC A", 0x07, 0, 8, Operation::RotateLeft(Reg8::A, false))),
        0x08 => Some(Instruction::new("RRC B", 0x08, 0, 8, Operation::RotateRight(Reg8::B, false))),
        0x09 => Some(Instruction::new("RRC C", 0x09, 0, 8, Operation::RotateRight(Reg8::C, false))),
        0x0A => Some(Instruction::new("RRC D", 0x0A, 0, 8, Operation::RotateRight(Reg8::D, false))),
        0x0B => Some(Instruction::new("RRC E", 0x0B, 0, 8, Operation::RotateRight(Reg8::E, false))),
        0x0C => Some(Instruction::new("RRC H", 0x0C, 0, 8, Operation::RotateRight(Reg8::H, false))),
        0x0D => Some(Instruction::new("RRC L", 0x0D, 0, 8, Operation::RotateRight(Reg8::L, false))),
        0x0E => Some(Instruction::new("RRC (HL)", 0x0E, 0, 16, Operation::RotateRight(Reg8::MemHl, false))),
        0x0F => Some(Instruction::new("RRC A", 0x0F, 0, 8, Operation::RotateRight(Reg8::A, false))),
        0x10 => Some(Instruction::new("RL B", 0x10, 0, 8, Operation::RotateLeft(Reg8::B, true))),
        0x11 => Some(Instruction::new("RL C", 0x11, 0, 8, Operation::RotateLeft(Reg8::C, true))),
        0x12 => Some(Instruction::new("RL D", 0x12, 0, 8, Operation::RotateLeft(Reg8::D, true))),
        0x13 => Some(Instruction::new("RL E", 0x13, 0, 8, Operation::RotateLeft(Reg8::E, true))),
        0x14 => Some(Instruction::new("RL H", 0x14, 0, 8, Operation::RotateLeft(Reg8::H, true))),
        0x15 => Some(Instruction::new("RL L", 0x15, 0, 8, Operation::RotateLeft(Reg8::L, true))),
        0x16 => Some(Instruction::new("RL (HL)", 0x16, 0, 16, Operation::RotateLeft(Reg8::MemHl, true))),
        0x17 => Some(Instruction::new("RL A", 0x17, 0, 8, Operation::RotateLeft(Reg8::A, true))),
        0x18 => Some(Instruction::new("RR B", 0x18, 0, 8, Operation::RotateRight(Reg8::B, true))),
        0x19 => Some(Instruction::new("RR C", 0x19, 0, 8, Operation::RotateRight(Reg8::C, true))),
        0x1A => Some(Instruction::new("RR D", 0x1A, 0, 8, Operation::RotateRight(Reg8::D, true))),
        0x1B => Some(Instruction::new("RR E", 0x1B, 0, 8, Operation::RotateRight(Reg8::E, true))),
        0x1C => Some(Instruction::new("RR H", 0x1C, 0, 8, Operation::RotateRight(Reg8::H, true))),
        0x1D => Some(Instruction::new("RR L", 0x1D, 0, 8, Operation::RotateRight(Reg8::L, true))),
        0x1E => Some(Instruction::new("RR (HL)", 0x1E, 0, 16, Operation::RotateRight(Reg8::MemHl, true))),
        0x1F => Some(Instruction::new("RR A", 0x1F, 0, 8, Operation::RotateRight(Reg8::A, true))),
        0x20 => Some(Instruction::new("SLA B", 0x20, 0, 8, Operation::ShiftLeft(Reg8::B))),
        0x21 => Some(Instruction::new("SLA C", 0x21, 0, 8, Operation::ShiftLeft(Reg8::C))),
        0x22 => Some(Instruction::new("SLA D", 0x22, 0, 8, Operation::ShiftLeft(Reg8::D))),
        0x23 => Some(Instruction::new("SLA E", 0x23, 0, 8, Operation::ShiftLeft(Reg8::E))),
        0x24 => Some(Instruction::new("SLA H", 0x24, 0, 8, Operation::ShiftLeft(Reg8::H))),
        0x25 => Some(Instruction::new("SLA L", 0x25, 0, 8, Operation::ShiftLeft(Reg8::L))),
        0x26 => Some(Instruction::new("SLA (HL)", 0x26, 0, 16, Operation::ShiftLeft(Reg8::MemHl))),
        0x27 => Some(Instruction::new("SLA A", 0x27, 0, 8, Operation::ShiftLeft(Reg8::A))),
        0x28 => Some(Instruction::new("SRA B", 0x28, 0, 8, Operation::ShiftRightKeepSign(Reg8::B))),
        0x29 => Some(Instruction::new("SRA C", 0x29, 0, 8, Operation::ShiftRightKeepSign(Reg8::C))),
        0x2A => Some(Instruction::new("SRA D", 0x2A, 0, 8, Operation::ShiftRightKeepSign(Reg8::D))),
        0x2B => Some(Instruction::new("SRA E", 0x2B, 0, 8, Operation::ShiftRightKeepSign(Reg8::E))),
        0x2C => Some(Instruction::new("SRA H", 0x2C, 0, 8, Operation::ShiftRightKeepSign(Reg8::H))),
        0x2D => Some(Instruction::new("SRA L", 0x2D, 0, 8, Operation::ShiftRightKeepSign(Reg8::L))),
        0x2E => Some(Instruction::new("SRA (HL)", 0x2E, 0, 16, Operation::ShiftRightKeepSign(Reg8::MemHl))),
        0x2F => Some(Instruction::new("SRA A", 0x2F, 0, 8, Operation::ShiftRightKeepSign(Reg8::A))),
        0x30 => Some(Instruction::new("SWAP B", 0x30, 0, 8, Operation::Swap(Reg8::B))),
        0x31 => Some(Instruction::new("SWAP C", 0x31, 0, 8, Operation::Swap(Reg8::C))),
        0x32 => Some(Instruction::new("SWAP D", 0x32, 0, 8, Operation::Swap(Reg8::D))),
        0x33 => Some(Instruction::new("SWAP E", 0x33, 0, 8, Operation::Swap(Reg8::E))),
        0x34 => Some(Instruction::new("SWAP H", 0x34, 0, 8, Operation::Swap(Reg8::H))),
        0x35 => Some(Instruction::new("SWAP L", 0x35, 0, 8, Operation::Swap(Reg8::L))),
        0x36 => Some(Instruction::new("SWAP (HL)", 0x36, 0, 16, Operation::Swap(Reg8::MemHl))),
        0x37 => Some(Instruction::new("SWAP A", 0x37, 0, 8, Operation::Swap(Reg8::A))),
        0x38 => Some(Instruction::new("SRL B", 0x38, 0, 8, Operation::ShiftRight(Reg8::B))),
        0x39 => Some(Instruction::new("SRL C", 0x39, 0, 8, Operation::ShiftRight(Reg8::C))),
        0x3A => Some(Instruction::new("SRL D", 0x3A, 0, 8, Operation::ShiftRight(Reg8::D))),
        0x3B => Some(Instruction::new("SRL E", 0x3B, 0, 8, Operation::ShiftRight(Reg8::E))),
        0x3C => Some(Instruction::new("SRL H", 0x3C, 0, 8, Operation::ShiftRight(Reg8::H))),
        0x3D => Some(Instruction::new("SRL L", 0x3D, 0, 8, Operation::ShiftRight(Reg8::L))),
        0x3E => Some(Instruction::new("SRL (HL)", 0x3E, 0, 16, Operation::ShiftRight(Reg8::MemHl))),
        0x3F => Some(Instruction::new("SRL A", 0x3F, 0, 8, Operation::ShiftRight(Reg8::A))),
        0x40 => Some(Instruction::new("BIT 0,B", 0x40, 0, 8, Operation::TestBit(0, Reg8::B))),
        0x41 => Some(Instruction::new("BIT 0,C", 0x41, 0, 8, Operation::TestBit(0, Reg8::C))),
        0x42 => Some(Instruction::new("BIT 0,D", 0x42, 0, 8, Operation::TestBit(0, Reg8::D))),
        0x43 => Some(Instruction::new("BIT 0,E", 0x43, 0, 8, Operation::TestBit(0, Reg8::E))),
        0x44 => Some(Instruction::new("BIT 0,H", 0x44, 0, 8, Operation::TestBit(0, Reg8::H))),
        0x45 => Some(Instruction::new("BIT 0,L", 0x45, 0, 8, Operation::TestBit(0, Reg8::L))),
        0x46 => Some(Instruction::new("BIT 0,(HL)", 0x46, 0, 16, Operation::TestBit(0, Reg8::MemHl))),
        0x47 => Some(Instruction::new("BIT 0,A", 0x47, 0, 8, Operation::TestBit(0, Reg8::A))),
        0x48 => Some(Instruction::new("BIT 1,B", 0x48, 0, 8, Operation::TestBit(1, Reg8::B))),
        0x49 => Some(Instruction::new("BIT 1,C", 0x49, 0, 8, Operation::TestBit(1, Reg8::C))),
        0x4A => Some(Instruction::new("BIT 1,D", 0x4A, 0, 8, Operation::TestBit(1, Reg8::D))),
        0x4B => Some(Instruction::new("BIT 1,E", 0x4B, 0, 8, Operation::TestBit(1, Reg8::E))),
        0x4C => Some(Instruction::new("BIT 1,H", 0x4C, 0, 8, Operation::TestBit(1, Reg8::H))),
        0x4D => Some(Instruction::new("BIT 1,L", 0x4D, 0, 8, Operation::TestBit(1, Reg8::L))),
        0x4E => Some(Instruction::new("BIT 1,(HL)", 0x4E, 0, 16, Operation::TestBit(1, Reg8::MemHl))),
        0x4F => Some(Instruction::new("BIT 1,A", 0x4F, 0, 8, Operation::TestBit(1, Reg8::A))),
        0x50 => Some(Instruction::new("BIT 2,B", 0x50, 0, 8, Operation::TestBit(2, Reg8::B))),
        0x51 => Some(Instruction::new("BIT 2,C", 0x51, 0, 8, Operation::TestBit(2, Reg8::C))),
        0x52 => Some(Instruction::new("BIT 2,D", 0x52, 0, 8, Operation::TestBit(2, Reg8::D))),
        0x53 => Some(Instruction::new("BIT 2,E", 0x53, 0, 8, Operation::TestBit(2, Reg8::E))),
        0x54 => Some(Instruction::new("BIT 2,H", 0x54, 0, 8, Operation::TestBit(2, Reg8::H))),
        0x55 => Some(Instruction::new("BIT 2,L", 0x55, 0, 8, Operation::TestBit(2, Reg8::L))),
        0x56 => Some(Instruction::new("BIT 2,(HL)", 0x56, 0, 16, Operation::TestBit(2, Reg8::MemHl))),
        0x57 => Some(Instruction::new("BIT 2,A", 0x57, 0, 8, Operation::TestBit(2, Reg8::A))),
        0x58 => Some(Instruction::new("BIT 3,B", 0x58, 0, 8, Operation::TestBit(3, Reg8::B))),
        0x59 => Some(Instruction::new("BIT 3,C", 0x59, 0, 8, Operation::TestBit(3, Reg8::C))),
        0x5A => Some(Instruction::new("BIT 3,D", 0x5A, 0, 8, Operation::TestBit(3, Reg8::D))),
        0x5B => Some(Instruction::new("BIT 3,E", 0x5B, 0, 8, Operation::TestBit(3, Reg8::E))),
        0x5C => Some(Instruction::new("BIT 3,H", 0x5C, 0, 8, Operation::TestBit(3, Reg8::H))),
        0x5D => Some(Instruction::new("BIT 3,L", 0x5D, 0, 8, Operation::TestBit(3, Reg8::L))),
        0x5E => Some(Instruction::new("BIT 3,(HL)", 0x5E, 0, 16, Operation::TestBit(3, Reg8::MemHl))),
        0x5F => Some(Instruction::new("BIT 3,A", 0x5F, 0, 8, Operation::TestBit(3, Reg8::A))),
        0x60 => Some(Instruction::new("BIT 4,B", 0x60, 0, 8, Operation::TestBit(4, Reg8::B))),
        0x61 => Some(Instruction::new("BIT 4,C", 0x61, 0, 8, Operation::TestBit(4, Reg8::C))),
        0x62 => Some(Instruction::new("BIT 4,D", 0x62, 0, 8, Operation::TestBit(4, Reg8::D))),
        0x63 => Some(Instruction::new("BIT 4,E", 0x63, 0, 8, Operation::TestBit(4, Reg8::E))),
        0x64 => Some(Instruction::new("BIT 4,H", 0x64, 0, 8, Operation::TestBit(4, Reg8::H))),
        0x65 => Some(Instruction::new("BIT 4,L", 0x65, 0, 8, Operation::TestBit(4, Reg8::L))),
        0x66 => Some(Instruction::new("BIT 4,(HL)", 0x66, 0, 16, Operation::TestBit(4, Reg8::MemHl))),
        0x67 => Some(Instruction::new("BIT 4,A", 0x67, 0, 8, Operation::TestBit(4, Reg8::A))),
        0x68 => Some(Instruction::new("BIT 5,B", 0x68, 0, 8, Operation::TestBit(5, Reg8::B))),
        0x69 => Some(Instruction::new("BIT 5,C", 0x69, 0, 8, Operation::TestBit(5, Reg8::C))),
        0x6A => Some(Instruction::new("BIT 5,D", 0x6A, 0, 8, Operation::TestBit(5, Reg8::D))),
        0x6B => Some(Instruction::new("BIT 5,E", 0x6B, 0, 8, Operation::TestBit(5, Reg8::E))),
        0x6C => Some(Instruction::new("BIT 5,H", 0x6C, 0, 8, Operation::TestBit(5, Reg8::H))),
        0x6D => Some(Instruction::new("BIT 5,L", 0x6D, 0, 8, Operation::TestBit(5, Reg8::L))),
        0x6E => Some(Instruction::new("BIT 5,(HL)", 0x6E, 0, 16, Operation::TestBit(5, Reg8::MemHl))),
        0x6F => Some(Instruction::new("BIT 5,A", 0x6F, 0, 8, Operation::TestBit(5, Reg8::A))),
        0x70 => Some(Instruction::new("BIT 6,B", 0x70, 0, 8, Operation::TestBit(6, Reg8::B))),
        0x71 => Some(Instruction::new("BIT 6,C", 0x71, 0, 8, Operation::TestBit(6, Reg8::C))),
        0x72 => Some(Instruction::new("BIT 6,D", 0x72, 0, 8, Operation::TestBit(6, Reg8::D))),
        0x73 => Some(Instruction::new("BIT 6,E", 0x73, 0, 8, Operation::TestBit(6, Reg8::E))),
        0x74 => Some(Instruction::new("BIT 6,H", 0x74, 0, 8, Operation::TestBit(6, Reg8::H))),
        0x75 => Some(Instruction::new("BIT 6,L", 0x75, 0, 8, Operation::TestBit(6, Reg8::L))),
        0x76 => Some(Instruction::new("BIT 6,(HL)", 0x76, 0, 16, Operation::TestBit(6, Reg8::MemHl))),
        0x77 => Some(Instruction::new("BIT 6,A", 0x77, 0, 8, Operation::TestBit(6, Reg8::A))),
        0x78 => Some(Instruction::new("BIT 7,B", 0x78, 0, 8, Operation::TestBit(7, Reg8::B))),
        0x79 => Some(Instruction::new("BIT 7,C", 0x79, 0, 8, Operation::TestBit(7, Reg8::C))),
        0x7A => Some(Instruction::new("BIT 7,D", 0x7A, 0, 8, Operation::TestBit(7, Reg8::D))),
        0x7B => Some(Instruction::new("BIT 7,E", 0x7B, 0, 8, Operation::TestBit(7, Reg8::E))),
        0x7C => Some(Instruction::new("BIT 7,H", 0x7C, 0, 8, Operation::TestBit(7, Reg8::H))),
        0x7D => Some(Instruction::new("BIT 7,L", 0x7D, 0, 8, Operation::TestBit(7, Reg8::L))),
        0x7E => Some(Instruction::new("BIT 7,(HL)", 0x7E, 0, 16, Operation::TestBit(7, Reg8::MemHl))),
        0x7F => Some(Instruction::new("BIT 7,A", 0x7F, 0, 8, Operation::TestBit(7, Reg8::A))),
        0x80 => Some(Instruction::new("RES 0,B", 0x80, 0, 8, Operation::ResetBit(0, Reg8::B))),
        0x81 => Some(Instruction::new("RES 0,C", 0x81, 0, 8, Operation::ResetBit(0, Reg8::C))),
        0x82 => Some(Instruction::new("RES 0,D", 0x82, 0, 8, Operation::ResetBit(0, Reg8::D))),
        0x83 => Some(Instruction::new("RES 0,E", 0x83, 0, 8, Operation::ResetBit(0, Reg8::E))),
        0x84 => Some(Instruction::new("RES 0,H", 0x84, 0, 8, Operation::ResetBit(0, Reg8::H))),
        0x85 => Some(Instruction::new("RES 0,L", 0x85, 0, 8, Operation::ResetBit(0, Reg8::L))),
        0x86 => Some(Instruction::new("RES 0,(HL)", 0x86, 0, 8, Operation::ResetBit(0, Reg8::MemHl))),
        0x87 => Some(Instruction::new("RES 0,A", 0x87, 0, 8, Operation::ResetBit(0, Reg8::A))),
        0x88 => Some(Instruction::new("RES 1,B", 0x88, 0, 8, Operation::ResetBit(1, Reg8::B))),
        0x89 => Some(Instruction::new("RES 1,C", 0x89, 0, 8, Operation::ResetBit(1, Reg8::C))),
        0x8A => Some(Instruction::new("RES 1,D", 0x8A, 0, 8, Operation::ResetBit(1, Reg8::D))),
        0x8B => Some(Instruction::new("RES 1,E", 0x8B, 0, 8, Operation::ResetBit(1, Reg8::E))),
        0x8C => Some(Instruction::new("RES 1,H", 0x8C, 0, 8, Operation::ResetBit(1, Reg8::H))),
        0x8D => Some(Instruction::new("RES 1,L", 0x8D, 0, 8, Operation::ResetBit(1, Reg8::L))),
        0x8E => Some(Instruction::new("RES 1,(HL)", 0x8E, 0, 8, Operation::ResetBit(1, Reg8::MemHl))),
        0x8F => Some(Instruction::new("RES 1,A", 0x8F, 0, 8, Operation::ResetBit(1, Reg8::A))),
        0x90 => Some(Instruction::new("RES 2,B", 0x90, 0, 8, Operation::ResetBit(2, Reg8::B))),
        0x91 => Some(Instruction::new("RES 2,C", 0x91, 0, 8, Operation::ResetBit(2, Reg8::C))),
        0x92 => Some(Instruction::new("RES 2,D", 0x92, 0, 8, Operation::ResetBit(2, Reg8::D))),
        0x93 => Some(Instruction::new("RES 2,E", 0x93, 0, 8, Operation::ResetBit(2, Reg8::E))),
        0x94 => Some(Instruction::new("RES 2,H", 0x94, 0, 8, Operation::ResetBit(2, Reg8::H))),
        0x95 => Some(Instruction::new("RES 2,L", 0x95, 0, 8, Operation::ResetBit(2, Reg8::L))),
        0x96 => Some(Instruction::new("RES 2,(HL)", 0x96, 0, 8, Operation::ResetBit(2, Reg8::MemHl))),
        0x97 => Some(Instruction::new("RES 2,A", 0x97, 0, 8, Operation::ResetBit(2, Reg8::A))),
        0x98 => Some(Instruction::new("RES 3,B", 0x98, 0, 8, Operation::ResetBit(3, Reg8::B))),
        0x99 => Some(Instruction::new("RES 3,C", 0x99, 0, 8, Operation::ResetBit(3, Reg8::C))),
        0x9A => Some(Instruction::new("RES 3,D", 0x9A, 0, 8, Operation::ResetBit(3, Reg8::D))),
        0x9B => Some(Instruction::new("RES 3,E", 0x9B, 0, 8, Operation::ResetBit(3, Reg8::E))),
        0x9C => Some(Instruction::new("RES 3,H", 0x9C, 0, 8, Operation::ResetBit(3, Reg8::H))),
        0x9D => Some(Instruction::new("RES 3,L", 0x9D, 0, 8, Operation::ResetBit(3, Reg8::L))),
        0x9E => Some(Instruction::new("RES 3,(HL)", 0x9E, 0, 8, Operation::ResetBit(3, Reg8::MemHl))),
        0x9F => Some(Instruction::new("RES 3,A", 0x9F, 0, 8, Operation::ResetBit(3, Reg8::A))),
        0xA0 => Some(Instruction::new("RES 4,B", 0xA0, 0, 8, Operation::ResetBit(4, Reg8::B))),
        0xA1 => Some(Instruction::new("RES 4,C", 0xA1, 0, 8, Operation::ResetBit(4, Reg8::C))),
        0xA2 => Some(Instruction::new("RES 4,D", 0xA2, 0, 8, Operation::ResetBit(4, Reg8::D))),
        0xA3 => Some(Instruction::new("RES 4,E", 0xA3, 0, 8, Operation::ResetBit(4, Reg8::E))),
        0xA4 => Some(Instruction::new("RES 4,H", 0xA4, 0, 8, Operation::ResetBit(4, Reg8::H))),
        0xA5 => Some(Instruction::new("RES 4,L", 0xA5, 0, 8, Operation::ResetBit(4, Reg8::L))),
        0xA6 => Some(Instruction::new("RES 4,(HL)", 0xA6, 0, 8, Operation::ResetBit(4, Reg8::MemHl))),
        0xA7 => Some(Instruction::new("RES 4,A", 0xA7, 0, 8, Operation::ResetBit(4, Reg8::A))),
        0xA8 => Some(Instruction::new("RES 5,B", 0xA8, 0, 8, Operation::ResetBit(5, Reg8::B))),
        0xA9 => Some(Instruction::new("RES 5,C", 0xA9, 0, 8, Operation::ResetBit(5, Reg8::C))),
        0xAA => Some(Instruction::new("RES 5,D", 0xAA, 0, 8, Operation::ResetBit(5, Reg8::D))),
        0xAB => Some(Instruction::new("RES 5,E", 0xAB, 0, 8, Operation::ResetBit(5, Reg8::E))),
        0xAC => Some(Instruction::new("RES 5,H", 0xAC, 0, 8, Operation::ResetBit(5, Reg8::H))),
        0xAD => Some(Instruction::new("RES 5,L", 0xAD, 0, 8, Operation::ResetBit(5, Reg8::L))),
        0xAE => Some(Instruction::new("RES 5,(HL)", 0xAE, 0, 8, Operation::ResetBit(5, Reg8::MemHl))),
        0xAF => Some(Instruction::new("RES 5,A", 0xAF, 0, 8, Operation::ResetBit(5, Reg8::A))),
        0xB0 => Some(Instruction::new("RES 6,B", 0xB0, 0, 8, Operation::ResetBit(6, Reg8::B))),
        0xB1 => Some(Instruction::new("RES 6,C", 0xB1, 0, 8, Operation::ResetBit(6, Reg8::C))),
        0xB2 => Some(Instruction::new("RES 6,D", 0xB2, 0, 8, Operation::ResetBit(6, Reg8::D))),
        0xB3 => Some(Instruction::new("RES 6,E", 0xB3, 0, 8, Operation::ResetBit(6, Reg8::E))),
        0xB4 => Some(Instruction::new("RES 6,H", 0xB4, 0, 8, Operation::ResetBit(6, Reg8::H))),
        0xB5 => Some(Instruction::new("RES 6,L", 0xB5, 0, 8, Operation::ResetBit(6, Reg8::L))),
        0xB6 => Some(Instruction::new("RES 6,(HL)", 0xB6, 0, 8, Operation::ResetBit(6, Reg8::MemHl))),
        0xB7 => Some(Instruction::new("RES 6,A", 0xB7, 0, 8, Operation::ResetBit(6, Reg8::A))),
        0xB8 => Some(Instruction::new("RES 7,B", 0xB8, 0, 8, Operation::ResetBit(7, Reg8::B))),
        0xB9 => Some(Instruction::new("RES 7,C", 0xB9, 0, 8, Operation::ResetBit(7, Reg8::C))),
        0xBA => Some(Instruction::new("RES 7,D", 0xBA, 0, 8, Operation::ResetBit(7, Reg8::D))),
        0xBB => Some(Instruction::new("RES 7,E", 0xBB, 0, 8, Operation::ResetBit(7, Reg8::E))),
        0xBC => Some(Instruction::new("RES 7,H", 0xBC, 0, 8, Operation::ResetBit(7, Reg8::H))),
        0xBD => Some(Instruction::new("RES 7,L", 0xBD, 0, 8, Operation::ResetBit(7, Reg8::L))),
        0xBE => Some(Instruction::new("RES 7,(HL)", 0xBE, 0, 8, Operation::ResetBit(7, Reg8::MemHl))),
        0xBF => Some(Instruction::new("RES 7,A", 0xBF, 0, 8, Operation::ResetBit(7, Reg8::A))),
        0xC0 => Some(Instruction::new("SET 0,B", 0xC0, 0, 8, Operation::SetBit(0, Reg8::B))),
        0xC1 => Some(Instruction::new("SET 0,C", 0xC1, 0, 8, Operation::SetBit(0, Reg8::C))),
        0xC2 => Some(Instruction::new("SET 0,D", 0xC2, 0, 8, Operation::SetBit(0, Reg8::D))),
        0xC3 => Some(Instruction::new("SET 0,E", 0xC3, 0, 8, Operation::SetBit(0, Reg8::E))),
        0xC4 => Some(Instruction::new("SET 0,H", 0xC4, 0, 8, Operation::SetBit(0, Reg8::H))),
        0xC5 => Some(Instruction::new("SET 0,L", 0xC5, 0, 8, Operation::SetBit(0, Reg8::L))),
        0xC6 => Some(Instruction::new("SET 0,(HL)", 0xC6, 0, 8, Operation::SetBit(0, Reg8::MemHl))),
        0xC7 => Some(Instruction::new("SET 0,A", 0xC7, 0, 8, Operation::SetBit(0, Reg8::A))),
        0xC8 => Some(Instruction::new("SET 1,B", 0xC8, 0, 8, Operation::SetBit(1, Reg8::B))),
        0xC9 => Some(Instruction::new("SET 1,C", 0xC9, 0, 8, Operation::SetBit(1, Reg8::C))),
        0xCA => Some(Instruction::new("SET 1,D", 0xCA, 0, 8, Operation::SetBit(1, Reg8::D))),
        0xCB => Some(Instruction::new("SET 1,E", 0xCB, 0, 8, Operation::SetBit(1, Reg8::E))),
        0xCC => Some(Instruction::new("SET 1,H", 0xCC, 0, 8, Operation::SetBit(1, Reg8::H))),
        0xCD => Some(Instruction::new("SET 1,L", 0xCD, 0, 8, Operation::SetBit(1, Reg8::L))),
        0xCE => Some(Instruction::new("SET 1,(HL)", 0xCE, 0, 8, Operation::SetBit(1, Reg8::MemHl))),
        0xCF => Some(Instruction::new("SET 1,A", 0xCF, 0, 8, Operation::SetBit(1, Reg8::A))),
        0xD0 => Some(Instruction::new("SET 2,B", 0xD0, 0, 8, Operation::SetBit(2, Reg8::B))),
        0xD1 => Some(Instruction::new("SET 2,C", 0xD1, 0, 8, Operation::SetBit(2, Reg8::C))),
        0xD2 => Some(Instruction::new("SET 2,D", 0xD2, 0, 8, Operation::SetBit(2, Reg8::D))),
        0xD3 => Some(Instruction::new("SET 2,E", 0xD3, 0, 8, Operation::SetBit(2, Reg8::E))),
        0xD4 => Some(Instruction::new("SET 2,H", 0xD4, 0, 8, Operation::SetBit(2, Reg8::H))),
        0xD5 => Some(Instruction::new("SET 2,L", 0xD5, 0, 8, Operation::SetBit(2, Reg8::L))),
        0xD6 => Some(Instruction::new("SET 2,(HL)", 0xD6, 0, 8, Operation::SetBit(2, Reg8::MemHl))),
        0xD7 => Some(Instruction::new("SET 2,A", 0xD7, 0, 8, Operation::SetBit(2, Reg8::A))),
        0xD8 => Some(Instruction::new("SET 3,B", 0xD8, 0, 8, Operation::SetBit(3, Reg8::B))),
        0xD9 => Some(Instruction::new("SET 3,C", 0xD9, 0, 8, Operation::SetBit(3, Reg8::C))),
        0xDA => Some(Instruction::new("SET 3,D", 0xDA, 0, 8, Operation::SetBit(3, Reg8::D))),
        0xDB => Some(Instruction::new("SET 3,E", 0xDB, 0, 8, Operation::SetBit(3, Reg8::E))),
        0xDC => Some(Instruction::new("SET 3,H", 0xDC, 0, 8, Operation::SetBit(3, Reg8::H))),
        0xDD => Some(Instruction::new("SET 3,L", 0xDD, 0, 8, Operation::SetBit(3, Reg8::L))),
        0xDE => Some(Instruction::new("SET 3,(HL)", 0xDE, 0, 8, Operation::SetBit(3, Reg8::MemHl))),
        0xDF => Some(Instruction::new("SET 3,A", 0xDF, 0, 8, Operation::SetBit(3, Reg8::A))),
        0xE0 => Some(Instruction::new("SET 4,B", 0xE0, 0, 8, Operation::SetBit(4, Reg8::B))),
        0xE1 => Some(Instruction::new("SET 4,C", 0xE1, 0, 8, Operation::SetBit(4, Reg8::C))),
        0xE2 => Some(Instruction::new("SET 4,D", 0xE2, 0, 8, Operation::SetBit(4, Reg8::D))),
        0xE3 => Some(Instruction::new("SET 4,E", 0xE3, 0, 8, Operation::SetBit(4, Reg8::E))),
        0xE4 => Some(Instruction::new("SET 4,H", 0xE4, 0, 8, Operation::SetBit(4, Reg8::H))),
        0xE5 => Some(Instruction::new("SET 4,L", 0xE5, 0, 8, Operation::SetBit(4, Reg8::L))),
        0xE6 => Some(Instruction::new("SET 4,(HL)", 0xE6, 0, 8, Operation::SetBit(4, Reg8::MemHl))),
        0xE7 => Some(Instruction::new("SET 4,A", 0xE7, 0, 8, Operation::SetBit(4, Reg8::A))),
        0xE8 => Some(Instruction::new("SET 5,B", 0xE8, 0, 8, Operation::SetBit(5, Reg8::B))),
        0xE9 => Some(Instruction::new("SET 5,C", 0xE9, 0, 8, Operation::SetBit(5, Reg8::C))),
        0xEA => Some(Instruction::new("SET 5,D", 0xEA, 0, 8, Operation::SetBit(5, Reg8::D))),
        0xEB => Some(Instruction::new("SET 5,E", 0xEB, 0, 8, Operation::SetBit(5, Reg8::E))),
        0xEC => Some(Instruction::new("SET 5,H", 0xEC, 0, 8, Operation::SetBit(5, Reg8::H))),
        0xED => Some(Instruction::new("SET 5,L", 0xED, 0, 8, Operation::SetBit(5, Reg8::L))),
        0xEE => Some(Instruction::new("SET 5,(HL)", 0xEE, 0, 8, Operation::SetBit(5, Reg8::MemHl))),
        0xEF => Some(Instruction::new("SET 5,A", 0xEF, 0, 8, Operation::SetBit(5, Reg8::A))),
        0xF0 => Some(Instruction::new("SET 6,B", 0xF0, 0, 8, Operation::SetBit(6, Reg8::B))),
        0xF1 => Some(Instruction::new("SET 6,C", 0xF1, 0, 8, Operation::SetBit(6, Reg8::C))),
        0xF2 => Some(Instruction::new("SET 6,D", 0xF2, 0, 8, Operation::SetBit(6, Reg8::D))),
        0xF3 => Some(Instruction::new("SET 6,E", 0xF3, 0, 8, Operation::SetBit(6, Reg8::E))),
        0xF4 => Some(Instruction::new("SET 6,H", 0xF4, 0, 8, Operation::SetBit(6, Reg8::H))),
        0xF5 => Some(Instruction::new("SET 6,L", 0xF5, 0, 8, Operation::SetBit(6, Reg8::L))),
        0xF6 => Some(Instruction::new("SET 6,(HL)", 0xF6, 0, 8, Operation::SetBit(6, Reg8::MemHl))),
        0xF7 => Some(Instruction::new("SET 6,A", 0xF7, 0, 8, Operation::SetBit(6, Reg8::A))),
        0xF8 => Some(Instruction::new("SET 7,B", 0xF8, 0, 8, Operation::SetBit(7, Reg8::B))),
        0xF9 => Some(Instruction::new("SET 7,C", 0xF9, 0, 8, Operation::SetBit(7, Reg8::C))),
        0xFA => Some(Instruction::new("SET 7,D", 0xFA, 0, 8, Operation::SetBit(7, Reg8::D))),
        0xFB => Some(Instruction::new("SET 7,E", 0xFB, 0, 8, Operation::SetBit(7, Reg8::E))),
        0xFC => Some(Instruction::new("SET 7,H", 0xFC, 0, 8, Operation::SetBit(7, Reg8::H))),
        0xFD => Some(Instruction::new("SET 7,L", 0xFD, 0, 8, Operation::SetBit(7, Reg8::L))),
        0xFE => Some(Instruction::new("SET 7,(HL)", 0xFE, 0, 8, Operation::SetBit(7, Reg8::MemHl))),
        0xFF => Some(Instruction::new("SET 7,A", 0xFF, 0, 8, Operation::SetBit(7, Reg8::A))),
    }
}

/// The instructions of the extended table, in the order of their opcodes.
pub fn get_cb_instruction_set() -> (set: Vec<Instruction>)
    ensures
        set@ == table_entries(true, 256),
{
    let mut set: Vec<Instruction> = Vec::new();
    let mut opcode: u16 = 0;
    while opcode < 256
        invariant
            opcode <= 256,
            set@ == table_entries(true, opcode as nat),
        decreases 256 - opcode,
    {
        match lookup_cb_instruction(opcode as u8) {
            Some(entry) => set.push(entry),
            None => {},
        }
        opcode += 1;
    }
    set
}

} // verus!
