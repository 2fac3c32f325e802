use vstd::prelude::*;
use crate::cb_instructions::{
    reset_bit_n, rotate_reg_left, rotate_reg_right, set_bit_n, shift_left_lsb_0,
    shift_right_msb_0, shift_right_msb_same, spec_cb_instruction, spec_reset_bit, spec_set_bit,
    swap_reg, test_bit_flags, test_bit_n,
};
use crate::cpu::{Cpu, FlagRegister};
use crate::game_boy::{GameBoy, GameBoyView};
use crate::math::{
    add_u16_and_i8, add_u16_and_i8_affect_flags, bit_of, offset_flags, rotate_left, rotate_right,
    shift_flags, spec_add_u16_and_i8, spec_rotate_left, spec_rotate_right,
};
use crate::util::{concat_bytes, get_reg8, push_word, set_reg8, Reg8};

verus! {

/// A 16-bit register that word loads and word arithmetic can name.
#[derive(Copy, Clone, Debug, PartialEq, Eq, Structural)]
pub enum Reg16 {
    BC,
    DE,
    HL,
    SP,
}

/// A register pair that PUSH and POP can name.
#[derive(Copy, Clone, Debug, PartialEq, Eq, Structural)]
pub enum StackPair {
    AF,
    BC,
    DE,
    HL,
}

/// The condition of a jump, call or return.
#[derive(Copy, Clone, Debug, PartialEq, Eq, Structural)]
pub enum Condition {
    Always,
    NotZero,
    Zero,
    NotCarry,
    Carry,
}

/// The second operand of an 8-bit arithmetic or logic operation.
#[derive(Copy, Clone, Debug, PartialEq, Eq, Structural)]
pub enum Operand {
    Register(Reg8),
    Immediate,
}

/// What an instruction does. The two immediate bytes that follow the opcode
/// are handed to the operation when it runs.
#[derive(Copy, Clone, Debug, PartialEq, Eq, Structural)]
pub enum Operation {
    Nop,
    Halt,
    Stop,
    LoadImmediate(Reg8),
    Load(Reg8, Reg8),
    LoadAFromBc,
    LoadAFromDe,
    LoadAFromAddress,
    StoreAAtBc,
    StoreAAtDe,
    StoreAAtAddress,
    LoadWord(Reg16),
    StoreAAtHlDecrement,
    StoreAAtHlIncrement,
    LoadAFromHlIncrement,
    LoadAFromHlDecrement,
    LoadSpFromHl,
    LoadHlFromSpOffset,
    StoreAHighImmediate,
    LoadAHighImmediate,
    StoreAHighC,
    LoadAHighC,
    StoreSpAtAddress,
    Push(StackPair),
    Pop(StackPair),
    And(Operand),
    Or(Operand),
    Xor(Operand),
    Increment(Reg8),
    Decrement(Reg8),
    IncrementWord(Reg16),
    DecrementWord(Reg16),
    Add(Operand),
    AddCarry(Operand),
    Subtract(Operand),
    SubtractCarry(Operand),
    Compare(Operand),
    AddHl(Reg16),
    AddSpOffset,
    Jump(Condition),
    JumpRelative(Condition),
    JumpHl,
    Call(Condition),
    Return(Condition),
    ReturnInterrupt,
    DisableInterrupts,
    EnableInterrupts,
    RotateLeftA(bool),
    RotateRightA(bool),
    DecimalAdjust,
    Complement,
    ComplementCarry,
    SetCarry,
    Restart(u8),
    RotateLeft(Reg8, bool),
    RotateRight(Reg8, bool),
    Swap(Reg8),
    ShiftLeft(Reg8),
    ShiftRightKeepSign(Reg8),
    ShiftRight(Reg8),
    TestBit(u8, Reg8),
    ResetBit(u8, Reg8),
    SetBit(u8, Reg8),
}

/// The families of operations.
#[derive(Copy, Clone, Debug, PartialEq, Eq, Structural)]
pub enum OperationKind {
    Transfer,
    Logic,
    Arithmetic,
    Control,
    Bits,
}

/// One entry of an instruction table.
#[derive(Copy, Clone, Debug)]
pub struct Instruction {
    pub name: &'static str,
    pub opcode: u8,
    pub operand_length: u8,
    pub cycles: u8,
    pub operation: Operation,
}

impl Instruction {
    pub open spec fn spec_new(
        name: &'static str,
        opcode: u8,
        operand_length: u8,
        cycles: u8,
        operation: Operation,
    ) -> Instruction {
        Instruction { name, opcode, operand_length, cycles, operation }
    }

    pub fn new(
        name: &'static str,
        opcode: u8,
        operand_length: u8,
        cycles: u8,
        operation: Operation,
    ) -> (r: Instruction)
        ensures
            r == Instruction::spec_new(name, opcode, operand_length, cycles, operation),
    {
        Instruction { name, opcode, operand_length, cycles, operation }
    }
}

/// The word that two immediate bytes name: the first is the low byte.
pub open spec fn immediate_word(a1: u8, a2: u8) -> u16 {
    (a2 * 256 + a1) as u16
}

/// The 8-bit sum `a + v + c` for a carry-in `c` of zero or one.
pub open spec fn add_result(a: u8, v: u8, c: int) -> u8 {
    ((a + v + c) % 256) as u8
}

/// The flags of an 8-bit addition: H is the carry out of bit 3, C the carry
/// out of bit 7.
pub open spec fn add_flags(a: u8, v: u8, c: int) -> FlagRegister {
    FlagRegister {
        zero: add_result(a, v, c) == 0,
        subtract: false,
        half_carry: a % 16 + v % 16 + c > 15,
        carry: a + v + c > 255,
    }
}

/// The 8-bit difference `a - v - c` for a borrow-in `c` of zero or one.
pub open spec fn sub_result(a: u8, v: u8, c: int) -> u8 {
    ((a - v - c) % 256) as u8
}

/// The flags of an 8-bit subtraction: H is the borrow into bit 4, C the
/// borrow out of bit 7.
pub open spec fn sub_flags(a: u8, v: u8, c: int) -> FlagRegister {
    FlagRegister {
        zero: sub_result(a, v, c) == 0,
        subtract: true,
        half_carry: v % 16 + c > a % 16,
        carry: a - v - c < 0,
    }
}

/// The flags of a comparison of `a1` with `a2`.
pub open spec fn compare_flags(a1: u8, a2: u8) -> FlagRegister {
    FlagRegister { zero: a1 == a2, subtract: true, half_carry: a2 % 16 > a1 % 16, carry: a1 < a2 }
}

/// The flags after a 16-bit addition to HL: Z is kept, N is clear, H and C
/// are the carries out of bit 11 and bit 15.
pub open spec fn add_word_flags(f: FlagRegister, value: u16, arg: u16) -> FlagRegister {
    FlagRegister {
        zero: f.zero,
        subtract: false,
        half_carry: value % 0x1000 + arg % 0x1000 > 0xFFF,
        carry: value + arg > 0xFFFF,
    }
}

/// The flags after AND, OR or XOR gave `result`; AND sets H.
pub open spec fn logic_flags(result: u8, half_carry: bool) -> FlagRegister {
    FlagRegister { zero: result == 0, subtract: false, half_carry, carry: false }
}

/// The accumulator after decimal adjustment, before it is cut to a byte.
pub open spec fn daa_wide(a: u8, f: FlagRegister) -> int {
    if f.subtract {
        let a1: int = if f.half_carry {
            (a - 0x06) % 256
        } else {
            a as int
        };
        if f.carry {
            a1 - 0x60
        } else {
            a1
        }
    } else {
        let a1: int = if a % 16 > 9 || f.half_carry {
            a + 0x06
        } else {
            a as int
        };
        if a1 > 0x9F || f.carry {
            a1 + 0x60
        } else {
            a1
        }
    }
}

pub open spec fn daa_result(a: u8, f: FlagRegister) -> u8 {
    (daa_wide(a, f) % 256) as u8
}

/// The flags after decimal adjustment: H is cleared, Z reflects the result,
/// C stays set and is set when the adjustment passed 0xFF.
pub open spec fn daa_flags(a: u8, f: FlagRegister) -> FlagRegister {
    FlagRegister {
        zero: daa_result(a, f) == 0,
        subtract: f.subtract,
        half_carry: false,
        carry: f.carry || daa_wide(a, f) > 0xFF,
    }
}

pub open spec fn condition_holds(condition: Condition, f: FlagRegister) -> bool {
    match condition {
        Condition::Always => true,
        Condition::NotZero => !f.zero,
        Condition::Zero => f.zero,
        Condition::NotCarry => !f.carry,
        Condition::Carry => f.carry,
    }
}

impl GameBoyView {
    pub open spec fn reg16(self, reg: Reg16) -> u16 {
        match reg {
            Reg16::BC => self.cpu.bc,
            Reg16::DE => self.cpu.de,
            Reg16::HL => self.cpu.hl,
            Reg16::SP => self.cpu.sp,
        }
    }

    pub open spec fn with_reg16(self, reg: Reg16, val: u16) -> GameBoyView {
        match reg {
            Reg16::BC => self.with_cpu(Cpu { bc: val, ..self.cpu }),
            Reg16::DE => self.with_cpu(Cpu { de: val, ..self.cpu }),
            Reg16::HL => self.with_cpu(Cpu { hl: val, ..self.cpu }),
            Reg16::SP => self.with_cpu(Cpu { sp: val, ..self.cpu }),
        }
    }

    pub open spec fn stack_pair(self, pair: StackPair) -> u16 {
        match pair {
            StackPair::AF => self.cpu.spec_af(),
            StackPair::BC => self.cpu.bc,
            StackPair::DE => self.cpu.de,
            StackPair::HL => self.cpu.hl,
        }
    }

    /// The machine after a register pair is loaded. Loading AF drops the low
    /// four bits of F.
    pub open spec fn with_stack_pair(self, pair: StackPair, val: u16) -> GameBoyView {
        match pair {
            StackPair::AF => self.with_cpu(self.cpu.with_af(val)),
            StackPair::BC => self.with_cpu(Cpu { bc: val, ..self.cpu }),
            StackPair::DE => self.with_cpu(Cpu { de: val, ..self.cpu }),
            StackPair::HL => self.with_cpu(Cpu { hl: val, ..self.cpu }),
        }
    }

    pub open spec fn with_a(self, a: u8) -> GameBoyView {
        self.with_cpu(Cpu { a, ..self.cpu })
    }

    pub open spec fn with_pc(self, pc: u16) -> GameBoyView {
        self.with_cpu(Cpu { pc, ..self.cpu })
    }

    pub open spec fn with_hl(self, hl: u16) -> GameBoyView {
        self.with_cpu(Cpu { hl, ..self.cpu })
    }

    /// The machine after the processor stores `val` at `address`.
    pub open spec fn store(self, address: u16, val: u8) -> GameBoyView {
        self.with_memory(self.memory.write(address, val))
    }

    /// The value of the second operand of an arithmetic or logic operation.
    pub open spec fn operand(self, operand: Operand, a1: u8) -> u8 {
        match operand {
            Operand::Register(reg) => self.reg8(reg),
            Operand::Immediate => a1,
        }
    }

    /// One if `with_carry` is asked for and the carry flag is set, else zero.
    pub open spec fn carry_in(self, with_carry: bool) -> int {
        bit_of(with_carry && self.cpu.flag.carry)
    }

    /// ADD and ADC: A plus the value, plus the carry for ADC.
    pub open spec fn after_add(self, v: u8, with_carry: bool) -> GameBoyView {
        let c = self.carry_in(with_carry);
        self.with_flags(add_flags(self.cpu.a, v, c)).with_a(add_result(self.cpu.a, v, c))
    }

    /// SUB and SBC: A minus the value, minus the carry for SBC.
    pub open spec fn after_subtract(self, v: u8, with_carry: bool) -> GameBoyView {
        let c = self.carry_in(with_carry);
        self.with_flags(sub_flags(self.cpu.a, v, c)).with_a(sub_result(self.cpu.a, v, c))
    }

    /// INC on a byte: the carry flag is kept.
    pub open spec fn after_increment(self, reg: Reg8) -> GameBoyView {
        let v = self.reg8(reg);
        self.with_flags(
            FlagRegister { carry: self.cpu.flag.carry, ..add_flags(v, 1, 0) },
        ).with_reg8(reg, add_result(v, 1, 0))
    }

    /// DEC on a byte: the carry flag is kept.
    pub open spec fn after_decrement(self, reg: Reg8) -> GameBoyView {
        let v = self.reg8(reg);
        self.with_flags(
            FlagRegister { carry: self.cpu.flag.carry, ..sub_flags(v, 1, 0) },
        ).with_reg8(reg, sub_result(v, 1, 0))
    }

    pub open spec fn after_and(self, v: u8) -> GameBoyView {
        self.with_flags(logic_flags(self.cpu.a & v, true)).with_a(self.cpu.a & v)
    }

    pub open spec fn after_or(self, v: u8) -> GameBoyView {
        self.with_flags(logic_flags(self.cpu.a | v, false)).with_a(self.cpu.a | v)
    }

    pub open spec fn after_xor(self, v: u8) -> GameBoyView {
        self.with_flags(logic_flags(self.cpu.a ^ v, false)).with_a(self.cpu.a ^ v)
    }

    /// ADD HL,rr.
    pub open spec fn after_add_hl(self, arg: u16) -> GameBoyView {
        self.with_flags(add_word_flags(self.cpu.flag, self.cpu.hl, arg)).with_hl(
            ((self.cpu.hl + arg) % 0x10000) as u16,
        )
    }

    /// A jump to `target` if the condition holds, else nothing.
    pub open spec fn after_jump(self, condition: Condition, target: u16) -> GameBoyView {
        if condition_holds(condition, self.cpu.flag) {
            self.with_pc(target)
        } else {
            self
        }
    }

    /// A call: PC is pushed, then loaded with `target`.
    pub open spec fn after_call(self, target: u16) -> GameBoyView {
        self.push(self.cpu.pc).with_pc(target)
    }

    /// A return: PC is popped.
    pub open spec fn after_return(self) -> GameBoyView {
        self.pop().with_pc(self.stack_top())
    }

    /// The four rotates of A: as the rotate of a register, but Z is cleared.
    pub open spec fn after_rotate_a(self, left: bool, through: bool) -> GameBoyView {
        let a = self.cpu.a;
        let result = if left {
            spec_rotate_left(a, self.cpu.flag.carry, through)
        } else {
            spec_rotate_right(a, self.cpu.flag.carry, through)
        };
        let bit_out = if left {
            a >= 128
        } else {
            a % 2 == 1
        };
        self.with_flags(FlagRegister { zero: false, ..shift_flags(result, bit_out) }).with_a(
            result,
        )
    }
}

pub fn nop(gb: &mut GameBoy)
    ensures
        *final(gb) == *old(gb),
{
}

/// HALT parks the processor until an interrupt is pending.
pub fn halt(gb: &mut GameBoy)
    ensures
        final(gb)@ == old(gb)@.with_cpu(Cpu { is_halted: true, ..old(gb).cpu }),
{
    gb.cpu.is_halted = true;
}

/// STOP does nothing; its payload byte is ignored.
pub fn stop(gb: &mut GameBoy, a1: u8)
    ensures
        *final(gb) == *old(gb),
{
}

/// Pops a word: reads it at SP, then SP goes up by two.
pub fn pop_word(gb: &mut GameBoy) -> (result: u16)
    requires
        old(gb).wf(),
    ensures
        final(gb).wf(),
        result == old(gb)@.stack_top(),
        final(gb)@ == old(gb)@.pop(),
{
    let result = gb.memory.get_word(gb.cpu.sp);
    gb.cpu.sp = gb.cpu.sp.wrapping_add(2);
    result
}

pub fn test_condition(gb: &GameBoy, condition: Condition) -> (r: bool)
    ensures
        r == condition_holds(condition, gb.cpu.flag),
{
    match condition {
        Condition::Always => true,
        Condition::NotZero => !gb.cpu.flag.zero,
        Condition::Zero => gb.cpu.flag.zero,
        Condition::NotCarry => !gb.cpu.flag.carry,
        Condition::Carry => gb.cpu.flag.carry,
    }
}

/// JP nn.
pub fn jump_immediate(gb: &mut GameBoy, a1: u8, a2: u8)
    ensures
        final(gb)@ == old(gb)@.with_pc(immediate_word(a1, a2)),
{
    gb.cpu.pc = concat_bytes(a2, a1);
}

/// JR n: PC, which already points past the instruction, moves by the signed
/// operand.
pub fn jump_pc_plus_byte(gb: &mut GameBoy, a1: u8)
    ensures
        final(gb)@ == old(gb)@.with_pc(spec_add_u16_and_i8(old(gb).cpu.pc, a1)),
{
    gb.cpu.pc = add_u16_and_i8(gb.cpu.pc, a1);
}

/// JP cc,nn.
pub fn jump_conditional(gb: &mut GameBoy, condition: Condition, a1: u8, a2: u8)
    ensures
        final(gb)@ == old(gb)@.after_jump(condition, immediate_word(a1, a2)),
{
    if test_condition(gb, condition) {
        jump_immediate(gb, a1, a2);
    }
}

/// JR cc,n.
pub fn jump_relative_conditional(gb: &mut GameBoy, condition: Condition, a1: u8)
    ensures
        final(gb)@ == old(gb)@.after_jump(condition, spec_add_u16_and_i8(old(gb).cpu.pc, a1)),
{
    if test_condition(gb, condition) {
        jump_pc_plus_byte(gb, a1);
    }
}

/// JP (HL).
pub fn jump_hl(gb: &mut GameBoy)
    ensures
        final(gb)@ == old(gb)@.with_pc(old(gb).cpu.hl),
{
    gb.cpu.pc = gb.cpu.hl;
}

/// CALL nn.
pub fn call_nn(gb: &mut GameBoy, a1: u8, a2: u8)
    requires
        old(gb).wf(),
    ensures
        final(gb).wf(),
        final(gb)@ == old(gb)@.after_call(immediate_word(a1, a2)),
{
    let pc = gb.cpu.pc;
    push_word(gb, pc);
    jump_immediate(gb, a1, a2);
}

/// CALL cc,nn.
pub fn call_conditional(gb: &mut GameBoy, condition: Condition, a1: u8, a2: u8)
    requires
        old(gb).wf(),
    ensures
        final(gb).wf(),
        final(gb)@ == if condition_holds(condition, old(gb).cpu.flag) {
            old(gb)@.after_call(immediate_word(a1, a2))
        } else {
            old(gb)@
        },
{
    if test_condition(gb, condition) {
        call_nn(gb, a1, a2);
    }
}

/// RET.
pub fn sub_return(gb: &mut GameBoy)
    requires
        old(gb).wf(),
    ensures
        final(gb).wf(),
        final(gb)@ == old(gb)@.after_return(),
{
    let addr = pop_word(gb);
    gb.cpu.pc = addr;
}

/// RETI: RET, then the interrupt master enable is set.
pub fn sub_return_enable_interrupts(gb: &mut GameBoy)
    requires
        old(gb).wf(),
    ensures
        final(gb).wf(),
        final(gb)@ == old(gb)@.after_return().with_cpu(
            Cpu { interrupt_enable_master: true, ..old(gb)@.after_return().cpu },
        ),
{
    sub_return(gb);
    enable_interrupts(gb);
}

/// RET cc.
pub fn sub_return_conditional(gb: &mut GameBoy, condition: Condition)
    requires
        old(gb).wf(),
    ensures
        final(gb).wf(),
        final(gb)@ == if condition_holds(condition, old(gb).cpu.flag) {
            old(gb)@.after_return()
        } else {
            old(gb)@
        },
{
    if test_condition(gb, condition) {
        sub_return(gb);
    }
}

/// LD (nn),SP.
pub fn load_mem_nn_sp(gb: &mut GameBoy, a1: u8, a2: u8)
    requires
        old(gb).wf(),
    ensures
        final(gb).wf(),
        final(gb)@ == old(gb)@.with_memory(
            old(gb)@.memory.write_word(immediate_word(a1, a2), old(gb).cpu.sp),
        ),
{
    gb.memory.set_word(concat_bytes(a2, a1), gb.cpu.sp);
}

pub fn get_stack_pair(gb: &GameBoy, pair: StackPair) -> (r: u16)
    ensures
        r == gb@.stack_pair(pair),
{
    match pair {
        StackPair::AF => gb.cpu.get_af(),
        StackPair::BC => gb.cpu.bc,
        StackPair::DE => gb.cpu.de,
        StackPair::HL => gb.cpu.hl,
    }
}

pub fn set_stack_pair(gb: &mut GameBoy, pair: StackPair, val: u16)
    ensures
        final(gb)@ == old(gb)@.with_stack_pair(pair, val),
{
    match pair {
        StackPair::AF => gb.cpu.set_af(val),
        StackPair::BC => {
            gb.cpu.bc = val;
        },
        StackPair::DE => {
            gb.cpu.de = val;
        },
        StackPair::HL => {
            gb.cpu.hl = val;
        },
    }
}

/// PUSH rr.
pub fn push_pair(gb: &mut GameBoy, pair: StackPair)
    requires
        old(gb).wf(),
    ensures
        final(gb).wf(),
        final(gb)@ == old(gb)@.push(old(gb)@.stack_pair(pair)),
{
    let val = get_stack_pair(gb, pair);
    push_word(gb, val);
}

/// POP rr. POP AF drops the low four bits of F.
pub fn pop_pair(gb: &mut GameBoy, pair: StackPair)
    requires
        old(gb).wf(),
    ensures
        final(gb).wf(),
        final(gb)@ == old(gb)@.pop().with_stack_pair(pair, old(gb)@.stack_top()),
{
    let val = pop_word(gb);
    set_stack_pair(gb, pair, val);
}

/// Adds two bytes, and the carry flag if `with_carry` is set, and sets the
/// four flags.
pub fn add_with_flags(gb: &mut GameBoy, reg_val: u8, value: u8, with_carry: bool) -> (result: u8)
    ensures
        result == add_result(reg_val, value, old(gb)@.carry_in(with_carry)),
        final(gb)@ == old(gb)@.with_flags(
            add_flags(reg_val, value, old(gb)@.carry_in(with_carry)),
        ),
{
    let extra: u16 = if with_carry && gb.cpu.flag.carry { 1 } else { 0 };
    let mut result: u16 = (reg_val as u16) + (value as u16) + extra;
    if result > 255 {
        result -= 256;
        gb.cpu.flag.carry = true;
    } else {
        gb.cpu.flag.carry = false;
    }
    gb.cpu.flag.half_carry = (reg_val % 16) as u16 + (value % 16) as u16 + extra > 15;
    gb.cpu.flag.zero = result == 0;
    gb.cpu.flag.subtract = false;
    result as u8
}

/// Adds two words and sets N, H and C; Z is kept.
pub fn add_word(gb: &mut GameBoy, value: u16, arg: u16) -> (result: u16)
    ensures
        result == (value + arg) % 0x10000,
        final(gb)@ == old(gb)@.with_flags(add_word_flags(old(gb).cpu.flag, value, arg)),
{
    let mut result: u32 = (value as u32) + (arg as u32);
    if result > 65535 {
        result -= 65536;
        gb.cpu.flag.carry = true;
    } else {
        gb.cpu.flag.carry = false;
    }
    gb.cpu.flag.subtract = false;
    gb.cpu.flag.half_carry = (value % 0x1000) + (arg % 0x1000) > 0xFFF;
    result as u16
}

/// Subtracts `value`, and the carry flag if `with_carry` is set, from
/// `reg_val`, and sets the four flags.
pub fn subtract_with_flags(gb: &mut GameBoy, reg_val: u8, value: u8, with_carry: bool) -> (result:
    u8)
    ensures
        result == sub_result(reg_val, value, old(gb)@.carry_in(with_carry)),
        final(gb)@ == old(gb)@.with_flags(
            sub_flags(reg_val, value, old(gb)@.carry_in(with_carry)),
        ),
{
    let extra: i16 = if with_carry && gb.cpu.flag.carry { 1 } else { 0 };
    let mut result: i16 = (reg_val as i16) - (value as i16) - extra;
    if result < 0 {
        result += 256;
        gb.cpu.flag.carry = true;
    } else {
        gb.cpu.flag.carry = false;
    }
    gb.cpu.flag.half_carry = (value % 16) as i16 + extra > (reg_val % 16) as i16;
    gb.cpu.flag.zero = result == 0;
    gb.cpu.flag.subtract = true;
    result as u8
}

/// Subtracts one from a byte; the carry flag is kept.
pub fn decrement(gb: &mut GameBoy, reg_val: u8) -> (result: u8)
    ensures
        result == sub_result(reg_val, 1, 0),
        final(gb)@ == old(gb)@.with_flags(
            FlagRegister { carry: old(gb).cpu.flag.carry, ..sub_flags(reg_val, 1, 0) },
        ),
{
    let carry = gb.cpu.flag.carry;
    let result = subtract_with_flags(gb, reg_val, 1, false);
    gb.cpu.flag.carry = carry;
    result
}

/// Adds one to a byte; the carry flag is kept.
pub fn increment(gb: &mut GameBoy, reg_val: u8) -> (result: u8)
    ensures
        result == add_result(reg_val, 1, 0),
        final(gb)@ == old(gb)@.with_flags(
            FlagRegister { carry: old(gb).cpu.flag.carry, ..add_flags(reg_val, 1, 0) },
        ),
{
    let carry = gb.cpu.flag.carry;
    let result = add_with_flags(gb, reg_val, 1, false);
    gb.cpu.flag.carry = carry;
    result
}

/// The difference of two words, wrapping round at sixteen bits.
pub fn subtract_word(value: u16, arg: u16) -> (result: u16)
    ensures
        result == (value - arg) % 0x10000,
{
    let mut result: i32 = (value as i32) - (arg as i32);
    if result < 0 {
        result += 65536;
    }
    result as u16
}

/// Sets the flags as a subtraction of `a2` from `a1` would, and keeps no
/// result.
pub fn compare(gb: &mut GameBoy, a1: u8, a2: u8)
    ensures
        final(gb)@ == old(gb)@.with_flags(compare_flags(a1, a2)),
{
    gb.cpu.flag.subtract = true;
    gb.cpu.flag.zero = a1 == a2;
    gb.cpu.flag.half_carry = (a2 % 16) > (a1 % 16);
    gb.cpu.flag.carry = a1 < a2;
}

/// INC r and INC (HL).
pub fn increment_reg(gb: &mut GameBoy, reg: Reg8)
    requires
        old(gb).wf(),
    ensures
        final(gb).wf(),
        final(gb)@ == old(gb)@.after_increment(reg),
        final(gb).cpu.flag.carry == old(gb).cpu.flag.carry,
{
    let reg_val = get_reg8(gb, reg);
    let result = increment(gb, reg_val);
    set_reg8(gb, reg, result);
}

/// DEC r and DEC (HL).
pub fn decrement_reg(gb: &mut GameBoy, reg: Reg8)
    requires
        old(gb).wf(),
    ensures
        final(gb).wf(),
        final(gb)@ == old(gb)@.after_decrement(reg),
        final(gb).cpu.flag.carry == old(gb).cpu.flag.carry,
{
    let reg_val = get_reg8(gb, reg);
    let result = decrement(gb, reg_val);
    set_reg8(gb, reg, result);
}

pub fn get_reg16(gb: &GameBoy, reg: Reg16) -> (r: u16)
    ensures
        r == gb@.reg16(reg),
{
    match reg {
        Reg16::BC => gb.cpu.bc,
        Reg16::DE => gb.cpu.de,
        Reg16::HL => gb.cpu.hl,
        Reg16::SP => gb.cpu.sp,
    }
}

pub fn set_reg16(gb: &mut GameBoy, reg: Reg16, val: u16)
    ensures
        final(gb)@ == old(gb)@.with_reg16(reg, val),
{
    match reg {
        Reg16::BC => {
            gb.cpu.bc = val;
        },
        Reg16::DE => {
            gb.cpu.de = val;
        },
        Reg16::HL => {
            gb.cpu.hl = val;
        },
        Reg16::SP => {
            gb.cpu.sp = val;
        },
    }
}

/// INC rr: adds one, wrapping round; no flag changes.
pub fn increment_word(gb: &mut GameBoy, reg: Reg16)
    ensures
        final(gb)@ == old(gb)@.with_reg16(reg, ((old(gb)@.reg16(reg) + 1) % 0x10000) as u16),
{
    let val = get_reg16(gb, reg);
    if val == 0xFFFF {
        set_reg16(gb, reg, 0);
    } else {
        set_reg16(gb, reg, val + 1);
    }
}

/// DEC rr: subtracts one, wrapping round; no flag changes.
pub fn decrement_word(gb: &mut GameBoy, reg: Reg16)
    ensures
        final(gb)@ == old(gb)@.with_reg16(reg, ((old(gb)@.reg16(reg) - 1) % 0x10000) as u16),
{
    let result = subtract_word(get_reg16(gb, reg), 1);
    set_reg16(gb, reg, result);
}

/// Fetches the second operand of an arithmetic or logic operation.
pub fn get_operand(gb: &GameBoy, operand: Operand, a1: u8) -> (r: u8)
    requires
        gb.wf(),
    ensures
        r == gb@.operand(operand, a1),
{
    match operand {
        Operand::Register(reg) => get_reg8(gb, reg),
        Operand::Immediate => a1,
    }
}

/// ADD and ADC on A.
pub fn add_to_a(gb: &mut GameBoy, to_add: u8, with_carry: bool)
    ensures
        final(gb)@ == old(gb)@.after_add(to_add, with_carry),
{
    let reg_val = gb.cpu.get_a();
    let result = add_with_flags(gb, reg_val, to_add, with_carry);
    gb.cpu.set_a(result);
}

/// SUB and SBC on A.
pub fn subtract_from_a(gb: &mut GameBoy, to_sub: u8, with_carry: bool)
    ensures
        final(gb)@ == old(gb)@.after_subtract(to_sub, with_carry),
{
    let a = gb.cpu.get_a();
    let result = subtract_with_flags(gb, a, to_sub, with_carry);
    gb.cpu.set_a(result);
}

/// CP: compares A with a value.
pub fn compare_with_a(gb: &mut GameBoy, val: u8)
    ensures
        final(gb)@ == old(gb)@.with_flags(compare_flags(old(gb).cpu.a, val)),
{
    let a = gb.cpu.get_a();
    compare(gb, a, val);
}

/// ADD HL,rr.
pub fn add_hl(gb: &mut GameBoy, reg: Reg16)
    ensures
        final(gb)@ == old(gb)@.after_add_hl(old(gb)@.reg16(reg)),
{
    let hl = gb.cpu.hl;
    let arg = get_reg16(gb, reg);
    gb.cpu.hl = add_word(gb, hl, arg);
}

/// ADD SP,n.
pub fn add_sp_signed_n(gb: &mut GameBoy, arg: u8)
    ensures
        final(gb)@ == old(gb)@.with_flags(offset_flags(old(gb).cpu.sp, arg)).with_reg16(
            Reg16::SP,
            spec_add_u16_and_i8(old(gb).cpu.sp, arg),
        ),
{
    let sp = gb.cpu.sp;
    let result = add_u16_and_i8_affect_flags(gb, sp, arg);
    gb.cpu.sp = result;
}

pub fn load_8(gb: &mut GameBoy, dest: Reg8, val: u8)
    requires
        old(gb).wf(),
    ensures
        final(gb).wf(),
        final(gb)@ == old(gb)@.with_reg8(dest, val),
{
    set_reg8(gb, dest, val);
}

/// LD r,r' with `(HL)` allowed on either side.
pub fn load_x_y(gb: &mut GameBoy, dest: Reg8, val_reg: Reg8)
    requires
        old(gb).wf(),
    ensures
        final(gb).wf(),
        final(gb)@ == old(gb)@.with_reg8(dest, old(gb)@.reg8(val_reg)),
{
    let val = get_reg8(gb, val_reg);
    load_8(gb, dest, val)
}

/// LD r,n and LD (HL),n.
pub fn load_x_imm(gb: &mut GameBoy, dest: Reg8, val: u8)
    requires
        old(gb).wf(),
    ensures
        final(gb).wf(),
        final(gb)@ == old(gb)@.with_reg8(dest, val),
{
    load_8(gb, dest, val)
}

/// Stores A at an address.
pub fn store_a(gb: &mut GameBoy, address: u16)
    requires
        old(gb).wf(),
    ensures
        final(gb).wf(),
        final(gb)@ == old(gb)@.store(address, old(gb).cpu.a),
{
    gb.memory.set_byte(address, gb.cpu.get_a());
}

/// Loads A from an address.
pub fn load_a(gb: &mut GameBoy, address: u16)
    requires
        old(gb).wf(),
    ensures
        final(gb).wf(),
        final(gb)@ == old(gb)@.with_a(old(gb)@.memory.read(address)),
{
    let val = gb.memory.get_byte(address);
    gb.cpu.set_a(val);
}

/// LD (BC),A.
pub fn load_mem_bc_a(gb: &mut GameBoy)
    requires
        old(gb).wf(),
    ensures
        final(gb).wf(),
        final(gb)@ == old(gb)@.store(old(gb).cpu.bc, old(gb).cpu.a),
{
    store_a(gb, gb.cpu.bc);
}

/// LD (DE),A.
pub fn load_mem_de_a(gb: &mut GameBoy)
    requires
        old(gb).wf(),
    ensures
        final(gb).wf(),
        final(gb)@ == old(gb)@.store(old(gb).cpu.de, old(gb).cpu.a),
{
    store_a(gb, gb.cpu.de);
}

/// LD (nn),A.
pub fn load_mem_nn_a(gb: &mut GameBoy, a1: u8, a2: u8)
    requires
        old(gb).wf(),
    ensures
        final(gb).wf(),
        final(gb)@ == old(gb)@.store(immediate_word(a1, a2), old(gb).cpu.a),
{
    store_a(gb, concat_bytes(a2, a1));
}

/// LD A,(BC).
pub fn load_a_mem_bc(gb: &mut GameBoy)
    requires
        old(gb).wf(),
    ensures
        final(gb).wf(),
        final(gb)@ == old(gb)@.with_a(old(gb)@.memory.read(old(gb).cpu.bc)),
{
    load_a(gb, gb.cpu.bc);
}

/// LD A,(DE).
pub fn load_a_mem_de(gb: &mut GameBoy)
    requires
        old(gb).wf(),
    ensures
        final(gb).wf(),
        final(gb)@ == old(gb)@.with_a(old(gb)@.memory.read(old(gb).cpu.de)),
{
    load_a(gb, gb.cpu.de);
}

/// LD A,(nn).
pub fn load_a_mem_nn(gb: &mut GameBoy, a1: u8, a2: u8)
    requires
        old(gb).wf(),
    ensures
        final(gb).wf(),
        final(gb)@ == old(gb)@.with_a(old(gb)@.memory.read(immediate_word(a1, a2))),
{
    load_a(gb, concat_bytes(a2, a1));
}

/// LD rr,nn.
pub fn load_word_immediate(gb: &mut GameBoy, reg: Reg16, a1: u8, a2: u8)
    ensures
        final(gb)@ == old(gb)@.with_reg16(reg, immediate_word(a1, a2)),
{
    set_reg16(gb, reg, concat_bytes(a2, a1));
}

/// LD (0xFF00 + n),A.
pub fn load_ff00_plus_n_with_a(gb: &mut GameBoy, a1: u8)
    requires
        old(gb).wf(),
    ensures
        final(gb).wf(),
        final(gb)@ == old(gb)@.store((0xFF00 + a1) as u16, old(gb).cpu.a),
{
    store_a(gb, 0xFF00 + (a1 as u16));
}

/// LD A,(0xFF00 + n).
pub fn load_a_with_ff00_plus_n(gb: &mut GameBoy, a1: u8)
    requires
        old(gb).wf(),
    ensures
        final(gb).wf(),
        final(gb)@ == old(gb)@.with_a(old(gb)@.memory.read((0xFF00 + a1) as u16)),
{
    load_a(gb, 0xFF00 + (a1 as u16));
}

/// LD (0xFF00 + C),A.
pub fn load_ff00_plus_c_with_a(gb: &mut GameBoy)
    requires
        old(gb).wf(),
    ensures
        final(gb).wf(),
        final(gb)@ == old(gb)@.store((0xFF00 + old(gb).cpu.spec_c()) as u16, old(gb).cpu.a),
{
    let c = gb.cpu.get_c();
    store_a(gb, 0xFF00 + (c as u16));
}

/// LD A,(0xFF00 + C).
pub fn load_a_with_ff00_plus_c(gb: &mut GameBoy)
    requires
        old(gb).wf(),
    ensures
        final(gb).wf(),
        final(gb)@ == old(gb)@.with_a(
            old(gb)@.memory.read((0xFF00 + old(gb).cpu.spec_c()) as u16),
        ),
{
    let c = gb.cpu.get_c();
    load_a(gb, 0xFF00 + (c as u16));
}

/// LD (HL),A; DEC HL.
pub fn load_mem_hl_with_a_dec_hl(gb: &mut GameBoy)
    requires
        old(gb).wf(),
    ensures
        final(gb).wf(),
        final(gb)@ == old(gb)@.store(old(gb).cpu.hl, old(gb).cpu.a).with_hl(
            ((old(gb).cpu.hl - 1) % 0x10000) as u16,
        ),
{
    store_a(gb, gb.cpu.hl);
    decrement_word(gb, Reg16::HL);
}

/// LD (HL),A; INC HL.
pub fn load_mem_hl_with_a_inc_hl(gb: &mut GameBoy)
    requires
        old(gb).wf(),
    ensures
        final(gb).wf(),
        final(gb)@ == old(gb)@.store(old(gb).cpu.hl, old(gb).cpu.a).with_hl(
            ((old(gb).cpu.hl + 1) % 0x10000) as u16,
        ),
{
    store_a(gb, gb.cpu.hl);
    increment_word(gb, Reg16::HL);
}

/// LD A,(HL); INC HL.
pub fn load_a_with_mem_hl_inc_hl(gb: &mut GameBoy)
    requires
        old(gb).wf(),
    ensures
        final(gb).wf(),
        final(gb)@ == old(gb)@.with_a(old(gb)@.memory.read(old(gb).cpu.hl)).with_hl(
            ((old(gb).cpu.hl + 1) % 0x10000) as u16,
        ),
{
    load_a(gb, gb.cpu.hl);
    increment_word(gb, Reg16::HL);
}

/// LD A,(HL); DEC HL.
pub fn load_a_with_mem_hl_dec_hl(gb: &mut GameBoy)
    requires
        old(gb).wf(),
    ensures
        final(gb).wf(),
        final(gb)@ == old(gb)@.with_a(old(gb)@.memory.read(old(gb).cpu.hl)).with_hl(
            ((old(gb).cpu.hl - 1) % 0x10000) as u16,
        ),
{
    load_a(gb, gb.cpu.hl);
    decrement_word(gb, Reg16::HL);
}

/// LD SP,HL.
pub fn load_sp_hl(gb: &mut GameBoy)
    ensures
        final(gb)@ == old(gb)@.with_reg16(Reg16::SP, old(gb).cpu.hl),
{
    gb.cpu.sp = gb.cpu.hl;
}

/// LD HL,SP+n.
pub fn load_hl_sp_plus_signed_n(gb: &mut GameBoy, a1: u8)
    ensures
        final(gb)@ == old(gb)@.with_flags(offset_flags(old(gb).cpu.sp, a1)).with_hl(
            spec_add_u16_and_i8(old(gb).cpu.sp, a1),
        ),
{
    let sp = gb.cpu.sp;
    let result = add_u16_and_i8_affect_flags(gb, sp, a1);
    gb.cpu.hl = result;
}

/// OR on A.
pub fn or_a_with(gb: &mut GameBoy, val: u8)
    ensures
        final(gb)@ == old(gb)@.after_or(val),
{
    let a = gb.cpu.get_a();
    let result = a | val;
    gb.cpu.flag.zero = result == 0;
    gb.cpu.flag.half_carry = false;
    gb.cpu.flag.carry = false;
    gb.cpu.flag.subtract = false;
    gb.cpu.set_a(result);
}

/// AND on A.
pub fn and_a_with(gb: &mut GameBoy, val: u8)
    ensures
        final(gb)@ == old(gb)@.after_and(val),
{
    let a = gb.cpu.get_a();
    let result = a & val;
    gb.cpu.flag.zero = result == 0;
    gb.cpu.flag.subtract = false;
    gb.cpu.flag.half_carry = true;
    gb.cpu.flag.carry = false;
    gb.cpu.set_a(result);
}

/// XOR on A.
pub fn xor_a_with(gb: &mut GameBoy, val: u8)
    ensures
        final(gb)@ == old(gb)@.after_xor(val),
{
    let a = gb.cpu.get_a();
    let result = a ^ val;
    gb.cpu.flag.zero = result == 0;
    gb.cpu.flag.half_carry = false;
    gb.cpu.flag.carry = false;
    gb.cpu.flag.subtract = false;
    gb.cpu.set_a(result);
}

/// DI.
pub fn disable_interrupts(gb: &mut GameBoy)
    ensures
        final(gb)@ == old(gb)@.with_cpu(Cpu { interrupt_enable_master: false, ..old(gb).cpu }),
{
    gb.cpu.interrupt_enable_master = false;
}

/// EI.
pub fn enable_interrupts(gb: &mut GameBoy)
    ensures
        final(gb)@ == old(gb)@.with_cpu(Cpu { interrupt_enable_master: true, ..old(gb).cpu }),
{
    gb.cpu.interrupt_enable_master = true;
}

/// CPL: every bit of A is inverted; N and H are set.
pub fn complement_a(gb: &mut GameBoy)
    ensures
        final(gb)@ == old(gb)@.with_flags(
            FlagRegister { subtract: true, half_carry: true, ..old(gb).cpu.flag },
        ).with_a((255 - old(gb).cpu.a) as u8),
{
    gb.cpu.flag.subtract = true;
    gb.cpu.flag.half_carry = true;
    let a = gb.cpu.get_a();
    gb.cpu.set_a(255 - a);
}

/// CCF: the carry flag is inverted; N and H are cleared.
pub fn complement_carry(gb: &mut GameBoy)
    ensures
        final(gb)@ == old(gb)@.with_flags(
            FlagRegister {
                subtract: false,
                half_carry: false,
                carry: !old(gb).cpu.flag.carry,
                ..old(gb).cpu.flag
            },
        ),
{
    gb.cpu.flag.subtract = false;
    gb.cpu.flag.half_carry = false;
    gb.cpu.flag.carry = !gb.cpu.flag.carry;
}

/// SCF: the carry flag is set; N and H are cleared.
pub fn set_carry(gb: &mut GameBoy)
    ensures
        final(gb)@ == old(gb)@.with_flags(
            FlagRegister { subtract: false, half_carry: false, carry: true, ..old(gb).cpu.flag },
        ),
{
    gb.cpu.flag.subtract = false;
    gb.cpu.flag.half_carry = false;
    gb.cpu.flag.carry = true;
}

/// RST: a call to a fixed address in the first page.
pub fn restart(gb: &mut GameBoy, a1: u8)
    requires
        old(gb).wf(),
    ensures
        final(gb).wf(),
        final(gb)@ == old(gb)@.after_call(a1 as u16),
{
    let pc = gb.cpu.pc;
    push_word(gb, pc);
    jump_immediate(gb, a1, 0x00);
}

/// RLCA and RLA: A is rotated left; Z is cleared whatever the result.
pub fn rotate_left_a(gb: &mut GameBoy, through: bool)
    ensures
        final(gb)@ == old(gb)@.after_rotate_a(true, through),
{
    let a = gb.cpu.get_a();
    let result = rotate_left(gb, a, through);
    gb.cpu.set_a(result);
    gb.cpu.flag.zero = false;
}

/// RRCA and RRA: A is rotated right; Z is cleared whatever the result.
pub fn rotate_right_a(gb: &mut GameBoy, through: bool)
    ensures
        final(gb)@ == old(gb)@.after_rotate_a(false, through),
{
    let a = gb.cpu.get_a();
    let result = rotate_right(gb, a, through);
    gb.cpu.set_a(result);
    gb.cpu.flag.zero = false;
}

/// The decimal adjustment of a byte: the adjusted byte, and whether the carry
/// flag is set afterwards.
pub fn decimal_adjust(a: u8, flag: FlagRegister) -> (r: (u8, bool))
    ensures
        r.0 == daa_result(a, flag),
        r.1 == daa_flags(a, flag).carry,
{
    let mut wide: i16 = a as i16;
    if flag.subtract {
        if flag.half_carry {
            wide = wide - 0x06;
            if wide < 0 {
                wide += 256;
            }
        }
        assert(wide == if flag.half_carry {
            (a - 0x06) % 256
        } else {
            a as int
        });
        if flag.carry {
            wide = wide - 0x60;
        }
    } else {
        if a % 16 > 0x09 || flag.half_carry {
            wide = wide + 0x06;
        }
        if wide > 0x9F || flag.carry {
            wide = wide + 0x60;
        }
    }
    assert(wide == daa_wide(a, flag));
    assert(-0x60 <= wide < 0x200);
    let carry = flag.carry || wide > 0xFF;
    let result: i16 = if wide > 0xFF {
        wide - 256
    } else if wide < 0 {
        wide + 256
    } else {
        wide
    };
    assert(result == wide % 256);
    (result as u8, carry)
}

/// DAA: adjusts A to packed decimal after an addition or a subtraction.
pub fn decimal_adjust_a(gb: &mut GameBoy)
    ensures
        final(gb)@ == old(gb)@.with_flags(daa_flags(old(gb).cpu.a, old(gb).cpu.flag)).with_a(
            daa_result(old(gb).cpu.a, old(gb).cpu.flag),
        ),
{
    let (result, carry) = decimal_adjust(gb.cpu.get_a(), gb.cpu.flag);
    gb.cpu.flag.half_carry = false;
    gb.cpu.flag.carry = carry;
    gb.cpu.flag.zero = result == 0;
    gb.cpu.set_a(result);
}

impl Operation {
    /// An operation is well formed when the bit it names, if it names one,
    /// is one of the eight bits of a byte.
    pub open spec fn wf(self) -> bool {
        match self {
            Operation::TestBit(bit, _) => bit < 8,
            Operation::ResetBit(bit, _) => bit < 8,
            Operation::SetBit(bit, _) => bit < 8,
            _ => true,
        }
    }

    /// The machine after the operation ran with the immediate bytes `a1` and
    /// `a2`. PC has been moved past the instruction before.
    pub open spec fn apply(self, g: GameBoyView, a1: u8, a2: u8) -> GameBoyView {
        match self {
            Operation::Nop => g,
            Operation::Halt => g.with_cpu(Cpu { is_halted: true, ..g.cpu }),
            Operation::Stop => g,
            Operation::LoadImmediate(dest) => g.with_reg8(dest, a1),
            Operation::Load(dest, src) => g.with_reg8(dest, g.reg8(src)),
            Operation::LoadAFromBc => g.with_a(g.memory.read(g.cpu.bc)),
            Operation::LoadAFromDe => g.with_a(g.memory.read(g.cpu.de)),
            Operation::LoadAFromAddress => g.with_a(g.memory.read(immediate_word(a1, a2))),
            Operation::StoreAAtBc => g.store(g.cpu.bc, g.cpu.a),
            Operation::StoreAAtDe => g.store(g.cpu.de, g.cpu.a),
            Operation::StoreAAtAddress => g.store(immediate_word(a1, a2), g.cpu.a),
            Operation::LoadWord(reg) => g.with_reg16(reg, immediate_word(a1, a2)),
            Operation::StoreAAtHlDecrement => g.store(g.cpu.hl, g.cpu.a).with_hl(
                ((g.cpu.hl - 1) % 0x10000) as u16,
            ),
            Operation::StoreAAtHlIncrement => g.store(g.cpu.hl, g.cpu.a).with_hl(
                ((g.cpu.hl + 1) % 0x10000) as u16,
            ),
            Operation::LoadAFromHlIncrement => g.with_a(g.memory.read(g.cpu.hl)).with_hl(
                ((g.cpu.hl + 1) % 0x10000) as u16,
            ),
            Operation::LoadAFromHlDecrement => g.with_a(g.memory.read(g.cpu.hl)).with_hl(
                ((g.cpu.hl - 1) % 0x10000) as u16,
            ),
            Operation::LoadSpFromHl => g.with_reg16(Reg16::SP, g.cpu.hl),
            Operation::LoadHlFromSpOffset => g.with_flags(offset_flags(g.cpu.sp, a1)).with_hl(
                spec_add_u16_and_i8(g.cpu.sp, a1),
            ),
            Operation::StoreAHighImmediate => g.store((0xFF00 + a1) as u16, g.cpu.a),
            Operation::LoadAHighImmediate => g.with_a(g.memory.read((0xFF00 + a1) as u16)),
            Operation::StoreAHighC => g.store((0xFF00 + g.cpu.spec_c()) as u16, g.cpu.a),
            Operation::LoadAHighC => g.with_a(g.memory.read((0xFF00 + g.cpu.spec_c()) as u16)),
            Operation::StoreSpAtAddress => g.with_memory(
                g.memory.write_word(immediate_word(a1, a2), g.cpu.sp),
            ),
            Operation::Push(pair) => g.push(g.stack_pair(pair)),
            Operation::Pop(pair) => g.pop().with_stack_pair(pair, g.stack_top()),
            Operation::And(operand) => g.after_and(g.operand(operand, a1)),
            Operation::Or(operand) => g.after_or(g.operand(operand, a1)),
            Operation::Xor(operand) => g.after_xor(g.operand(operand, a1)),
            Operation::Increment(reg) => g.after_increment(reg),
            Operation::Decrement(reg) => g.after_decrement(reg),
            Operation::IncrementWord(reg) => g.with_reg16(
                reg,
                ((g.reg16(reg) + 1) % 0x10000) as u16,
            ),
            Operation::DecrementWord(reg) => g.with_reg16(
                reg,
                ((g.reg16(reg) - 1) % 0x10000) as u16,
            ),
            Operation::Add(operand) => g.after_add(g.operand(operand, a1), false),
            Operation::AddCarry(operand) => g.after_add(g.operand(operand, a1), true),
            Operation::Subtract(operand) => g.after_subtract(g.operand(operand, a1), false),
            Operation::SubtractCarry(operand) => g.after_subtract(g.operand(operand, a1), true),
            Operation::Compare(operand) => g.with_flags(
                compare_flags(g.cpu.a, g.operand(operand, a1)),
            ),
            Operation::AddHl(reg) => g.after_add_hl(g.reg16(reg)),
            Operation::AddSpOffset => g.with_flags(offset_flags(g.cpu.sp, a1)).with_reg16(
                Reg16::SP,
                spec_add_u16_and_i8(g.cpu.sp, a1),
            ),
            Operation::Jump(condition) => g.after_jump(condition, immediate_word(a1, a2)),
            Operation::JumpRelative(condition) => g.after_jump(
                condition,
                spec_add_u16_and_i8(g.cpu.pc, a1),
            ),
            Operation::JumpHl => g.with_pc(g.cpu.hl),
            Operation::Call(condition) => if condition_holds(condition, g.cpu.flag) {
                g.after_call(immediate_word(a1, a2))
            } else {
                g
            },
            Operation::Return(condition) => if condition_holds(condition, g.cpu.flag) {
                g.after_return()
            } else {
                g
            },
            Operation::ReturnInterrupt => g.after_return().with_cpu(
                Cpu { interrupt_enable_master: true, ..g.after_return().cpu },
            ),
            Operation::DisableInterrupts => g.with_cpu(
                Cpu { interrupt_enable_master: false, ..g.cpu },
            ),
            Operation::EnableInterrupts => g.with_cpu(
                Cpu { interrupt_enable_master: true, ..g.cpu },
            ),
            Operation::RotateLeftA(through) => g.after_rotate_a(true, through),
            Operation::RotateRightA(through) => g.after_rotate_a(false, through),
            Operation::DecimalAdjust => g.with_flags(daa_flags(g.cpu.a, g.cpu.flag)).with_a(
                daa_result(g.cpu.a, g.cpu.flag),
            ),
            Operation::Complement => g.with_flags(
                FlagRegister { subtract: true, half_carry: true, ..g.cpu.flag },
            ).with_a((255 - g.cpu.a) as u8),
            Operation::ComplementCarry => g.with_flags(
                FlagRegister {
                    subtract: false,
                    half_carry: false,
                    carry: !g.cpu.flag.carry,
                    ..g.cpu.flag
                },
            ),
            Operation::SetCarry => g.with_flags(
                FlagRegister { subtract: false, half_carry: false, carry: true, ..g.cpu.flag },
            ),
            Operation::Restart(vector) => g.after_call(vector as u16),
            Operation::RotateLeft(reg, through) => g.after_rotate_left(reg, through),
            Operation::RotateRight(reg, through) => g.after_rotate_right(reg, through),
            Operation::Swap(reg) => g.after_swap(reg),
            Operation::ShiftLeft(reg) => g.after_shift_left(reg),
            Operation::ShiftRightKeepSign(reg) => g.after_shift_right_keep_sign(reg),
            Operation::ShiftRight(reg) => g.after_shift_right(reg),
            Operation::TestBit(bit, reg) => g.with_flags(
                test_bit_flags(g.cpu.flag, g.reg8(reg), bit),
            ),
            Operation::ResetBit(bit, reg) => g.with_reg8(reg, spec_reset_bit(g.reg8(reg), bit)),
            Operation::SetBit(bit, reg) => g.with_reg8(reg, spec_set_bit(g.reg8(reg), bit)),
        }
    }

    /// The family of the operation.
    pub open spec fn spec_kind(self) -> OperationKind {
        match self {
            Operation::LoadImmediate(_) => OperationKind::Transfer,
            Operation::Load(_, _) => OperationKind::Transfer,
            Operation::LoadAFromBc => OperationKind::Transfer,
            Operation::LoadAFromDe => OperationKind::Transfer,
            Operation::LoadAFromAddress => OperationKind::Transfer,
            Operation::StoreAAtBc => OperationKind::Transfer,
            Operation::StoreAAtDe => OperationKind::Transfer,
            Operation::StoreAAtAddress => OperationKind::Transfer,
            Operation::LoadWord(_) => OperationKind::Transfer,
            Operation::StoreAAtHlDecrement => OperationKind::Transfer,
            Operation::StoreAAtHlIncrement => OperationKind::Transfer,
            Operation::LoadAFromHlIncrement => OperationKind::Transfer,
            Operation::LoadAFromHlDecrement => OperationKind::Transfer,
            Operation::LoadSpFromHl => OperationKind::Transfer,
            Operation::LoadHlFromSpOffset => OperationKind::Transfer,
            Operation::StoreAHighImmediate => OperationKind::Transfer,
            Operation::LoadAHighImmediate => OperationKind::Transfer,
            Operation::StoreAHighC => OperationKind::Transfer,
            Operation::LoadAHighC => OperationKind::Transfer,
            Operation::StoreSpAtAddress => OperationKind::Transfer,
            Operation::Push(_) => OperationKind::Transfer,
            Operation::Pop(_) => OperationKind::Transfer,
            Operation::And(_) => OperationKind::Logic,
            Operation::Or(_) => OperationKind::Logic,
            Operation::Xor(_) => OperationKind::Logic,
            Operation::Increment(_) => OperationKind::Logic,
            Operation::Decrement(_) => OperationKind::Logic,
            Operation::IncrementWord(_) => OperationKind::Logic,
            Operation::DecrementWord(_) => OperationKind::Logic,
            Operation::Add(_) => OperationKind::Arithmetic,
            Operation::AddCarry(_) => OperationKind::Arithmetic,
            Operation::Subtract(_) => OperationKind::Arithmetic,
            Operation::SubtractCarry(_) => OperationKind::Arithmetic,
            Operation::Compare(_) => OperationKind::Logic,
            Operation::AddHl(_) => OperationKind::Arithmetic,
            Operation::AddSpOffset => OperationKind::Arithmetic,
            Operation::RotateLeftA(_) => OperationKind::Arithmetic,
            Operation::RotateRightA(_) => OperationKind::Arithmetic,
            Operation::DecimalAdjust => OperationKind::Arithmetic,
            Operation::Complement => OperationKind::Arithmetic,
            Operation::ComplementCarry => OperationKind::Arithmetic,
            Operation::SetCarry => OperationKind::Arithmetic,
            Operation::Nop => OperationKind::Control,
            Operation::Halt => OperationKind::Control,
            Operation::Stop => OperationKind::Control,
            Operation::Jump(_) => OperationKind::Control,
            Operation::JumpRelative(_) => OperationKind::Control,
            Operation::JumpHl => OperationKind::Control,
            Operation::Call(_) => OperationKind::Control,
            Operation::Return(_) => OperationKind::Control,
            Operation::ReturnInterrupt => OperationKind::Control,
            Operation::DisableInterrupts => OperationKind::Control,
            Operation::EnableInterrupts => OperationKind::Control,
            Operation::Restart(_) => OperationKind::Control,
            Operation::RotateLeft(_, _) => OperationKind::Bits,
            Operation::RotateRight(_, _) => OperationKind::Bits,
            Operation::Swap(_) => OperationKind::Bits,
            Operation::ShiftLeft(_) => OperationKind::Bits,
            Operation::ShiftRightKeepSign(_) => OperationKind::Bits,
            Operation::ShiftRight(_) => OperationKind::Bits,
            Operation::TestBit(_, _) => OperationKind::Bits,
            Operation::ResetBit(_, _) => OperationKind::Bits,
            Operation::SetBit(_, _) => OperationKind::Bits,
        }
    }

    /// The family of the operation.
    pub fn kind(&self) -> (r: OperationKind)
        ensures
            r == self.spec_kind(),
    {
        match *self {
            Operation::LoadImmediate(_) => OperationKind::Transfer,
            Operation::Load(_, _) => OperationKind::Transfer,
            Operation::LoadAFromBc => OperationKind::Transfer,
            Operation::LoadAFromDe => OperationKind::Transfer,
            Operation::LoadAFromAddress => OperationKind::Transfer,
            Operation::StoreAAtBc => OperationKind::Transfer,
            Operation::StoreAAtDe => OperationKind::Transfer,
            Operation::StoreAAtAddress => OperationKind::Transfer,
            Operation::LoadWord(_) => OperationKind::Transfer,
            Operation::StoreAAtHlDecrement => OperationKind::Transfer,
            Operation::StoreAAtHlIncrement => OperationKind::Transfer,
            Operation::LoadAFromHlIncrement => OperationKind::Transfer,
            Operation::LoadAFromHlDecrement => OperationKind::Transfer,
            Operation::LoadSpFromHl => OperationKind::Transfer,
            Operation::LoadHlFromSpOffset => OperationKind::Transfer,
            Operation::StoreAHighImmediate => OperationKind::Transfer,
            Operation::LoadAHighImmediate => OperationKind::Transfer,
            Operation::StoreAHighC => OperationKind::Transfer,
            Operation::LoadAHighC => OperationKind::Transfer,
            Operation::StoreSpAtAddress => OperationKind::Transfer,
            Operation::Push(_) => OperationKind::Transfer,
            Operation::Pop(_) => OperationKind::Transfer,
            Operation::And(_) => OperationKind::Logic,
            Operation::Or(_) => OperationKind::Logic,
            Operation::Xor(_) => OperationKind::Logic,
            Operation::Increment(_) => OperationKind::Logic,
            Operation::Decrement(_) => OperationKind::Logic,
            Operation::IncrementWord(_) => OperationKind::Logic,
            Operation::DecrementWord(_) => OperationKind::Logic,
            Operation::Add(_) => OperationKind::Arithmetic,
            Operation::AddCarry(_) => OperationKind::Arithmetic,
            Operation::Subtract(_) => OperationKind::Arithmetic,
            Operation::SubtractCarry(_) => OperationKind::Arithmetic,
            Operation::Compare(_) => OperationKind::Logic,
            Operation::AddHl(_) => OperationKind::Arithmetic,
            Operation::AddSpOffset => OperationKind::Arithmetic,
            Operation::RotateLeftA(_) => OperationKind::Arithmetic,
            Operation::RotateRightA(_) => OperationKind::Arithmetic,
            Operation::DecimalAdjust => OperationKind::Arithmetic,
            Operation::Complement => OperationKind::Arithmetic,
            Operation::ComplementCarry => OperationKind::Arithmetic,
            Operation::SetCarry => OperationKind::Arithmetic,
            Operation::Nop => OperationKind::Control,
            Operation::Halt => OperationKind::Control,
            Operation::Stop => OperationKind::Control,
            Operation::Jump(_) => OperationKind::Control,
            Operation::JumpRelative(_) => OperationKind::Control,
            Operation::JumpHl => OperationKind::Control,
            Operation::Call(_) => OperationKind::Control,
            Operation::Return(_) => OperationKind::Control,
            Operation::ReturnInterrupt => OperationKind::Control,
            Operation::DisableInterrupts => OperationKind::Control,
            Operation::EnableInterrupts => OperationKind::Control,
            Operation::Restart(_) => OperationKind::Control,
            Operation::RotateLeft(_, _) => OperationKind::Bits,
            Operation::RotateRight(_, _) => OperationKind::Bits,
            Operation::Swap(_) => OperationKind::Bits,
            Operation::ShiftLeft(_) => OperationKind::Bits,
            Operation::ShiftRightKeepSign(_) => OperationKind::Bits,
            Operation::ShiftRight(_) => OperationKind::Bits,
            Operation::TestBit(_, _) => OperationKind::Bits,
            Operation::ResetBit(_, _) => OperationKind::Bits,
            Operation::SetBit(_, _) => OperationKind::Bits,
        }
    }

    /// Runs an operation of the family of loads, stores and stack transfers.
    pub fn run_transfer(&self, gb: &mut GameBoy, a1: u8, a2: u8)
        requires
            old(gb).wf(),
            self.wf(),
            self.spec_kind() == OperationKind::Transfer,
        ensures
            final(gb).wf(),
            final(gb)@ == self.apply(old(gb)@, a1, a2),
    {
        match *self {
            Operation::LoadImmediate(dest) => load_x_imm(gb, dest, a1),
            Operation::Load(dest, src) => load_x_y(gb, dest, src),
            Operation::LoadAFromBc => load_a_mem_bc(gb),
            Operation::LoadAFromDe => load_a_mem_de(gb),
            Operation::LoadAFromAddress => load_a_mem_nn(gb, a1, a2),
            Operation::StoreAAtBc => load_mem_bc_a(gb),
            Operation::StoreAAtDe => load_mem_de_a(gb),
            Operation::StoreAAtAddress => load_mem_nn_a(gb, a1, a2),
            Operation::LoadWord(reg) => load_word_immediate(gb, reg, a1, a2),
            Operation::StoreAAtHlDecrement => load_mem_hl_with_a_dec_hl(gb),
            Operation::StoreAAtHlIncrement => load_mem_hl_with_a_inc_hl(gb),
            Operation::LoadAFromHlIncrement => load_a_with_mem_hl_inc_hl(gb),
            Operation::LoadAFromHlDecrement => load_a_with_mem_hl_dec_hl(gb),
            Operation::LoadSpFromHl => load_sp_hl(gb),
            Operation::LoadHlFromSpOffset => load_hl_sp_plus_signed_n(gb, a1),
            Operation::StoreAHighImmediate => load_ff00_plus_n_with_a(gb, a1),
            Operation::LoadAHighImmediate => load_a_with_ff00_plus_n(gb, a1),
            Operation::StoreAHighC => load_ff00_plus_c_with_a(gb),
            Operation::LoadAHighC => load_a_with_ff00_plus_c(gb),
            Operation::StoreSpAtAddress => load_mem_nn_sp(gb, a1, a2),
            Operation::Push(pair) => push_pair(gb, pair),
            Operation::Pop(pair) => pop_pair(gb, pair),
            _ => {},
        }
    }

    /// Runs an operation of the family of logic, comparison, increment and decrement.
    pub fn run_logic(&self, gb: &mut GameBoy, a1: u8, a2: u8)
        requires
            old(gb).wf(),
            self.wf(),
            self.spec_kind() == OperationKind::Logic,
        ensures
            final(gb).wf(),
            final(gb)@ == self.apply(old(gb)@, a1, a2),
    {
        match *self {
            Operation::And(operand) => {
                let val = get_operand(gb, operand, a1);
                and_a_with(gb, val)
            },
            Operation::Or(operand) => {
                let val = get_operand(gb, operand, a1);
                or_a_with(gb, val)
            },
            Operation::Xor(operand) => {
                let val = get_operand(gb, operand, a1);
                xor_a_with(gb, val)
            },
            Operation::Increment(reg) => increment_reg(gb, reg),
            Operation::Decrement(reg) => decrement_reg(gb, reg),
            Operation::IncrementWord(reg) => increment_word(gb, reg),
            Operation::DecrementWord(reg) => decrement_word(gb, reg),
            Operation::Compare(operand) => {
                let val = get_operand(gb, operand, a1);
                compare_with_a(gb, val)
            },
            _ => {},
        }
    }

    /// Runs an operation of the family of addition, subtraction, accumulator rotates and flag operations.
    pub fn run_arithmetic(&self, gb: &mut GameBoy, a1: u8, a2: u8)
        requires
            old(gb).wf(),
            self.wf(),
            self.spec_kind() == OperationKind::Arithmetic,
        ensures
            final(gb).wf(),
            final(gb)@ == self.apply(old(gb)@, a1, a2),
    {
        match *self {
            Operation::Add(operand) => {
                let val = get_operand(gb, operand, a1);
                add_to_a(gb, val, false)
            },
            Operation::AddCarry(operand) => {
                let val = get_operand(gb, operand, a1);
                add_to_a(gb, val, true)
            },
            Operation::Subtract(operand) => {
                let val = get_operand(gb, operand, a1);
                subtract_from_a(gb, val, false)
            },
            Operation::SubtractCarry(operand) => {
                let val = get_operand(gb, operand, a1);
                subtract_from_a(gb, val, true)
            },
            Operation::AddHl(reg) => add_hl(gb, reg),
            Operation::AddSpOffset => add_sp_signed_n(gb, a1),
            Operation::RotateLeftA(through) => rotate_left_a(gb, through),
            Operation::RotateRightA(through) => rotate_right_a(gb, through),
            Operation::DecimalAdjust => decimal_adjust_a(gb),
            Operation::Complement => complement_a(gb),
            Operation::ComplementCarry => complement_carry(gb),
            Operation::SetCarry => set_carry(gb),
            _ => {},
        }
    }

    /// Runs an operation of the family of jumps, calls, returns and processor control.
    pub fn run_control(&self, gb: &mut GameBoy, a1: u8, a2: u8)
        requires
            old(gb).wf(),
            self.wf(),
            self.spec_kind() == OperationKind::Control,
        ensures
            final(gb).wf(),
            final(gb)@ == self.apply(old(gb)@, a1, a2),
    {
        match *self {
            Operation::Nop => nop(gb),
            Operation::Halt => halt(gb),
            Operation::Stop => stop(gb, a1),
            Operation::Jump(condition) => jump_conditional(gb, condition, a1, a2),
            Operation::JumpRelative(condition) => jump_relative_conditional(gb, condition, a1),
            Operation::JumpHl => jump_hl(gb),
            Operation::Call(condition) => call_conditional(gb, condition, a1, a2),
            Operation::Return(condition) => sub_return_conditional(gb, condition),
            Operation::ReturnInterrupt => sub_return_enable_interrupts(gb),
            Operation::DisableInterrupts => disable_interrupts(gb),
            Operation::EnableInterrupts => enable_interrupts(gb),
            Operation::Restart(vector) => restart(gb, vector),
            _ => {},
        }
    }

    /// Runs an operation of the family of rotates, shifts and single-bit operations of the extended table.
    pub fn run_bits(&self, gb: &mut GameBoy, a1: u8, a2: u8)
        requires
            old(gb).wf(),
            self.wf(),
            self.spec_kind() == OperationKind::Bits,
        ensures
            final(gb).wf(),
            final(gb)@ == self.apply(old(gb)@, a1, a2),
    {
        match *self {
            Operation::RotateLeft(reg, through) => rotate_reg_left(gb, reg, through),
            Operation::RotateRight(reg, through) => rotate_reg_right(gb, reg, through),
            Operation::Swap(reg) => swap_reg(gb, reg),
            Operation::ShiftLeft(reg) => shift_left_lsb_0(gb, reg),
            Operation::ShiftRightKeepSign(reg) => shift_right_msb_same(gb, reg),
            Operation::ShiftRight(reg) => shift_right_msb_0(gb, reg),
            Operation::TestBit(bit, reg) => test_bit_n(gb, bit, reg),
            Operation::ResetBit(bit, reg) => reset_bit_n(gb, bit, reg),
            Operation::SetBit(bit, reg) => set_bit_n(gb, bit, reg),
            _ => {},
        }
    }

    /// Runs the operation on the machine with the immediate bytes `a1` and
    /// `a2`.
    pub fn run(&self, gb: &mut GameBoy, a1: u8, a2: u8)
        requires
            old(gb).wf(),
            self.wf(),
        ensures
            final(gb).wf(),
            final(gb)@ == self.apply(old(gb)@, a1, a2),
    {
        match self.kind() {
            OperationKind::Transfer => self.run_transfer(gb, a1, a2),
            OperationKind::Logic => self.run_logic(gb, a1, a2),
            OperationKind::Arithmetic => self.run_arithmetic(gb, a1, a2),
            OperationKind::Control => self.run_control(gb, a1, a2),
            OperationKind::Bits => self.run_bits(gb, a1, a2),
        }
    }
}

/// The primary instruction table: the entry for an opcode byte, or `None` for
/// a byte that no instruction has.
pub open spec fn spec_instruction(opcode: u8) -> Option<Instruction> {
    match opcode {
        0x00 => Some(Instruction::spec_new("NOP", 0x00, 0, 4, Operation::Nop)),
        0x01 => Some(Instruction::spec_new("LD BC,nn", 0x01, 2, 12, Operation::LoadWord(Reg16::BC))),
        0x02 => Some(Instruction::spec_new("LD (BC),A", 0x02, 0, 8, Operation::StoreAAtBc)),
        0x03 => Some(Instruction::spec_new("INC BC", 0x03, 0, 8, Operation::IncrementWord(Reg16::BC))),
        0x04 => Some(Instruction::spec_new("INC B", 0x04, 0, 4, Operation::Increment(Reg8::B))),
        0x05 => Some(Instruction::spec_new("DEC B", 0x05, 0, 4, Operation::Decrement(Reg8::B))),
        0x06 => Some(Instruction::spec_new("LD B,n", 0x06, 1, 8, Operation::LoadImmediate(Reg8::B))),
        0x07 => Some(Instruction::spec_new("RLCA", 0x07, 0, 4, Operation::RotateLeftA(false))),
        0x08 => Some(Instruction::spec_new("LD (nn),SP", 0x08, 2, 20, Operation::StoreSpAtAddress)),
        0x09 => Some(Instruction::spec_new("ADD HL,BC", 0x09, 0, 8, Operation::AddHl(Reg16::BC))),
        0x0A => Some(Instruction::spec_new("LD A,(BC)", 0x0A, 0, 8, Operation::LoadAFromBc)),
        0x0B => Some(Instruction::spec_new("DEC BC", 0x0B, 0, 8, Operation::DecrementWord(Reg16::BC))),
        0x0C => Some(Instruction::spec_new("INC C", 0x0C, 0, 4, Operation::Increment(Reg8::C))),
        0x0D => Some(Instruction::spec_new("DEC C", 0x0D, 0, 4, Operation::Decrement(Reg8::C))),
        0x0E => Some(Instruction::spec_new("LD C,n", 0x0E, 1, 8, Operation::LoadImmediate(Reg8::C))),
        0x0F => Some(Instruction::spec_new("RRCA", 0x0F, 0, 4, Operation::RotateRightA(false))),
        0x10 => Some(Instruction::spec_new("STOP", 0x10, 1, 4, Operation::Stop)),
        0x11 => Some(Instruction::spec_new("LD DE,nn", 0x11, 2, 12, Operation::LoadWord(Reg16::DE))),
        0x12 => Some(Instruction::spec_new("LD (DE),A", 0x12, 0, 8, Operation::StoreAAtDe)),
        0x13 => Some(Instruction::spec_new("INC DE", 0x13, 0, 8, Operation::IncrementWord(Reg16::DE))),
        0x14 => Some(Instruction::spec_new("INC D", 0x14, 0, 4, Operation::Increment(Reg8::D))),
        0x15 => Some(Instruction::spec_new("DEC D", 0x15, 0, 4, Operation::Decrement(Reg8::D))),
        0x16 => Some(Instruction::spec_new("LD D,n", 0x16, 1, 8, Operation::LoadImmediate(Reg8::D))),
        0x17 => Some(Instruction::spec_new("RLA", 0x17, 0, 4, Operation::RotateLeftA(true))),
        0x18 => Some(Instruction::spec_new("JR n", 0x18, 1, 8, Operation::JumpRelative(Condition::Always))),
        0x19 => Some(Instruction::spec_new("ADD HL,DE", 0x19, 0, 8, Operation::AddHl(Reg16::DE))),
        0x1A => Some(Instruction::spec_new("LD A,(DE)", 0x1A, 0, 8, Operation::LoadAFromDe)),
        0x1B => Some(Instruction::spec_new("DEC DE", 0x1B, 0, 8, Operation::DecrementWord(Reg16::DE))),
        0x1C => Some(Instruction::spec_new("INC E", 0x1C, 0, 4, Operation::Increment(Reg8::E))),
        0x1D => Some(Instruction::spec_new("DEC E", 0x1D, 0, 4, Operation::Decrement(Reg8::E))),
        0x1E => Some(Instruction::spec_new("LD E,n", 0x1E, 1, 8, Operation::LoadImmediate(Reg8::E))),
        0x1F => Some(Instruction::spec_new("RRA", 0x1F, 0, 4, Operation::RotateRightA(true))),
        0x20 => Some(Instruction::spec_new("JR NZ,n", 0x20, 1, 8, Operation::JumpRelative(Condition::NotZero))),
        0x21 => Some(Instruction::spec_new("LD HL,nn", 0x21, 2, 12, Operation::LoadWord(Reg16::HL))),
        0x22 => Some(Instruction::spec_new("LD (HL),A; INC HL", 0x22, 0, 8, Operation::StoreAAtHlIncrement)),
        0x23 => Some(Instruction::spec_new("INC HL", 0x23, 0, 8, Operation::IncrementWord(Reg16::HL))),
        0x24 => Some(Instruction::spec_new("INC H", 0x24, 0, 4, Operation::Increment(Reg8::H))),
        0x25 => Some(Instruction::spec_new("DEC H", 0x25, 0, 4, Operation::Decrement(Reg8::H))),
        0x26 => Some(Instruction::spec_new("LD H,n", 0x26, 1, 8, Operation::LoadImmediate(Reg8::H))),
        0x27 => Some(Instruction::spec_new("DAA", 0x27, 0, 4, Operation::DecimalAdjust)),
        0x28 => Some(Instruction::spec_new("JR Z,n", 0x28, 1, 8, Operation::JumpRelative(Condition::Zero))),
        0x29 => Some(Instruction::spec_new("ADD HL,HL", 0x29, 0, 8, Operation::AddHl(Reg16::HL))),
        0x2A => Some(Instruction::spec_new("LD A,(HL); INC HL", 0x2A, 0, 8, Operation::LoadAFromHlIncrement)),
        0x2B => Some(Instruction::spec_new("DEC HL", 0x2B, 0, 8, Operation::DecrementWord(Reg16::HL))),
        0x2C => Some(Instruction::spec_new("INC L", 0x2C, 0, 4, Operation::Increment(Reg8::L))),
        0x2D => Some(Instruction::spec_new("DEC L", 0x2D, 0, 4, Operation::Decrement(Reg8::L))),
        0x2E => Some(Instruction::spec_new("LD L,n", 0x2E, 1, 8, Operation::LoadImmediate(Reg8::L))),
        0x2F => Some(Instruction::spec_new("CPL", 0x2F, 0, 4, Operation::Complement)),
        0x30 => Some(Instruction::spec_new("JR NC,n", 0x30, 1, 8, Operation::JumpRelative(Condition::NotCarry))),
        0x31 => Some(Instruction::spec_new("LD SP,nn", 0x31, 2, 12, Operation::LoadWord(Reg16::SP))),
        0x32 => Some(Instruction::spec_new("LD (HL),A; DEC HL", 0x32, 0, 8, Operation::StoreAAtHlDecrement)),
        0x33 => Some(Instruction::spec_new("INC SP", 0x33, 0, 8, Operation::IncrementWord(Reg16::SP))),
        0x34 => Some(Instruction::spec_new("INC (HL)", 0x34, 0, 12, Operation::Increment(Reg8::MemHl))),
        0x35 => Some(Instruction::spec_new("DEC (HL)", 0x35, 0, 12, Operation::Decrement(Reg8::MemHl))),
        0x36 => Some(Instruction::spec_new("LD (HL),n", 0x36, 1, 12, Operation::LoadImmediate(Reg8::MemHl))),
        0x37 => Some(Instruction::spec_new("SCF", 0x37, 0, 4, Operation::SetCarry)),
        0x38 => Some(Instruction::spec_new("JR C,n", 0x38, 1, 8, Operation::JumpRelative(Condition::Carry))),
        0x39 => Some(Instruction::spec_new("ADD HL,SP", 0x39, 0, 8, Operation::AddHl(Reg16::SP))),
        0x3A => Some(Instruction::spec_new("LD A,(HL); DEC HL", 0x3A, 0, 8, Operation::LoadAFromHlDecrement)),
        0x3B => Some(Instruction::spec_new("DEC SP", 0x3B, 0, 8, Operation::DecrementWord(Reg16::SP))),
        0x3C => Some(Instruction::spec_new("INC A", 0x3C, 0, 4, Operation::Increment(Reg8::A))),
        0x3D => Some(Instruction::spec_new("DEC A", 0x3D, 0, 4, Operation::Decrement(Reg8::A))),
        0x3E => Some(Instruction::spec_new("LD A,n", 0x3E, 1, 8, Operation::LoadImmediate(Reg8::A))),
        0x3F => Some(Instruction::spec_new("CCF", 0x3F, 0, 4, Operation::ComplementCarry)),
        0x40 => Some(Instruction::spec_new("LD B,B", 0x40, 0, 4, Operation::Load(Reg8::B, Reg8::B))),
        0x41 => Some(Instruction::spec_new("LD B,C", 0x41, 0, 4, Operation::Load(Reg8::B, Reg8::C))),
        0x42 => Some(Instruction::spec_new("LD B,D", 0x42, 0, 4, Operation::Load(Reg8::B, Reg8::D))),
        0x43 => Some(Instruction::spec_new("LD B,E", 0x43, 0, 4, Operation::Load(Reg8::B, Reg8::E))),
        0x44 => Some(Instruction::spec_new("LD B,H", 0x44, 0, 4, Operation::Load(Reg8::B, Reg8::H))),
        0x45 => Some(Instruction::spec_new("LD B,L", 0x45, 0, 4, Operation::Load(Reg8::B, Reg8::L))),
        0x46 => Some(Instruction::spec_new("LD B,(HL)", 0x46, 0, 8, Operation::Load(Reg8::B, Reg8::MemHl))),
        0x47 => Some(Instruction::spec_new("LD B,A", 0x47, 0, 4, Operation::Load(Reg8::B, Reg8::A))),
        0x48 => Some(Instruction::spec_new("LD C,B", 0x48, 0, 4, Operation::Load(Reg8::C, Reg8::B))),
        0x49 => Some(Instruction::spec_new("LD C,C", 0x49, 0, 4, Operation::Load(Reg8::C, Reg8::C))),
        0x4A => Some(Instruction::spec_new("LD C,D", 0x4A, 0, 4, Operation::Load(Reg8::C, Reg8::D))),
        0x4B => Some(Instruction::spec_new("LD C,E", 0x4B, 0, 4, Operation::Load(Reg8::C, Reg8::E))),
        0x4C => Some(Instruction::spec_new("LD C,H", 0x4C, 0, 4, Operation::Load(Reg8::C, Reg8::H))),
        0x4D => Some(Instruction::spec_new("LD C,L", 0x4D, 0, 4, Operation::Load(Reg8::C, Reg8::L))),
        0x4E => Some(Instruction::spec_new("LD C,(HL)", 0x4E, 0, 8, Operation::Load(Reg8::C, Reg8::MemHl))),
        0x4F => Some(Instruction::spec_new("LD C,A", 0x4F, 0, 4, Operation::Load(Reg8::C, Reg8::A))),
        0x50 => Some(Instruction::spec_new("LD D,B", 0x50, 0, 4, Operation::Load(Reg8::D, Reg8::B))),
        0x51 => Some(Instruction::spec_new("LD D,C", 0x51, 0, 4, Operation::Load(Reg8::D, Reg8::C))),
        0x52 => Some(Instruction::spec_new("LD D,D", 0x52, 0, 4, Operation::Load(Reg8::D, Reg8::D))),
        0x53 => Some(Instruction::spec_new("LD D,E", 0x53, 0, 4, Operation::Load(Reg8::D, Reg8::E))),
        0x54 => Some(Instruction::spec_new("LD D,H", 0x54, 0, 4, Operation::Load(Reg8::D, Reg8::H))),
        0x55 => Some(Instruction::spec_new("LD D,L", 0x55, 0, 4, Operation::Load(Reg8::D, Reg8::L))),
        0x56 => Some(Instruction::spec_new("LD D,(HL)", 0x56, 0, 8, Operation::Load(Reg8::D, Reg8::MemHl))),
        0x57 => Some(Instruction::spec_new("LD D,A", 0x57, 0, 4, Operation::Load(Reg8::D, Reg8::A))),
        0x58 => Some(Instruction::spec_new("LD E,B", 0x58, 0, 4, Operation::Load(Reg8::E, Reg8::B))),
        0x59 => Some(Instruction::spec_new("LD E,C", 0x59, 0, 4, Operation::Load(Reg8::E, Reg8::C))),
        0x5A => Some(Instruction::spec_new("LD E,D", 0x5A, 0, 4, Operation::Load(Reg8::E, Reg8::D))),
        0x5B => Some(Instruction::spec_new("LD E,E", 0x5B, 0, 4, Operation::Load(Reg8::E, Reg8::E))),
        0x5C => Some(Instruction::spec_new("LD E,H", 0x5C, 0, 4, Operation::Load(Reg8::E, Reg8::H))),
        0x5D => Some(Instruction::spec_new("LD E,L", 0x5D, 0, 4, Operation::Load(Reg8::E, Reg8::L))),
        0x5E => Some(Instruction::spec_new("LD E,(HL)", 0x5E, 0, 8, Operation::Load(Reg8::E, Reg8::MemHl))),
        0x5F => Some(Instruction::spec_new("LD E,A", 0x5F, 0, 4, Operation::Load(Reg8::E, Reg8::A))),
        0x60 => Some(Instruction::spec_new("LD H,B", 0x60, 0, 4, Operation::Load(Reg8::H, Reg8::B))),
        0x61 => Some(Instruction::spec_new("LD H,C", 0x61, 0, 4, Operation::Load(Reg8::H, Reg8::C))),
        0x62 => Some(Instruction::spec_new("LD H,D", 0x62, 0, 4, Operation::Load(Reg8::H, Reg8::D))),
        0x63 => Some(Instruction::spec_new("LD H,E", 0x63, 0, 4, Operation::Load(Reg8::H, Reg8::E))),
        0x64 => Some(Instruction::spec_new("LD H,H", 0x64, 0, 4, Operation::Load(Reg8::H, Reg8::H))),
        0x65 => Some(Instruction::spec_new("LD H,L", 0x65, 0, 4, Operation::Load(Reg8::H, Reg8::L))),
        0x66 => Some(Instruction::spec_new("LD H,(HL)", 0x66, 0, 8, Operation::Load(Reg8::H, Reg8::MemHl))),
        0x67 => Some(Instruction::spec_new("LD H,A", 0x67, 0, 4, Operation::Load(Reg8::H, Reg8::A))),
        0x68 => Some(Instruction::spec_new("LD L,B", 0x68, 0, 4, Operation::Load(Reg8::L, Reg8::B))),
        0x69 => Some(Instruction::spec_new("LD L,C", 0x69, 0, 4, Operation::Load(Reg8::L, Reg8::C))),
        0x6A => Some(Instruction::spec_new("LD L,D", 0x6A, 0, 4, Operation::Load(Reg8::L, Reg8::D))),
        0x6B => Some(Instruction::spec_new("LD L,E", 0x6B, 0, 4, Operation::Load(Reg8::L, Reg8::E))),
        0x6C => Some(Instruction::spec_new("LD L,H", 0x6C, 0, 4, Operation::Load(Reg8::L, Reg8::H))),
        0x6D => Some(Instruction::spec_new("LD L,L", 0x6D, 0, 4, Operation::Load(Reg8::L, Reg8::L))),
        0x6E => Some(Instruction::spec_new("LD L,(HL)", 0x6E, 0, 8, Operation::Load(Reg8::L, Reg8::MemHl))),
        0x6F => Some(Instruction::spec_new("LD L,A", 0x6F, 0, 4, Operation::Load(Reg8::L, Reg8::A))),
        0x70 => Some(Instruction::spec_new("LD (HL),B", 0x70, 0, 8, Operation::Load(Reg8::MemHl, Reg8::B))),
        0x71 => Some(Instruction::spec_new("LD (HL),C", 0x71, 0, 8, Operation::Load(Reg8::MemHl, Reg8::C))),
        0x72 => Some(Instruction::spec_new("LD (HL),D", 0x72, 0, 8, Operation::Load(Reg8::MemHl, Reg8::D))),
        0x73 => Some(Instruction::spec_new("LD (HL),E", 0x73, 0, 8, Operation::Load(Reg8::MemHl, Reg8::E))),
        0x74 => Some(Instruction::spec_new("LD (HL),H", 0x74, 0, 8, Operation::Load(Reg8::MemHl, Reg8::H))),
        0x75 => Some(Instruction::spec_new("LD (HL),L", 0x75, 0, 8, Operation::Load(Reg8::MemHl, Reg8::L))),
        0x76 => Some(Instruction::spec_new("HALT", 0x76, 0, 4, Operation::Halt)),
        0x77 => Some(Instruction::spec_new("LD (HL),A", 0x77, 0, 8, Operation::Load(Reg8::MemHl, Reg8::A))),
        0x78 => Some(Instruction::spec_new("LD A,B", 0x78, 0, 4, Operation::Load(Reg8::A, Reg8::B))),
        0x79 => Some(Instruction::spec_new("LD A,C", 0x79, 0, 4, Operation::Load(Reg8::A, Reg8::C))),
        0x7A => Some(Instruction::spec_new("LD A,D", 0x7A, 0, 4, Operation::Load(Reg8::A, Reg8::D))),
        0x7B => Some(Instruction::spec_new("LD A,E", 0x7B, 0, 4, Operation::Load(Reg8::A, Reg8::E))),
        0x7C => Some(Instruction::spec_new("LD A,H", 0x7C, 0, 4, Operation::Load(Reg8::A, Reg8::H))),
        0x7D => Some(Instruction::spec_new("LD A,L", 0x7D, 0, 4, Operation::Load(Reg8::A, Reg8::L))),
        0x7E => Some(Instruction::spec_new("LD A,(HL)", 0x7E, 0, 8, Operation::Load(Reg8::A, Reg8::MemHl))),
        0x7F => Some(Instruction::spec_new("LD A,A", 0x7F, 0, 4, Operation::Load(Reg8::A, Reg8::A))),
        0x80 => Some(Instruction::spec_new("ADD B", 0x80, 0, 4, Operation::Add(Operand::Register(Reg8::B)))),
        0x81 => Some(Instruction::spec_new("ADD C", 0x81, 0, 4, Operation::Add(Operand::Register(Reg8::C)))),
        0x82 => Some(Instruction::spec_new("ADD D", 0x82, 0, 4, Operation::Add(Operand::Register(Reg8::D)))),
        0x83 => Some(Instruction::spec_new("ADD E", 0x83, 0, 4, Operation::Add(Operand::Register(Reg8::E)))),
        0x84 => Some(Instruction::spec_new("ADD H", 0x84, 0, 4, Operation::Add(Operand::Register(Reg8::H)))),
        0x85 => Some(Instruction::spec_new("ADD L", 0x85, 0, 4, Operation::Add(Operand::Register(Reg8::L)))),
        0x86 => Some(Instruction::spec_new("ADD (HL)", 0x86, 0, 8, Operation::Add(Operand::Register(Reg8::MemHl)))),
        0x87 => Some(Instruction::spec_new("ADD A", 0x87, 0, 4, Operation::Add(Operand::Register(Reg8::A)))),
        0x88 => Some(Instruction::spec_new("ADC A,B", 0x88, 0, 4, Operation::AddCarry(Operand::Register(Reg8::B)))),
        0x89 => Some(Instruction::spec_new("ADC A,C", 0x89, 0, 4, Operation::AddCarry(Operand::Register(Reg8::C)))),
        0x8A => Some(Instruction::spec_new("ADC A,D", 0x8A, 0, 4, Operation::AddCarry(Operand::Register(Reg8::D)))),
        0x8B => Some(Instruction::spec_new("ADC A,E", 0x8B, 0, 4, Operation::AddCarry(Operand::Register(Reg8::E)))),
        0x8C => Some(Instruction::spec_new("ADC A,H", 0x8C, 0, 4, Operation::AddCarry(Operand::Register(Reg8::H)))),
        0x8D => Some(Instruction::spec_new("ADC A,L", 0x8D, 0, 4, Operation::AddCarry(Operand::Register(Reg8::L)))),
        0x8E => Some(Instruction::spec_new("ADC A,(HL)", 0x8E, 0, 8, Operation::AddCarry(Operand::Register(Reg8::MemHl)))),
        0x8F => Some(Instruction::spec_new("ADC A,A", 0x8F, 0, 4, Operation::AddCarry(Operand::Register(Reg8::A)))),
        0x90 => Some(Instruction::spec_new("SUB B", 0x90, 0, 4, Operation::Subtract(Operand::Register(Reg8::B)))),
        0x91 => Some(Instruction::spec_new("SUB C", 0x91, 0, 4, Operation::Subtract(Operand::Register(Reg8::C)))),
        0x92 => Some(Instruction::spec_new("SUB D", 0x92, 0, 4, Operation::Subtract(Operand::Register(Reg8::D)))),
        0x93 => Some(Instruction::spec_new("SUB E", 0x93, 0, 4, Operation::Subtract(Operand::Register(Reg8::E)))),
        0x94 => Some(Instruction::spec_new("SUB H", 0x94, 0, 4, Operation::Subtract(Operand::Register(Reg8::H)))),
        0x95 => Some(Instruction::spec_new("SUB L", 0x95, 0, 4, Operation::Subtract(Operand::Register(Reg8::L)))),
        0x96 => Some(Instruction::spec_new("SUB (HL)", 0x96, 0, 8, Operation::Subtract(Operand::Register(Reg8::MemHl)))),
        0x97 => Some(Instruction::spec_new("SUB A", 0x97, 0, 4, Operation::Subtract(Operand::Register(Reg8::A)))),
        0x98 => Some(Instruction::spec_new("SBC B", 0x98, 0, 4, Operation::SubtractCarry(Operand::Register(Reg8::B)))),
        0x99 => Some(Instruction::spec_new("SBC C", 0x99, 0, 4, Operation::SubtractCarry(Operand::Register(Reg8::C)))),
        0x9A => Some(Instruction::spec_new("SBC D", 0x9A, 0, 4, Operation::SubtractCarry(Operand::Register(Reg8::D)))),
        0x9B => Some(Instruction::spec_new("SBC E", 0x9B, 0, 4, Operation::SubtractCarry(Operand::Register(Reg8::E)))),
        0x9C => Some(Instruction::spec_new("SBC H", 0x9C, 0, 4, Operation::SubtractCarry(Operand::Register(Reg8::H)))),
        0x9D => Some(Instruction::spec_new("SBC L", 0x9D, 0, 4, Operation::SubtractCarry(Operand::Register(Reg8::L)))),
        0x9E => Some(Instruction::spec_new("SBC (HL)", 0x9E, 0, 8, Operation::SubtractCarry(Operand::Register(Reg8::MemHl)))),
        0x9F => Some(Instruction::spec_new("SBC A", 0x9F, 0, 4, Operation::SubtractCarry(Operand::Register(Reg8::A)))),
        0xA0 => Some(Instruction::spec_new("AND B", 0xA0, 0, 4, Operation::And(Operand::Register(Reg8::B)))),
        0xA1 => Some(Instruction::spec_new("AND C", 0xA1, 0, 4, Operation::And(Operand::Register(Reg8::C)))),
        0xA2 => Some(Instruction::spec_new("AND D", 0xA2, 0, 4, Operation::And(Operand::Register(Reg8::D)))),
        0xA3 => Some(Instruction::spec_new("AND E", 0xA3, 0, 4, Operation::And(Operand::Register(Reg8::E)))),
        0xA4 => Some(Instruction::spec_new("AND H", 0xA4, 0, 4, Operation::And(Operand::Register(Reg8::H)))),
        0xA5 => Some(Instruction::spec_new("AND L", 0xA5, 0, 4, Operation::And(Operand::Register(Reg8::L)))),
        0xA6 => Some(Instruction::spec_new("AND (HL)", 0xA6, 0, 8, Operation::And(Operand::Register(Reg8::MemHl)))),
        0xA7 => Some(Instruction::spec_new("AND A", 0xA7, 0, 4, Operation::And(Operand::Register(Reg8::A)))),
        0xA8 => Some(Instruction::spec_new("XOR B", 0xA8, 0, 4, Operation::Xor(Operand::Register(Reg8::B)))),
        0xA9 => Some(Instruction::spec_new("XOR C", 0xA9, 0, 4, Operation::Xor(Operand::Register(Reg8::C)))),
        0xAA => Some(Instruction::spec_new("XOR D", 0xAA, 0, 4, Operation::Xor(Operand::Register(Reg8::D)))),
        0xAB => Some(Instruction::spec_new("XOR E", 0xAB, 0, 4, Operation::Xor(Operand::Register(Reg8::E)))),
        0xAC => Some(Instruction::spec_new("XOR H", 0xAC, 0, 4, Operation::Xor(Operand::Register(Reg8::H)))),
        0xAD => Some(Instruction::spec_new("XOR L", 0xAD, 0, 4, Operation::Xor(Operand::Register(Reg8::L)))),
        0xAE => Some(Instruction::spec_new("XOR (HL)", 0xAE, 0, 8, Operation::Xor(Operand::Register(Reg8::MemHl)))),
        0xAF => Some(Instruction::spec_new("XOR A", 0xAF, 0, 4, Operation::Xor(Operand::Register(Reg8::A)))),
        0xB0 => Some(Instruction::spec_new("OR B", 0xB0, 0, 4, Operation::Or(Operand::Register(Reg8::B)))),
        0xB1 => Some(Instruction::spec_new("OR C", 0xB1, 0, 4, Operation::Or(Operand::Register(Reg8::C)))),
        0xB2 => Some(Instruction::spec_new("OR D", 0xB2, 0, 4, Operation::Or(Operand::Register(Reg8::D)))),
        0xB3 => Some(Instruction::spec_new("OR E", 0xB3, 0, 4, Operation::Or(Operand::Register(Reg8::E)))),
        0xB4 => Some(Instruction::spec_new("OR H", 0xB4, 0, 4, Operation::Or(Operand::Register(Reg8::H)))),
        0xB5 => Some(Instruction::spec_new("OR L", 0xB5, 0, 4, Operation::Or(Operand::Register(Reg8::L)))),
        0xB6 => Some(Instruction::spec_new("OR (HL)", 0xB6, 0, 8, Operation::Or(Operand::Register(Reg8::MemHl)))),
        0xB7 => Some(Instruction::spec_new("OR A", 0xB7, 0, 4, Operation::Or(Operand::Register(Reg8::A)))),
        0xB8 => Some(Instruction::spec_new("CP B", 0xB8, 0, 4, Operation::Compare(Operand::Register(Reg8::B)))),
        0xB9 => Some(Instruction::spec_new("CP C", 0xB9, 0, 4, Operation::Compare(Operand::Register(Reg8::C)))),
        0xBA => Some(Instruction::spec_new("CP D", 0xBA, 0, 4, Operation::Compare(Operand::Register(Reg8::D)))),
        0xBB => Some(Instruction::spec_new("CP E", 0xBB, 0, 4, Operation::Compare(Operand::Register(Reg8::E)))),
        0xBC => Some(Instruction::spec_new("CP H", 0xBC, 0, 4, Operation::Compare(Operand::Register(Reg8::H)))),
        0xBD => Some(Instruction::spec_new("CP L", 0xBD, 0, 4, Operation::Compare(Operand::Register(Reg8::L)))),
        0xBE => Some(Instruction::spec_new("CP (HL)", 0xBE, 0, 8, Operation::Compare(Operand::Register(Reg8::MemHl)))),
        0xBF => Some(Instruction::spec_new("CP A", 0xBF, 0, 4, Operation::Compare(Operand::Register(Reg8::A)))),
        0xC0 => Some(Instruction::spec_new("RET NZ", 0xC0, 0, 8, Operation::Return(Condition::NotZero))),
        0xC1 => Some(Instruction::spec_new("POP BC", 0xC1, 0, 12, Operation::Pop(StackPair::BC))),
        0xC2 => Some(Instruction::spec_new("JP NZ,nn", 0xC2, 2, 12, Operation::Jump(Condition::NotZero))),
        0xC3 => Some(Instruction::spec_new("JP nn", 0xC3, 2, 12, Operation::Jump(Condition::Always))),
        0xC4 => Some(Instruction::spec_new("CALL NZ,nn", 0xC4, 2, 12, Operation::Call(Condition::NotZero))),
        0xC5 => Some(Instruction::spec_new("PUSH BC", 0xC5, 0, 16, Operation::Push(StackPair::BC))),
        0xC6 => Some(Instruction::spec_new("ADD n", 0xC6, 1, 8, Operation::Add(Operand::Immediate))),
        0xC7 => Some(Instruction::spec_new("RST 0x00", 0xC7, 0, 32, Operation::Restart(0x00))),
        0xC8 => Some(Instruction::spec_new("RET Z", 0xC8, 0, 8, Operation::Return(Condition::Zero))),
        0xC9 => Some(Instruction::spec_new("RET", 0xC9, 0, 8, Operation::Return(Condition::Always))),
        0xCA => Some(Instruction::spec_new("JP Z,nn", 0xCA, 2, 12, Operation::Jump(Condition::Zero))),
        0xCC => Some(Instruction::spec_new("CALL Z,nn", 0xCC, 2, 12, Operation::Call(Condition::Zero))),
        0xCD => Some(Instruction::spec_new("CALL nn", 0xCD, 2, 12, Operation::Call(Condition::Always))),
        0xCE => Some(Instruction::spec_new("ADC A,n", 0xCE, 1, 8, Operation::AddCarry(Operand::Immediate))),
        0xCF => Some(Instruction::spec_new("RST 0x08", 0xCF, 0, 32, Operation::Restart(0x08))),
        0xD0 => Some(Instruction::spec_new("RET NC", 0xD0, 0, 8, Operation::Return(Condition::NotCarry))),
        0xD1 => Some(Instruction::spec_new("POP DE", 0xD1, 0, 12, Operation::Pop(StackPair::DE))),
        0xD2 => Some(Instruction::spec_new("JP NC,nn", 0xD2, 2, 12, Operation::Jump(Condition::NotCarry))),
        0xD4 => Some(Instruction::spec_new("CALL NC,nn", 0xD4, 2, 12, Operation::Call(Condition::NotCarry))),
        0xD5 => Some(Instruction::spec_new("PUSH DE", 0xD5, 0, 16, Operation::Push(StackPair::DE))),
        0xD6 => Some(Instruction::spec_new("SUB n", 0xD6, 1, 8, Operation::Subtract(Operand::Immediate))),
        0xD7 => Some(Instruction::spec_new("RST 0x10", 0xD7, 0, 32, Operation::Restart(0x10))),
        0xD8 => Some(Instruction::spec_new("RET C", 0xD8, 0, 8, Operation::Return(Condition::Carry))),
        0xD9 => Some(Instruction::spec_new("RETI", 0xD9, 0, 8, Operation::ReturnInterrupt)),
        0xDA => Some(Instruction::spec_new("JP C,nn", 0xDA, 2, 12, Operation::Jump(Condition::Carry))),
        0xDC => Some(Instruction::spec_new("CALL C,nn", 0xDC, 2, 12, Operation::Call(Condition::Carry))),
        0xDE => Some(Instruction::spec_new("SBC n", 0xDE, 1, 8, Operation::SubtractCarry(Operand::Immediate))),
        0xDF => Some(Instruction::spec_new("RST 0x18", 0xDF, 0, 32, Operation::Restart(0x18))),
        0xE0 => Some(Instruction::spec_new("LD (0xFF00 + n),A", 0xE0, 1, 12, Operation::StoreAHighImmediate)),
        0xE1 => Some(Instruction::spec_new("POP HL", 0xE1, 0, 12, Operation::Pop(StackPair::HL))),
        0xE2 => Some(Instruction::spec_new("LD (0xFF00 + C),A", 0xE2, 0, 8, Operation::StoreAHighC)),
        0xE5 => Some(Instruction::spec_new("PUSH HL", 0xE5, 0, 16, Operation::Push(StackPair::HL))),
        0xE6 => Some(Instruction::spec_new("AND n", 0xE6, 1, 8, Operation::And(Operand::Immediate))),
        0xE7 => Some(Instruction::spec_new("RST 0x20", 0xE7, 0, 32, Operation::Restart(0x20))),
        0xE8 => Some(Instruction::spec_new("ADD SP,n", 0xE8, 1, 16, Operation::AddSpOffset)),
        0xE9 => Some(Instruction::spec_new("JP (HL)", 0xE9, 0, 4, Operation::JumpHl)),
        0xEA => Some(Instruction::spec_new("LD (nn),A", 0xEA, 2, 16, Operation::StoreAAtAddress)),
        0xEE => Some(Instruction::spec_new("XOR n", 0xEE, 1, 8, Operation::Xor(Operand::Immediate))),
        0xEF => Some(Instruction::spec_new("RST 0x28", 0xEF, 0, 32, Operation::Restart(0x28))),
        0xF0 => Some(Instruction::spec_new("LD A,(0xFF00 + n)", 0xF0, 1, 12, Operation::LoadAHighImmediate)),
        0xF1 => Some(Instruction::spec_new("POP AF", 0xF1, 0, 12, Operation::Pop(StackPair::AF))),
        0xF2 => Some(Instruction::spec_new("LD A,(0xFF00 + C)", 0xF2, 0, 8, Operation::LoadAHighC)),
        0xF3 => Some(Instruction::spec_new("DI", 0xF3, 0, 4, Operation::DisableInterrupts)),
        0xF5 => Some(Instruction::spec_new("PUSH AF", 0xF5, 0, 16, Operation::Push(StackPair::AF))),
        0xF6 => Some(Instruction::spec_new("OR n", 0xF6, 1, 8, Operation::Or(Operand::Immediate))),
        0xF7 => Some(Instruction::spec_new("RST 0x30", 0xF7, 0, 32, Operation::Restart(0x30))),
        0xF8 => Some(Instruction::spec_new("LD HL,SP+n", 0xF8, 1, 12, Operation::LoadHlFromSpOffset)),
        0xF9 => Some(Instruction::spec_new("LD SP,HL", 0xF9, 0, 8, Operation::LoadSpFromHl)),
        0xFA => Some(Instruction::spec_new("LD A,(nn)", 0xFA, 2, 16, Operation::LoadAFromAddress)),
        0xFB => Some(Instruction::spec_new("EI", 0xFB, 0, 4, Operation::EnableInterrupts)),
        0xFE => Some(Instruction::spec_new("CP n", 0xFE, 1, 8, Operation::Compare(Operand::Immediate))),
        0xFF => Some(Instruction::spec_new("RST 0x38", 0xFF, 0, 32, Operation::Restart(0x38))),
        _ => None,
    }
}

/// Looks an opcode byte up in the primary instruction table.
pub fn lookup_instruction(opcode: u8) -> (r: Option<Instruction>)
    ensures
        r == spec_instruction(opcode),
        r is Some ==> r.unwrap().opcode == opcode && r.unwrap().operation.wf(),
{
    match opcode {
        0x00 => Some(Instruction::new("NOP", 0x00, 0, 4, Operation::Nop)),
        0x01 => Some(Instruction::new("LD BC,nn", 0x01, 2, 12, Operation::LoadWord(Reg16::BC))),
        0x02 => Some(Instruction::new("LD (BC),A", 0x02, 0, 8, Operation::StoreAAtBc)),
        0x03 => Some(Instruction::new("INC BC", 0x03, 0, 8, Operation::IncrementWord(Reg16::BC))),
        0x04 => Some(Instruction::new("INC B", 0x04, 0, 4, Operation::Increment(Reg8::B))),
        0x05 => Some(Instruction::new("DEC B", 0x05, 0, 4, Operation::Decrement(Reg8::B))),
        0x06 => Some(Instruction::new("LD B,n", 0x06, 1, 8, Operation::LoadImmediate(Reg8::B))),
        0x07 => Some(Instruction::new("RLCA", 0x07, 0, 4, Operation::RotateLeftA(false))),
        0x08 => Some(Instruction::new("LD (nn),SP", 0x08, 2, 20, Operation::StoreSpAtAddress)),
        0x09 => Some(Instruction::new("ADD HL,BC", 0x09, 0, 8, Operation::AddHl(Reg16::BC))),
        0x0A => Some(Instruction::new("LD A,(BC)", 0x0A, 0, 8, Operation::LoadAFromBc)),
        0x0B => Some(Instruction::new("DEC BC", 0x0B, 0, 8, Operation::DecrementWord(Reg16::BC))),
        0x0C => Some(Instruction::new("INC C", 0x0C, 0, 4, Operation::Increment(Reg8::C))),
        0x0D => Some(Instruction::new("DEC C", 0x0D, 0, 4, Operation::Decrement(Reg8::C))),
        0x0E => Some(Instruction::new("LD C,n", 0x0E, 1, 8, Operation::LoadImmediate(Reg8::C))),
        0x0F => Some(Instruction::new("RRCA", 0x0F, 0, 4, Operation::RotateRightA(false))),
        0x10 => Some(Instruction::new("STOP", 0x10, 1, 4, Operation::Stop)),
        0x11 => Some(Instruction::new("LD DE,nn", 0x11, 2, 12, Operation::LoadWord(Reg16::DE))),
        0x12 => Some(Instruction::new("LD (DE),A", 0x12, 0, 8, Operation::StoreAAtDe)),
        0x13 => Some(Instruction::new("INC DE", 0x13, 0, 8, Operation::IncrementWord(Reg16::DE))),
        0x14 => Some(Instruction::new("INC D", 0x14, 0, 4, Operation::Increment(Reg8::D))),
        0x15 => Some(Instruction::new("DEC D", 0x15, 0, 4, Operation::Decrement(Reg8::D))),
        0x16 => Some(Instruction::new("LD D,n", 0x16, 1, 8, Operation::LoadImmediate(Reg8::D))),
        0x17 => Some(Instruction::new("RLA", 0x17, 0, 4, Operation::RotateLeftA(true))),
        0x18 => Some(Instruction::new("JR n", 0x18, 1, 8, Operation::JumpRelative(Condition::Always))),
        0x19 => Some(Instruction::new("ADD HL,DE", 0x19, 0, 8, Operation::AddHl(Reg16::DE))),
        0x1A => Some(Instruction::new("LD A,(DE)", 0x1A, 0, 8, Operation::LoadAFromDe)),
        0x1B => Some(Instruction::new("DEC DE", 0x1B, 0, 8, Operation::DecrementWord(Reg16::DE))),
        0x1C => Some(Instruction::new("INC E", 0x1C, 0, 4, Operation::Increment(Reg8::E))),
        0x1D => Some(Instruction::new("DEC E", 0x1D, 0, 4, Operation::Decrement(Reg8::E))),
        0x1E => Some(Instruction::new("LD E,n", 0x1E, 1, 8, Operation::LoadImmediate(Reg8::E))),
        0x1F => Some(Instruction::new("RRA", 0x1F, 0, 4, Operation::RotateRightA(true))),
        0x20 => Some(Instruction::new("JR NZ,n", 0x20, 1, 8, Operation::JumpRelative(Condition::NotZero))),
        0x21 => Some(Instruction::new("LD HL,nn", 0x21, 2, 12, Operation::LoadWord(Reg16::HL))),
        0x22 => Some(Instruction::new("LD (HL),A; INC HL", 0x22, 0, 8, Operation::StoreAAtHlIncrement)),
        0x23 => Some(Instruction::new("INC HL", 0x23, 0, 8, Operation::IncrementWord(Reg16::HL))),
        0x24 => Some(Instruction::new("INC H", 0x24, 0, 4, Operation::Increment(Reg8::H))),
        0x25 => Some(Instruction::new("DEC H", 0x25, 0, 4, Operation::Decrement(Reg8::H))),
        0x26 => Some(Instruction::new("LD H,n", 0x26, 1, 8, Operation::LoadImmediate(Reg8::H))),
        0x27 => Some(Instruction::new("DAA", 0x27, 0, 4, Operation::DecimalAdjust)),
        0x28 => Some(Instruction::new("JR Z,n", 0x28, 1, 8, Operation::JumpRelative(Condition::Zero))),
        0x29 => Some(Instruction::new("ADD HL,HL", 0x29, 0, 8, Operation::AddHl(Reg16::HL))),
        0x2A => Some(Instruction::new("LD A,(HL); INC HL", 0x2A, 0, 8, Operation::LoadAFromHlIncrement)),
        0x2B => Some(Instruction::new("DEC HL", 0x2B, 0, 8, Operation::DecrementWord(Reg16::HL))),
        0x2C => Some(Instruction::new("INC L", 0x2C, 0, 4, Operation::Increment(Reg8::L))),
        0x2D => Some(Instruction::new("DEC L", 0x2D, 0, 4, Operation::Decrement(Reg8::L))),
        0x2E => Some(Instruction::new("LD L,n", 0x2E, 1, 8, Operation::LoadImmediate(Reg8::L))),
        0x2F => Some(Instruction::new("CPL", 0x2F, 0, 4, Operation::Complement)),
        0x30 => Some(Instruction::new("JR NC,n", 0x30, 1, 8, Operation::JumpRelative(Condition::NotCarry))),
        0x31 => Some(Instruction::new("LD SP,nn", 0x31, 2, 12, Operation::LoadWord(Reg16::SP))),
        0x32 => Some(Instruction::new("LD (HL),A; DEC HL", 0x32, 0, 8, Operation::StoreAAtHlDecrement)),
        0x33 => Some(Instruction::new("INC SP", 0x33, 0, 8, Operation::IncrementWord(Reg16::SP))),
        0x34 => Some(Instruction::new("INC (HL)", 0x34, 0, 12, Operation::Increment(Reg8::MemHl))),
        0x35 => Some(Instruction::new("DEC (HL)", 0x35, 0, 12, Operation::Decrement(Reg8::MemHl))),
        0x36 => Some(Instruction::new("LD (HL),n", 0x36, 1, 12, Operation::LoadImmediate(Reg8::MemHl))),
        0x37 => Some(Instruction::new("SCF", 0x37, 0, 4, Operation::SetCarry)),
        0x38 => Some(Instruction::new("JR C,n", 0x38, 1, 8, Operation::JumpRelative(Condition::Carry))),
        0x39 => Some(Instruction::new("ADD HL,SP", 0x39, 0, 8, Operation::AddHl(Reg16::SP))),
        0x3A => Some(Instruction::new("LD A,(HL); DEC HL", 0x3A, 0, 8, Operation::LoadAFromHlDecrement)),
        0x3B => Some(Instruction::new("DEC SP", 0x3B, 0, 8, Operation::DecrementWord(Reg16::SP))),
        0x3C => Some(Instruction::new("INC A", 0x3C, 0, 4, Operation::Increment(Reg8::A))),
        0x3D => Some(Instruction::new("DEC A", 0x3D, 0, 4, Operation::Decrement(Reg8::A))),
        0x3E => Some(Instruction::new("LD A,n", 0x3E, 1, 8, Operation::LoadImmediate(Reg8::A))),
        0x3F => Some(Instruction::new("CCF", 0x3F, 0, 4, Operation::ComplementCarry)),
        0x40 => Some(Instruction::new("LD B,B", 0x40, 0, 4, Operation::Load(Reg8::B, Reg8::B))),
        0x41 => Some(Instruction::new("LD B,C", 0x41, 0, 4, Operation::Load(Reg8::B, Reg8::C))),
        0x42 => Some(Instruction::new("LD B,D", 0x42, 0, 4, Operation::Load(Reg8::B, Reg8::D))),
        0x43 => Some(Instruction::new("LD B,E", 0x43, 0, 4, Operation::Load(Reg8::B, Reg8::E))),
        0x44 => Some(Instruction::new("LD B,H", 0x44, 0, 4, Operation::Load(Reg8::B, Reg8::H))),
        0x45 => Some(Instruction::new("LD B,L", 0x45, 0, 4, Operation::Load(Reg8::B, Reg8::L))),
        0x46 => Some(Instruction::new("LD B,(HL)", 0x46, 0, 8, Operation::Load(Reg8::B, Reg8::MemHl))),
        0x47 => Some(Instruction::new("LD B,A", 0x47, 0, 4, Operation::Load(Reg8::B, Reg8::A))),
        0x48 => Some(Instruction::new("LD C,B", 0x48, 0, 4, Operation::Load(Reg8::C, Reg8::B))),
        0x49 => Some(Instruction::new("LD C,C", 0x49, 0, 4, Operation::Load(Reg8::C, Reg8::C))),
        0x4A => Some(Instruction::new("LD C,D", 0x4A, 0, 4, Operation::Load(Reg8::C, Reg8::D))),
        0x4B => Some(Instruction::new("LD C,E", 0x4B, 0, 4, Operation::Load(Reg8::C, Reg8::E))),
        0x4C => Some(Instruction::new("LD C,H", 0x4C, 0, 4, Operation::Load(Reg8::C, Reg8::H))),
        0x4D => Some(Instruction::new("LD C,L", 0x4D, 0, 4, Operation::Load(Reg8::C, Reg8::L))),
        0x4E => Some(Instruction::new("LD C,(HL)", 0x4E, 0, 8, Operation::Load(Reg8::C, Reg8::MemHl))),
        0x4F => Some(Instruction::new("LD C,A", 0x4F, 0, 4, Operation::Load(Reg8::C, Reg8::A))),
        0x50 => Some(Instruction::new("LD D,B", 0x50, 0, 4, Operation::Load(Reg8::D, Reg8::B))),
        0x51 => Some(Instruction::new("LD D,C", 0x51, 0, 4, Operation::Load(Reg8::D, Reg8::C))),
        0x52 => Some(Instruction::new("LD D,D", 0x52, 0, 4, Operation::Load(Reg8::D, Reg8::D))),
        0x53 => Some(Instruction::new("LD D,E", 0x53, 0, 4, Operation::Load(Reg8::D, Reg8::E))),
        0x54 => Some(Instruction::new("LD D,H", 0x54, 0, 4, Operation::Load(Reg8::D, Reg8::H))),
        0x55 => Some(Instruction::new("LD D,L", 0x55, 0, 4, Operation::Load(Reg8::D, Reg8::L))),
        0x56 => Some(Instruction::new("LD D,(HL)", 0x56, 0, 8, Operation::Load(Reg8::D, Reg8::MemHl))),
        0x57 => Some(Instruction::new("LD D,A", 0x57, 0, 4, Operation::Load(Reg8::D, Reg8::A))),
        0x58 => Some(Instruction::new("LD E,B", 0x58, 0, 4, Operation::Load(Reg8::E, Reg8::B))),
        0x59 => Some(Instruction::new("LD E,C", 0x59, 0, 4, Operation::Load(Reg8::E, Reg8::C))),
        0x5A => Some(Instruction::new("LD E,D", 0x5A, 0, 4, Operation::Load(Reg8::E, Reg8::D))),
        0x5B => Some(Instruction::new("LD E,E", 0x5B, 0, 4, Operation::Load(Reg8::E, Reg8::E))),
        0x5C => Some(Instruction::new("LD E,H", 0x5C, 0, 4, Operation::Load(Reg8::E, Reg8::H))),
        0x5D => Some(Instruction::new("LD E,L", 0x5D, 0, 4, Operation::Load(Reg8::E, Reg8::L))),
        0x5E => Some(Instruction::new("LD E,(HL)", 0x5E, 0, 8, Operation::Load(Reg8::E, Reg8::MemHl))),
        0x5F => Some(Instruction::new("LD E,A", 0x5F, 0, 4, Operation::Load(Reg8::E, Reg8::A))),
        0x60 => Some(Instruction::new("LD H,B", 0x60, 0, 4, Operation::Load(Reg8::H, Reg8::B))),
        0x61 => Some(Instruction::new("LD H,C", 0x61, 0, 4, Operation::Load(Reg8::H, Reg8::C))),
        0x62 => Some(Instruction::new("LD H,D", 0x62, 0, 4, Operation::Load(Reg8::H, Reg8::D))),
        0x63 => Some(Instruction::new("LD H,E", 0x63, 0, 4, Operation::Load(Reg8::H, Reg8::E))),
        0x64 => Some(Instruction::new("LD H,H", 0x64, 0, 4, Operation::Load(Reg8::H, Reg8::H))),
        0x65 => Some(Instruction::new("LD H,L", 0x65, 0, 4, Operation::Load(Reg8::H, Reg8::L))),
        0x66 => Some(Instruction::new("LD H,(HL)", 0x66, 0, 8, Operation::Load(Reg8::H, Reg8::MemHl))),
        0x67 => Some(Instruction::new("LD H,A", 0x67, 0, 4, Operation::Load(Reg8::H, Reg8::A))),
        0x68 => Some(Instruction::new("LD L,B", 0x68, 0, 4, Operation::Load(Reg8::L, Reg8::B))),
        0x69 => Some(Instruction::new("LD L,C", 0x69, 0, 4, Operation::Load(Reg8::L, Reg8::C))),
        0x6A => Some(Instruction::new("LD L,D", 0x6A, 0, 4, Operation::Load(Reg8::L, Reg8::D))),
        0x6B => Some(Instruction::new("LD L,E", 0x6B, 0, 4, Operation::Load(Reg8::L, Reg8::E))),
        0x6C => Some(Instruction::new("LD L,H", 0x6C, 0, 4, Operation::Load(Reg8::L, Reg8::H))),
        0x6D => Some(Instruction::new("LD L,L", 0x6D, 0, 4, Operation::Load(Reg8::L, Reg8::L))),
        0x6E => Some(Instruction::new("LD L,(HL)", 0x6E, 0, 8, Operation::Load(Reg8::L, Reg8::MemHl))),
        0x6F => Some(Instruction::new("LD L,A", 0x6F, 0, 4, Operation::Load(Reg8::L, Reg8::A))),
        0x70 => Some(Instruction::new("LD (HL),B", 0x70, 0, 8, Operation::Load(Reg8::MemHl, Reg8::B))),
        0x71 => Some(Instruction::new("LD (HL),C", 0x71, 0, 8, Operation::Load(Reg8::MemHl, Reg8::C))),
        0x72 => Some(Instruction::new("LD (HL),D", 0x72, 0, 8, Operation::Load(Reg8::MemHl, Reg8::D))),
        0x73 => Some(Instruction::new("LD (HL),E", 0x73, 0, 8, Operation::Load(Reg8::MemHl, Reg8::E))),
        0x74 => Some(Instruction::new("LD (HL),H", 0x74, 0, 8, Operation::Load(Reg8::MemHl, Reg8::H))),
        0x75 => Some(Instruction::new("LD (HL),L", 0x75, 0, 8, Operation::Load(Reg8::MemHl, Reg8::L))),
        0x76 => Some(Instruction::new("HALT", 0x76, 0, 4, Operation::Halt)),
        0x77 => Some(Instruction::new("LD (HL),A", 0x77, 0, 8, Operation::Load(Reg8::MemHl, Reg8::A))),
        0x78 => Some(Instruction::new("LD A,B", 0x78, 0, 4, Operation::Load(Reg8::A, Reg8::B))),
        0x79 => Some(Instruction::new("LD A,C", 0x79, 0, 4, Operation::Load(Reg8::A, Reg8::C))),
        0x7A => Some(Instruction::new("LD A,D", 0x7A, 0, 4, Operation::Load(Reg8::A, Reg8::D))),
        0x7B => Some(Instruction::new("LD A,E", 0x7B, 0, 4, Operation::Load(Reg8::A, Reg8::E))),
        0x7C => Some(Instruction::new("LD A,H", 0x7C, 0, 4, Operation::Load(Reg8::A, Reg8::H))),
        0x7D => Some(Instruction::new("LD A,L", 0x7D, 0, 4, Operation::Load(Reg8::A, Reg8::L))),
        0x7E => Some(Instruction::new("LD A,(HL)", 0x7E, 0, 8, Operation::Load(Reg8::A, Reg8::MemHl))),
        0x7F => Some(Instruction::new("LD A,A", 0x7F, 0, 4, Operation::Load(Reg8::A, Reg8::A))),
        0x80 => Some(Instruction::new("ADD B", 0x80, 0, 4, Operation::Add(Operand::Register(Reg8::B)))),
        0x81 => Some(Instruction::new("ADD C", 0x81, 0, 4, Operation::Add(Operand::Register(Reg8::C)))),
        0x82 => Some(Instruction::new("ADD D", 0x82, 0, 4, Operation::Add(Operand::Register(Reg8::D)))),
        0x83 => Some(Instruction::new("ADD E", 0x83, 0, 4, Operation::Add(Operand::Register(Reg8::E)))),
        0x84 => Some(Instruction::new("ADD H", 0x84, 0, 4, Operation::Add(Operand::Register(Reg8::H)))),
        0x85 => Some(Instruction::new("ADD L", 0x85, 0, 4, Operation::Add(Operand::Register(Reg8::L)))),
        0x86 => Some(Instruction::new("ADD (HL)", 0x86, 0, 8, Operation::Add(Operand::Register(Reg8::MemHl)))),
        0x87 => Some(Instruction::new("ADD A", 0x87, 0, 4, Operation::Add(Operand::Register(Reg8::A)))),
        0x88 => Some(Instruction::new("ADC A,B", 0x88, 0, 4, Operation::AddCarry(Operand::Register(Reg8::B)))),
        0x89 => Some(Instruction::new("ADC A,C", 0x89, 0, 4, Operation::AddCarry(Operand::Register(Reg8::C)))),
        0x8A => Some(Instruction::new("ADC A,D", 0x8A, 0, 4, Operation::AddCarry(Operand::Register(Reg8::D)))),
        0x8B => Some(Instruction::new("ADC A,E", 0x8B, 0, 4, Operation::AddCarry(Operand::Register(Reg8::E)))),
        0x8C => Some(Instruction::new("ADC A,H", 0x8C, 0, 4, Operation::AddCarry(Operand::Register(Reg8::H)))),
        0x8D => Some(Instruction::new("ADC A,L", 0x8D, 0, 4, Operation::AddCarry(Operand::Register(Reg8::L)))),
        0x8E => Some(Instruction::new("ADC A,(HL)", 0x8E, 0, 8, Operation::AddCarry(Operand::Register(Reg8::MemHl)))),
        0x8F => Some(Instruction::new("ADC A,A", 0x8F, 0, 4, Operation::AddCarry(Operand::Register(Reg8::A)))),
        0x90 => Some(Instruction::new("SUB B", 0x90, 0, 4, Operation::Subtract(Operand::Register(Reg8::B)))),
        0x91 => Some(Instruction::new("SUB C", 0x91, 0, 4, Operation::Subtract(Operand::Register(Reg8::C)))),
        0x92 => Some(Instruction::new("SUB D", 0x92, 0, 4, Operation::Subtract(Operand::Register(Reg8::D)))),
        0x93 => Some(Instruction::new("SUB E", 0x93, 0, 4, Operation::Subtract(Operand::Register(Reg8::E)))),
        0x94 => Some(Instruction::new("SUB H", 0x94, 0, 4, Operation::Subtract(Operand::Register(Reg8::H)))),
        0x95 => Some(Instruction::new("SUB L", 0x95, 0, 4, Operation::Subtract(Operand::Register(Reg8::L)))),
        0x96 => Some(Instruction::new("SUB (HL)", 0x96, 0, 8, Operation::Subtract(Operand::Register(Reg8::MemHl)))),
        0x97 => Some(Instruction::new("SUB A", 0x97, 0, 4, Operation::Subtract(Operand::Register(Reg8::A)))),
        0x98 => Some(Instruction::new("SBC B", 0x98, 0, 4, Operation::SubtractCarry(Operand::Register(Reg8::B)))),
        0x99 => Some(Instruction::new("SBC C", 0x99, 0, 4, Operation::SubtractCarry(Operand::Register(Reg8::C)))),
        0x9A => Some(Instruction::new("SBC D", 0x9A, 0, 4, Operation::SubtractCarry(Operand::Register(Reg8::D)))),
        0x9B => Some(Instruction::new("SBC E", 0x9B, 0, 4, Operation::SubtractCarry(Operand::Register(Reg8::E)))),
        0x9C => Some(Instruction::new("SBC H", 0x9C, 0, 4, Operation::SubtractCarry(Operand::Register(Reg8::H)))),
        0x9D => Some(Instruction::new("SBC L", 0x9D, 0, 4, Operation::SubtractCarry(Operand::Register(Reg8::L)))),
        0x9E => Some(Instruction::new("SBC (HL)", 0x9E, 0, 8, Operation::SubtractCarry(Operand::Register(Reg8::MemHl)))),
        0x9F => Some(Instruction::new("SBC A", 0x9F, 0, 4, Operation::SubtractCarry(Operand::Register(Reg8::A)))),
        0xA0 => Some(Instruction::new("AND B", 0xA0, 0, 4, Operation::And(Operand::Register(Reg8::B)))),
        0xA1 => Some(Instruction::new("AND C", 0xA1, 0, 4, Operation::And(Operand::Register(Reg8::C)))),
        0xA2 => Some(Instruction::new("AND D", 0xA2, 0, 4, Operation::And(Operand::Register(Reg8::D)))),
        0xA3 => Some(Instruction::new("AND E", 0xA3, 0, 4, Operation::And(Operand::Register(Reg8::E)))),
        0xA4 => Some(Instruction::new("AND H", 0xA4, 0, 4, Operation::And(Operand::Register(Reg8::H)))),
        0xA5 => Some(Instruction::new("AND L", 0xA5, 0, 4, Operation::And(Operand::Register(Reg8::L)))),
        0xA6 => Some(Instruction::new("AND (HL)", 0xA6, 0, 8, Operation::And(Operand::Register(Reg8::MemHl)))),
        0xA7 => Some(Instruction::new("AND A", 0xA7, 0, 4, Operation::And(Operand::Register(Reg8::A)))),
        0xA8 => Some(Instruction::new("XOR B", 0xA8, 0, 4, Operation::Xor(Operand::Register(Reg8::B)))),
        0xA9 => Some(Instruction::new("XOR C", 0xA9, 0, 4, Operation::Xor(Operand::Register(Reg8::C)))),
        0xAA => Some(Instruction::new("XOR D", 0xAA, 0, 4, Operation::Xor(Operand::Register(Reg8::D)))),
        0xAB => Some(Instruction::new("XOR E", 0xAB, 0, 4, Operation::Xor(Operand::Register(Reg8::E)))),
        0xAC => Some(Instruction::new("XOR H", 0xAC, 0, 4, Operation::Xor(Operand::Register(Reg8::H)))),
        0xAD => Some(Instruction::new("XOR L", 0xAD, 0, 4, Operation::Xor(Operand::Register(Reg8::L)))),
        0xAE => Some(Instruction::new("XOR (HL)", 0xAE, 0, 8, Operation::Xor(Operand::Register(Reg8::MemHl)))),
        0xAF => Some(Instruction::new("XOR A", 0xAF, 0, 4, Operation::Xor(Operand::Register(Reg8::A)))),
        0xB0 => Some(Instruction::new("OR B", 0xB0, 0, 4, Operation::Or(Operand::Register(Reg8::B)))),
        0xB1 => Some(Instruction::new("OR C", 0xB1, 0, 4, Operation::Or(Operand::Register(Reg8::C)))),
        0xB2 => Some(Instruction::new("OR D", 0xB2, 0, 4, Operation::Or(Operand::Register(Reg8::D)))),
        0xB3 => Some(Instruction::new("OR E", 0xB3, 0, 4, Operation::Or(Operand::Register(Reg8::E)))),
        0xB4 => Some(Instruction::new("OR H", 0xB4, 0, 4, Operation::Or(Operand::Register(Reg8::H)))),
        0xB5 => Some(Instruction::new("OR L", 0xB5, 0, 4, Operation::Or(Operand::Register(Reg8::L)))),
        0xB6 => Some(Instruction::new("OR (HL)", 0xB6, 0, 8, Operation::Or(Operand::Register(Reg8::MemHl)))),
        0xB7 => Some(Instruction::new("OR A", 0xB7, 0, 4, Operation::Or(Operand::Register(Reg8::A)))),
        0xB8 => Some(Instruction::new("CP B", 0xB8, 0, 4, Operation::Compare(Operand::Register(Reg8::B)))),
        0xB9 => Some(Instruction::new("CP C", 0xB9, 0, 4, Operation::Compare(Operand::Register(Reg8::C)))),
        0xBA => Some(Instruction::new("CP D", 0xBA, 0, 4, Operation::Compare(Operand::Register(Reg8::D)))),
        0xBB => Some(Instruction::new("CP E", 0xBB, 0, 4, Operation::Compare(Operand::Register(Reg8::E)))),
        0xBC => Some(Instruction::new("CP H", 0xBC, 0, 4, Operation::Compare(Operand::Register(Reg8::H)))),
        0xBD => Some(Instruction::new("CP L", 0xBD, 0, 4, Operation::Compare(Operand::Register(Reg8::L)))),
        0xBE => Some(Instruction::new("CP (HL)", 0xBE, 0, 8, Operation::Compare(Operand::Register(Reg8::MemHl)))),
        0xBF => Some(Instruction::new("CP A", 0xBF, 0, 4, Operation::Compare(Operand::Register(Reg8::A)))),
        0xC0 => Some(Instruction::new("RET NZ", 0xC0, 0, 8, Operation::Return(Condition::NotZero))),
        0xC1 => Some(Instruction::new("POP BC", 0xC1, 0, 12, Operation::Pop(StackPair::BC))),
        0xC2 => Some(Instruction::new("JP NZ,nn", 0xC2, 2, 12, Operation::Jump(Condition::NotZero))),
        0xC3 => Some(Instruction::new("JP nn", 0xC3, 2, 12, Operation::Jump(Condition::Always))),
        0xC4 => Some(Instruction::new("CALL NZ,nn", 0xC4, 2, 12, Operation::Call(Condition::NotZero))),
        0xC5 => Some(Instruction::new("PUSH BC", 0xC5, 0, 16, Operation::Push(StackPair::BC))),
        0xC6 => Some(Instruction::new("ADD n", 0xC6, 1, 8, Operation::Add(Operand::Immediate))),
        0xC7 => Some(Instruction::new("RST 0x00", 0xC7, 0, 32, Operation::Restart(0x00))),
        0xC8 => Some(Instruction::new("RET Z", 0xC8, 0, 8, Operation::Return(Condition::Zero))),
        0xC9 => Some(Instruction::new("RET", 0xC9, 0, 8, Operation::Return(Condition::Always))),
        0xCA => Some(Instruction::new("JP Z,nn", 0xCA, 2, 12, Operation::Jump(Condition::Zero))),
        0xCC => Some(Instruction::new("CALL Z,nn", 0xCC, 2, 12, Operation::Call(Condition::Zero))),
        0xCD => Some(Instruction::new("CALL nn", 0xCD, 2, 12, Operation::Call(Condition::Always))),
        0xCE => Some(Instruction::new("ADC A,n", 0xCE, 1, 8, Operation::AddCarry(Operand::Immediate))),
        0xCF => Some(Instruction::new("RST 0x08", 0xCF, 0, 32, Operation::Restart(0x08))),
        0xD0 => Some(Instruction::new("RET NC", 0xD0, 0, 8, Operation::Return(Condition::NotCarry))),
        0xD1 => Some(Instruction::new("POP DE", 0xD1, 0, 12, Operation::Pop(StackPair::DE))),
        0xD2 => Some(Instruction::new("JP NC,nn", 0xD2, 2, 12, Operation::Jump(Condition::NotCarry))),
        0xD4 => Some(Instruction::new("CALL NC,nn", 0xD4, 2, 12, Operation::Call(Condition::NotCarry))),
        0xD5 => Some(Instruction::new("PUSH DE", 0xD5, 0, 16, Operation::Push(StackPair::DE))),
        0xD6 => Some(Instruction::new("SUB n", 0xD6, 1, 8, Operation::Subtract(Operand::Immediate))),
        0xD7 => Some(Instruction::new("RST 0x10", 0xD7, 0, 32, Operation::Restart(0x10))),
        0xD8 => Some(Instruction::new("RET C", 0xD8, 0, 8, Operation::Return(Condition::Carry))),
        0xD9 => Some(Instruction::new("RETI", 0xD9, 0, 8, Operation::ReturnInterrupt)),
        0xDA => Some(Instruction::new("JP C,nn", 0xDA, 2, 12, Operation::Jump(Condition::Carry))),
        0xDC => Some(Instruction::new("CALL C,nn", 0xDC, 2, 12, Operation::Call(Condition::Carry))),
        0xDE => Some(Instruction::new("SBC n", 0xDE, 1, 8, Operation::SubtractCarry(Operand::Immediate))),
        0xDF => Some(Instruction::new("RST 0x18", 0xDF, 0, 32, Operation::Restart(0x18))),
        0xE0 => Some(Instruction::new("LD (0xFF00 + n),A", 0xE0, 1, 12, Operation::StoreAHighImmediate)),
        0xE1 => Some(Instruction::new("POP HL", 0xE1, 0, 12, Operation::Pop(StackPair::HL))),
        0xE2 => Some(Instruction::new("LD (0xFF00 + C),A", 0xE2, 0, 8, Operation::StoreAHighC)),
        0xE5 => Some(Instruction::new("PUSH HL", 0xE5, 0, 16, Operation::Push(StackPair::HL))),
        0xE6 => Some(Instruction::new("AND n", 0xE6, 1, 8, Operation::And(Operand::Immediate))),
        0xE7 => Some(Instruction::new("RST 0x20", 0xE7, 0, 32, Operation::Restart(0x20))),
        0xE8 => Some(Instruction::new("ADD SP,n", 0xE8, 1, 16, Operation::AddSpOffset)),
        0xE9 => Some(Instruction::new("JP (HL)", 0xE9, 0, 4, Operation::JumpHl)),
        0xEA => Some(Instruction::new("LD (nn),A", 0xEA, 2, 16, Operation::StoreAAtAddress)),
        0xEE => Some(Instruction::new("XOR n", 0xEE, 1, 8, Operation::Xor(Operand::Immediate))),
        0xEF => Some(Instruction::new("RST 0x28", 0xEF, 0, 32, Operation::Restart(0x28))),
        0xF0 => Some(Instruction::new("LD A,(0xFF00 + n)", 0xF0, 1, 12, Operation::LoadAHighImmediate)),
        0xF1 => Some(Instruction::new("POP AF", 0xF1, 0, 12, Operation::Pop(StackPair::AF))),
        0xF2 => Some(Instruction::new("LD A,(0xFF00 + C)", 0xF2, 0, 8, Operation::LoadAHighC)),
        0xF3 => Some(Instruction::new("DI", 0xF3, 0, 4, Operation::DisableInterrupts)),
        0xF5 => Some(Instruction::new("PUSH AF", 0xF5, 0, 16, Operation::Push(StackPair::AF))),
        0xF6 => Some(Instruction::new("OR n", 0xF6, 1, 8, Operation::Or(Operand::Immediate))),
        0xF7 => Some(Instruction::new("RST 0x30", 0xF7, 0, 32, Operation::Restart(0x30))),
        0xF8 => Some(Instruction::new("LD HL,SP+n", 0xF8, 1, 12, Operation::LoadHlFromSpOffset)),
        0xF9 => Some(Instruction::new("LD SP,HL", 0xF9, 0, 8, Operation::LoadSpFromHl)),
        0xFA => Some(Instruction::new("LD A,(nn)", 0xFA, 2, 16, Operation::LoadAFromAddress)),
        0xFB => Some(Instruction::new("EI", 0xFB, 0, 4, Operation::EnableInterrupts)),
        0xFE => Some(Instruction::new("CP n", 0xFE, 1, 8, Operation::Compare(Operand::Immediate))),
        0xFF => Some(Instruction::new("RST 0x38", 0xFF, 0, 32, Operation::Restart(0x38))),
        _ => None,
    }
}

/// The entry that a table has for a byte: the extended table is the one
/// reached through the prefix byte 0xCB.
pub open spec fn decode(extended: bool, opcode: u8) -> Option<Instruction> {
    if extended {
        spec_cb_instruction(opcode)
    } else {
        spec_instruction(opcode)
    }
}

/// The entries that a table has for the bytes below `n`, in the order of
/// their opcodes.
pub open spec fn table_entries(extended: bool, n: nat) -> Seq<Instruction>
    decreases n,
{
    if n == 0 {
        Seq::empty()
    } else {
        let rest = table_entries(extended, (n - 1) as nat);
        match decode(extended, (n - 1) as u8) {
            Some(entry) => rest.push(entry),
            None => rest,
        }
    }
}

/// The instructions of the primary table, in the order of their opcodes.
pub fn get_instruction_set() -> (set: Vec<Instruction>)
    ensures
        set@ == table_entries(false, 256),
{
    let mut set: Vec<Instruction> = Vec::new();
    let mut opcode: u16 = 0;
    while opcode < 256
        invariant
            opcode <= 256,
            set@ == table_entries(false, opcode as nat),
        decreases 256 - opcode,
    {
        match lookup_instruction(opcode as u8) {
            Some(entry) => set.push(entry),
            None => {},
        }
        opcode += 1;
    }
    set
}

/// Every entry of a table carries the opcode it is found under, and its
/// operation is well formed.
pub proof fn lemma_decode_opcode(extended: bool, opcode: u8)
    ensures
        decode(extended, opcode) is Some ==> decode(extended, opcode).unwrap().opcode == opcode
            && decode(extended, opcode).unwrap().operation.wf(),
{
}

/// Every instruction takes at least four cycles.
pub proof fn lemma_cycles(extended: bool, opcode: u8)
    ensures
        decode(extended, opcode) is Some ==> decode(extended, opcode).unwrap().cycles >= 4,
{
}

/// The list of a table holds each entry of the table once, in rising order
/// of the opcodes: no opcode occurs twice, every listed entry is the one the
/// table has for its opcode, and every entry of the table is listed.
pub proof fn lemma_table_entries(extended: bool, n: nat)
    requires
        n <= 256,
    ensures
        forall|i: int|
            0 <= i < table_entries(extended, n).len() ==> (#[trigger] table_entries(
                extended,
                n,
            )[i]).opcode < n && decode(extended, table_entries(extended, n)[i].opcode) == Some(
                table_entries(extended, n)[i],
            ),
        forall|i: int, j: int|
            0 <= i < j < table_entries(extended, n).len() ==> (#[trigger] table_entries(
                extended,
                n,
            )[i]).opcode < (#[trigger] table_entries(extended, n)[j]).opcode,
        forall|opcode: u8|
            opcode < n && (#[trigger] decode(extended, opcode)) is Some ==> table_entries(
                extended,
                n,
            ).contains(decode(extended, opcode).unwrap()),
    decreases n,
{
    if n > 0 {
        let m = (n - 1) as nat;
        let rest = table_entries(extended, m);
        let all = table_entries(extended, n);
        lemma_table_entries(extended, m);
        lemma_decode_opcode(extended, m as u8);
        match decode(extended, m as u8) {
            Some(entry) => {
                assert(all == rest.push(entry));
                assert(all[rest.len() as int] == entry);
                assert forall|opcode: u8|
                    opcode < n && (#[trigger] decode(extended, opcode)) is Some implies all.contains(
                    decode(extended, opcode).unwrap(),
                ) by {
                    if opcode < m {
                        let k = choose|k: int|
                            0 <= k < rest.len() && rest[k] == decode(extended, opcode).unwrap();
                        assert(all[k] == rest[k]);
                    } else {
                        assert(all[rest.len() as int] == entry);
                    }
                }
            },
            None => {
                assert(all == rest);
            },
        }
    }
}

/// Neither table lists an opcode twice.
pub proof fn lemma_no_duplicate_opcodes(extended: bool, i: int, j: int)
    requires
        0 <= i < table_entries(extended, 256).len(),
        0 <= j < table_entries(extended, 256).len(),
        i != j,
    ensures
        table_entries(extended, 256)[i].opcode != table_entries(extended, 256)[j].opcode,
{
    lemma_table_entries(extended, 256);
}

/// Whether an address lies in work RAM or in high RAM, where a byte that was
/// written is the byte that is read.
pub open spec fn ordinary_ram(address: u16) -> bool {
    0xC000 <= address < 0xE000 || 0xFF80 <= address < 0xFFFF
}

/// A word written to ordinary RAM is read back unchanged.
pub proof fn lemma_word_round_trip(m: crate::memory::MemoryView, address: u16, word: u16)
    requires
        m.wf(),
        ordinary_ram(address),
        ordinary_ram((address + 1) as u16),
    ensures
        m.write_word(address, word).read_word(address) == word,
        m.write_word(address, word).wf(),
{
    let low = (word % 256) as u8;
    let high = (word / 256) as u8;
    let next = address.wrapping_add(1);
    let m1 = m.write(address, low);
    let m2 = m1.write(next, high);
    assert(m1.mem == m.mem.update(address as int, low));
    assert(m2.mem == m1.mem.update(next as int, high));
    assert(m2.read(address) == low);
    assert(m2.read(next) == high);
}

/// A register pair that is pushed and popped again, with the stack in
/// ordinary RAM, comes back unchanged, and so does SP.
pub proof fn lemma_push_pop_state(g: GameBoyView, pair: StackPair)
    requires
        g.wf(),
        ordinary_ram(g.cpu.sp.wrapping_sub(2)),
        ordinary_ram((g.cpu.sp.wrapping_sub(2) + 1) as u16),
    ensures
        g.push(g.stack_pair(pair)).stack_top() == g.stack_pair(pair),
        g.push(g.stack_pair(pair)).pop().with_stack_pair(pair, g.stack_pair(pair)).cpu == g.cpu,
{
    lemma_word_round_trip(g.memory, g.cpu.sp.wrapping_sub(2), g.stack_pair(pair));
    crate::cpu::lemma_flags_round_trip(g.cpu.flag, 0);
}

/// PUSH followed by POP of the same register pair, with the stack in
/// ordinary RAM, leaves the pair, SP and every other register as they were.
pub proof fn lemma_push_pop(g: GameBoyView, pair: StackPair, a1: u8, a2: u8)
    requires
        g.wf(),
        ordinary_ram(g.cpu.sp.wrapping_sub(2)),
        ordinary_ram((g.cpu.sp.wrapping_sub(2) + 1) as u16),
    ensures
        Operation::Pop(pair).apply(Operation::Push(pair).apply(g, a1, a2), a1, a2).cpu == g.cpu,
{
    let pushed = g.push(g.stack_pair(pair));
    assert(Operation::Push(pair).apply(g, a1, a2) == pushed);
    assert(Operation::Pop(pair).apply(pushed, a1, a2) == pushed.pop().with_stack_pair(
        pair,
        pushed.stack_top(),
    ));
    lemma_push_pop_state(g, pair);
}

/// INC and DEC on a byte leave the carry flag as it was.
pub proof fn lemma_step_keeps_carry(g: GameBoyView, reg: Reg8, a1: u8, a2: u8)
    ensures
        Operation::Increment(reg).apply(g, a1, a2).cpu.flag.carry == g.cpu.flag.carry,
        Operation::Decrement(reg).apply(g, a1, a2).cpu.flag.carry == g.cpu.flag.carry,
{
}

/// After a rotate or a shift the carry flag holds the bit that left the
/// register: bit 7 on the way left, bit 0 on the way right.
pub proof fn lemma_shift_carry(operation: Operation, g: GameBoyView, a1: u8, a2: u8)
    ensures
        match operation {
            Operation::RotateLeftA(_) => operation.apply(g, a1, a2).cpu.flag.carry == (g.cpu.a
                >= 128),
            Operation::RotateRightA(_) => operation.apply(g, a1, a2).cpu.flag.carry == (g.cpu.a % 2
                == 1),
            Operation::RotateLeft(reg, _) => operation.apply(g, a1, a2).cpu.flag.carry == (g.reg8(
                reg,
            ) >= 128),
            Operation::ShiftLeft(reg) => operation.apply(g, a1, a2).cpu.flag.carry == (g.reg8(reg)
                >= 128),
            Operation::RotateRight(reg, _) => operation.apply(g, a1, a2).cpu.flag.carry == (g.reg8(
                reg,
            ) % 2 == 1),
            Operation::ShiftRightKeepSign(reg) => operation.apply(g, a1, a2).cpu.flag.carry == (
            g.reg8(reg) % 2 == 1),
            Operation::ShiftRight(reg) => operation.apply(g, a1, a2).cpu.flag.carry == (g.reg8(reg)
                % 2 == 1),
            _ => true,
        },
{
}

} // verus!
