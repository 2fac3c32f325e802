use gameboy::cb_instructions::{
    get_cb_instruction_set, lookup_cb_instruction, reset_bit, set_bit,
};
use gameboy::cpu::{Cpu, FlagRegister, InstructionSet};
use gameboy::game_boy::GameBoy;
use gameboy::instructions::{
    decimal_adjust, get_instruction_set, lookup_instruction, Condition, Operand, Operation, Reg16,
    StackPair,
};
use gameboy::math::{add_u16_and_i8, add_u16_and_i8_affect_flags, rotate_left, rotate_right};
use gameboy::util::{
    concat_bytes, get_lower, get_reg8, get_upper, set_lower, set_reg8, set_upper,
    to_unsigned_word, Reg8,
};

fn flags(zero: bool, subtract: bool, half_carry: bool, carry: bool) -> FlagRegister {
    FlagRegister { zero, subtract, half_carry, carry }
}

#[test]
fn words_split_and_join() {
    assert_eq!(get_upper(0xABCD), 0xAB);
    assert_eq!(get_lower(0xABCD), 0xCD);
    assert_eq!(concat_bytes(0x12, 0x34), 0x1234);
    let mut word = 0x1234u16;
    set_upper(&mut word, 0xAB);
    assert_eq!(word, 0xAB34);
    set_lower(&mut word, 0xCD);
    assert_eq!(word, 0xABCD);
}

#[test]
fn magnitude_of_signed_words() {
    assert_eq!(to_unsigned_word(-3), 3);
    assert_eq!(to_unsigned_word(3), 3);
    assert_eq!(to_unsigned_word(i16::MIN), 32768);
}

#[test]
fn signed_offsets_wrap_round() {
    assert_eq!(add_u16_and_i8(0x0001, 0xFE), 0xFFFF);
    assert_eq!(add_u16_and_i8(0xFFFF, 0x02), 0x0001);
    assert_eq!(add_u16_and_i8(0x1000, 0x80), 0x0F80);
    assert_eq!(add_u16_and_i8(0x1000, 0x7F), 0x107F);
    for byte in 0..=255u8 {
        let expected = (0x8000i32 + (byte as i8) as i32) as u16;
        assert_eq!(add_u16_and_i8(0x8000, byte), expected);
    }
}

#[test]
fn offset_flags_come_from_the_low_byte() {
    let mut gb = GameBoy::new();
    gb.cpu.flag = flags(true, true, false, false);
    assert_eq!(add_u16_and_i8_affect_flags(&mut gb, 0x00FF, 0x01), 0x0100);
    assert_eq!(gb.cpu.flag, flags(false, false, true, true));
    assert_eq!(add_u16_and_i8_affect_flags(&mut gb, 0x0010, 0xF0), 0x0000);
    assert_eq!(gb.cpu.flag, flags(false, false, false, true));
    assert_eq!(add_u16_and_i8_affect_flags(&mut gb, 0x0001, 0x01), 0x0002);
    assert_eq!(gb.cpu.flag, flags(false, false, false, false));
}

#[test]
fn flag_register_round_trip() {
    let mut flag = FlagRegister::new();
    assert_eq!(flag.value(), 0);
    flag.set(0xFF);
    assert_eq!(flag.value(), 0xF0);
    flag.set(0x5A);
    assert_eq!(flag, flags(false, true, false, true));
    assert_eq!(flag.value(), 0x50);
    for byte in 0..=255u8 {
        flag.set(byte);
        assert_eq!(flag.value(), byte & 0xF0);
    }
}

#[test]
fn power_on_registers() {
    let mut cpu = Cpu::new();
    cpu.power_on();
    assert_eq!(cpu.get_af(), 0x01B0);
    assert_eq!(cpu.get_a(), 0x01);
    assert_eq!(cpu.flag.value(), 0xB0);
    assert_eq!(cpu.bc, 0x0013);
    assert_eq!(cpu.de, 0x00D8);
    assert_eq!(cpu.hl, 0x014D);
    assert_eq!(cpu.sp, 0xFFFE);
    assert_eq!(cpu.pc, 0x0000);
    assert_eq!((cpu.get_b(), cpu.get_c()), (0x00, 0x13));
    assert_eq!((cpu.get_d(), cpu.get_e()), (0x00, 0xD8));
    assert_eq!((cpu.get_h(), cpu.get_l()), (0x01, 0x4D));
}

#[test]
fn byte_registers_share_the_pairs() {
    let mut cpu = Cpu::new();
    cpu.set_b(0x12);
    cpu.set_c(0x34);
    cpu.set_d(0x56);
    cpu.set_e(0x78);
    cpu.set_h(0x9A);
    cpu.set_l(0xBC);
    cpu.set_a(0xDE);
    assert_eq!((cpu.bc, cpu.de, cpu.hl, cpu.a), (0x1234, 0x5678, 0x9ABC, 0xDE));
    cpu.set_af(0x12FF);
    assert_eq!(cpu.get_af(), 0x12F0);
}

#[test]
fn register_selector_routes_hl_through_memory() {
    let mut gb = GameBoy::new();
    gb.cpu.hl = 0xC123;
    set_reg8(&mut gb, Reg8::MemHl, 0x77);
    assert_eq!(gb.memory.get_byte(0xC123), 0x77);
    assert_eq!(get_reg8(&gb, Reg8::MemHl), 0x77);
    set_reg8(&mut gb, Reg8::H, 0xD0);
    assert_eq!(gb.cpu.hl, 0xD023);
    assert_eq!(get_reg8(&gb, Reg8::L), 0x23);
}

#[test]
fn rotates_move_the_leaving_bit_into_the_carry() {
    let mut gb = GameBoy::new();
    assert_eq!(rotate_left(&mut gb, 0x80, false), 0x01);
    assert_eq!(gb.cpu.flag, flags(false, false, false, true));
    assert_eq!(rotate_left(&mut gb, 0x80, true), 0x01);
    assert!(gb.cpu.flag.carry);
    gb.cpu.flag.carry = false;
    assert_eq!(rotate_left(&mut gb, 0x80, true), 0x00);
    assert_eq!(gb.cpu.flag, flags(true, false, false, true));
    assert_eq!(rotate_right(&mut gb, 0x01, false), 0x80);
    assert!(gb.cpu.flag.carry);
    gb.cpu.flag.carry = false;
    assert_eq!(rotate_right(&mut gb, 0x03, true), 0x01);
    assert!(gb.cpu.flag.carry);
    assert_eq!(rotate_right(&mut gb, 0x02, true), 0x81);
    assert!(!gb.cpu.flag.carry);
    for value in 0..=255u8 {
        rotate_left(&mut gb, value, false);
        assert_eq!(gb.cpu.flag.carry, value & 0x80 != 0);
        rotate_right(&mut gb, value, true);
        assert_eq!(gb.cpu.flag.carry, value & 0x01 != 0);
    }
}

#[test]
fn accumulator_rotates_clear_zero() {
    let mut gb = GameBoy::new();
    gb.cpu.a = 0x00;
    Operation::RotateLeftA(false).run(&mut gb, 0, 0);
    assert_eq!(gb.cpu.a, 0);
    assert_eq!(gb.cpu.flag, flags(false, false, false, false));
    gb.cpu.a = 0x85;
    Operation::RotateLeftA(false).run(&mut gb, 0, 0);
    assert_eq!(gb.cpu.a, 0x0B);
    assert!(gb.cpu.flag.carry);
    gb.cpu.a = 0x00;
    Operation::RotateLeft(Reg8::A, false).run(&mut gb, 0, 0);
    assert!(gb.cpu.flag.zero);
}

#[test]
fn addition_sets_the_four_flags() {
    let mut gb = GameBoy::new();
    gb.cpu.a = 0x3A;
    gb.cpu.bc = 0xC600;
    Operation::Add(Operand::Register(Reg8::B)).run(&mut gb, 0, 0);
    assert_eq!(gb.cpu.a, 0x00);
    assert_eq!(gb.cpu.flag, flags(true, false, true, true));
    gb.cpu.a = 0x0F;
    Operation::Add(Operand::Immediate).run(&mut gb, 0x01, 0);
    assert_eq!(gb.cpu.a, 0x10);
    assert_eq!(gb.cpu.flag, flags(false, false, true, false));
    gb.cpu.a = 0xE1;
    gb.cpu.flag.carry = true;
    Operation::AddCarry(Operand::Immediate).run(&mut gb, 0x1E, 0);
    assert_eq!(gb.cpu.a, 0x00);
    assert_eq!(gb.cpu.flag, flags(true, false, true, true));
}

#[test]
fn subtraction_sets_the_four_flags() {
    let mut gb = GameBoy::new();
    gb.cpu.a = 0x3E;
    Operation::Subtract(Operand::Immediate).run(&mut gb, 0x0F, 0);
    assert_eq!(gb.cpu.a, 0x2F);
    assert_eq!(gb.cpu.flag, flags(false, true, true, false));
    gb.cpu.a = 0x3E;
    Operation::Subtract(Operand::Immediate).run(&mut gb, 0x40, 0);
    assert_eq!(gb.cpu.a, 0xFE);
    assert_eq!(gb.cpu.flag, flags(false, true, false, true));
    gb.cpu.a = 0x3B;
    gb.cpu.flag.carry = true;
    Operation::SubtractCarry(Operand::Immediate).run(&mut gb, 0x3A, 0);
    assert_eq!(gb.cpu.a, 0x00);
    assert_eq!(gb.cpu.flag, flags(true, true, false, false));
    gb.cpu.a = 0x3C;
    Operation::Compare(Operand::Immediate).run(&mut gb, 0x40, 0);
    assert_eq!(gb.cpu.a, 0x3C);
    assert_eq!(gb.cpu.flag, flags(false, true, false, true));
}

#[test]
fn logic_operations() {
    let mut gb = GameBoy::new();
    gb.cpu.a = 0x5A;
    gb.cpu.flag.carry = true;
    Operation::And(Operand::Immediate).run(&mut gb, 0x3F, 0);
    assert_eq!(gb.cpu.a, 0x1A);
    assert_eq!(gb.cpu.flag, flags(false, false, true, false));
    Operation::Or(Operand::Immediate).run(&mut gb, 0x05, 0);
    assert_eq!(gb.cpu.a, 0x1F);
    assert_eq!(gb.cpu.flag, flags(false, false, false, false));
    Operation::Xor(Operand::Register(Reg8::A)).run(&mut gb, 0, 0);
    assert_eq!(gb.cpu.a, 0x00);
    assert_eq!(gb.cpu.flag, flags(true, false, false, false));
    gb.cpu.a = 0x35;
    Operation::Complement.run(&mut gb, 0, 0);
    assert_eq!(gb.cpu.a, 0xCA);
    assert_eq!(gb.cpu.flag, flags(true, true, true, false));
    Operation::SetCarry.run(&mut gb, 0, 0);
    assert_eq!(gb.cpu.flag, flags(true, false, false, true));
    Operation::ComplementCarry.run(&mut gb, 0, 0);
    assert_eq!(gb.cpu.flag, flags(true, false, false, false));
}

#[test]
fn increment_and_decrement_keep_the_carry() {
    let mut gb = GameBoy::new();
    for carry in [false, true] {
        for value in 0..=255u8 {
            gb.cpu.a = value;
            gb.cpu.flag.carry = carry;
            Operation::Increment(Reg8::A).run(&mut gb, 0, 0);
            assert_eq!(gb.cpu.a, value.wrapping_add(1));
            assert_eq!(gb.cpu.flag.carry, carry);
            assert_eq!(gb.cpu.flag.zero, value == 0xFF);
            assert_eq!(gb.cpu.flag.half_carry, value & 0x0F == 0x0F);
            assert!(!gb.cpu.flag.subtract);
            gb.cpu.a = value;
            Operation::Decrement(Reg8::A).run(&mut gb, 0, 0);
            assert_eq!(gb.cpu.a, value.wrapping_sub(1));
            assert_eq!(gb.cpu.flag.carry, carry);
            assert_eq!(gb.cpu.flag.zero, value == 0x01);
            assert_eq!(gb.cpu.flag.half_carry, value & 0x0F == 0x00);
            assert!(gb.cpu.flag.subtract);
        }
    }
    gb.cpu.hl = 0xC000;
    gb.memory.set_byte(0xC000, 0xFF);
    Operation::Increment(Reg8::MemHl).run(&mut gb, 0, 0);
    assert_eq!(gb.memory.get_byte(0xC000), 0x00);
}

#[test]
fn word_arithmetic() {
    let mut gb = GameBoy::new();
    gb.cpu.bc = 0xFFFF;
    Operation::IncrementWord(Reg16::BC).run(&mut gb, 0, 0);
    assert_eq!(gb.cpu.bc, 0x0000);
    Operation::DecrementWord(Reg16::BC).run(&mut gb, 0, 0);
    assert_eq!(gb.cpu.bc, 0xFFFF);
    assert_eq!(gb.cpu.flag, flags(false, false, false, false));
    gb.cpu.hl = 0x8A23;
    gb.cpu.bc = 0x0605;
    gb.cpu.flag.zero = true;
    Operation::AddHl(Reg16::BC).run(&mut gb, 0, 0);
    assert_eq!(gb.cpu.hl, 0x9028);
    assert_eq!(gb.cpu.flag, flags(true, false, true, false));
    gb.cpu.hl = 0x8A23;
    Operation::AddHl(Reg16::HL).run(&mut gb, 0, 0);
    assert_eq!(gb.cpu.hl, 0x1446);
    assert_eq!(gb.cpu.flag, flags(true, false, true, true));
    gb.cpu.sp = 0xFFF8;
    Operation::AddSpOffset.run(&mut gb, 0x02, 0);
    assert_eq!(gb.cpu.sp, 0xFFFA);
    assert_eq!(gb.cpu.flag, flags(false, false, false, false));
    Operation::LoadHlFromSpOffset.run(&mut gb, 0xFE, 0);
    assert_eq!(gb.cpu.hl, 0xFFF8);
    assert_eq!(gb.cpu.sp, 0xFFFA);
}

#[test]
fn decimal_adjustment() {
    let none = flags(false, false, false, false);
    assert_eq!(decimal_adjust(0x3C, none), (0x42, false));
    assert_eq!(decimal_adjust(0x9A, none), (0x00, true));
    assert_eq!(decimal_adjust(0x12, flags(false, false, true, false)), (0x18, false));
    assert_eq!(decimal_adjust(0x12, flags(false, false, false, true)), (0x72, true));
    assert_eq!(decimal_adjust(0x0F, flags(false, true, true, false)), (0x09, false));
    assert_eq!(decimal_adjust(0x02, flags(false, true, true, false)), (0xFC, false));
    assert_eq!(decimal_adjust(0x10, flags(false, true, false, true)), (0xB0, true));
    let mut gb = GameBoy::new();
    gb.cpu.a = 0x45;
    Operation::Add(Operand::Immediate).run(&mut gb, 0x38, 0);
    Operation::DecimalAdjust.run(&mut gb, 0, 0);
    assert_eq!(gb.cpu.a, 0x83);
    assert_eq!(gb.cpu.flag, flags(false, false, false, false));
    Operation::Subtract(Operand::Immediate).run(&mut gb, 0x38, 0);
    Operation::DecimalAdjust.run(&mut gb, 0, 0);
    assert_eq!(gb.cpu.a, 0x45);
    assert!(gb.cpu.flag.subtract);
    assert!(!gb.cpu.flag.half_carry);
}

#[test]
fn push_then_pop_restores_every_pair() {
    let pairs = [StackPair::AF, StackPair::BC, StackPair::DE, StackPair::HL];
    for pair in pairs {
        let mut gb = GameBoy::new();
        gb.cpu.power_on();
        gb.cpu.sp = 0xD000;
        let before = gb.cpu;
        Operation::Push(pair).run(&mut gb, 0, 0);
        assert_eq!(gb.cpu.sp, 0xCFFE);
        Operation::Pop(pair).run(&mut gb, 0, 0);
        assert_eq!(gb.cpu, before);
    }
    let mut gb = GameBoy::new();
    gb.cpu.sp = 0xC000;
    gb.memory.set_byte(0xC000, 0xFF);
    gb.memory.set_byte(0xC001, 0x12);
    Operation::Pop(StackPair::AF).run(&mut gb, 0, 0);
    assert_eq!(gb.cpu.get_af(), 0x12F0);
    assert_eq!(gb.cpu.sp, 0xC002);
}

#[test]
fn push_writes_the_low_byte_at_the_lower_address() {
    let mut gb = GameBoy::new();
    gb.cpu.sp = 0xFFFE;
    gb.cpu.de = 0xBEEF;
    Operation::Push(StackPair::DE).run(&mut gb, 0, 0);
    assert_eq!(gb.cpu.sp, 0xFFFC);
    assert_eq!(gb.memory.get_byte(0xFFFC), 0xEF);
    assert_eq!(gb.memory.get_byte(0xFFFD), 0xBE);
    assert_eq!(gb.memory.get_word(0xFFFC), 0xBEEF);
}

#[test]
fn jumps_calls_and_returns() {
    let mut gb = GameBoy::new();
    gb.cpu.pc = 0x0203;
    gb.cpu.sp = 0xFFFE;
    Operation::Jump(Condition::Always).run(&mut gb, 0x34, 0x12);
    assert_eq!(gb.cpu.pc, 0x1234);
    gb.cpu.flag.zero = true;
    Operation::Jump(Condition::NotZero).run(&mut gb, 0x00, 0x80);
    assert_eq!(gb.cpu.pc, 0x1234);
    Operation::Jump(Condition::Zero).run(&mut gb, 0x00, 0x80);
    assert_eq!(gb.cpu.pc, 0x8000);
    Operation::JumpRelative(Condition::Carry).run(&mut gb, 0x10, 0);
    assert_eq!(gb.cpu.pc, 0x8000);
    Operation::JumpRelative(Condition::NotCarry).run(&mut gb, 0x10, 0);
    assert_eq!(gb.cpu.pc, 0x8010);
    Operation::Call(Condition::Always).run(&mut gb, 0x00, 0x90);
    assert_eq!(gb.cpu.pc, 0x9000);
    assert_eq!(gb.cpu.sp, 0xFFFC);
    assert_eq!(gb.memory.get_word(0xFFFC), 0x8010);
    Operation::Restart(0x28).run(&mut gb, 0, 0);
    assert_eq!(gb.cpu.pc, 0x0028);
    assert_eq!(gb.cpu.sp, 0xFFFA);
    Operation::Return(Condition::NotZero).run(&mut gb, 0, 0);
    assert_eq!(gb.cpu.pc, 0x0028);
    Operation::Return(Condition::Zero).run(&mut gb, 0, 0);
    assert_eq!(gb.cpu.pc, 0x9000);
    Operation::ReturnInterrupt.run(&mut gb, 0, 0);
    assert_eq!(gb.cpu.pc, 0x8010);
    assert_eq!(gb.cpu.sp, 0xFFFE);
    assert!(gb.cpu.interrupt_enable_master);
    Operation::DisableInterrupts.run(&mut gb, 0, 0);
    assert!(!gb.cpu.interrupt_enable_master);
    Operation::EnableInterrupts.run(&mut gb, 0, 0);
    assert!(gb.cpu.interrupt_enable_master);
    gb.cpu.hl = 0x4321;
    Operation::JumpHl.run(&mut gb, 0, 0);
    assert_eq!(gb.cpu.pc, 0x4321);
    Operation::Halt.run(&mut gb, 0, 0);
    assert!(gb.cpu.is_halted);
}

#[test]
fn loads_and_stores() {
    let mut gb = GameBoy::new();
    Operation::LoadImmediate(Reg8::B).run(&mut gb, 0x42, 0);
    Operation::Load(Reg8::A, Reg8::B).run(&mut gb, 0, 0);
    assert_eq!(gb.cpu.a, 0x42);
    Operation::LoadWord(Reg16::HL).run(&mut gb, 0x00, 0xC1);
    assert_eq!(gb.cpu.hl, 0xC100);
    Operation::StoreAAtHlIncrement.run(&mut gb, 0, 0);
    assert_eq!(gb.memory.get_byte(0xC100), 0x42);
    assert_eq!(gb.cpu.hl, 0xC101);
    Operation::StoreAAtHlDecrement.run(&mut gb, 0, 0);
    assert_eq!(gb.memory.get_byte(0xC101), 0x42);
    assert_eq!(gb.cpu.hl, 0xC100);
    gb.cpu.a = 0;
    Operation::LoadAFromHlIncrement.run(&mut gb, 0, 0);
    assert_eq!((gb.cpu.a, gb.cpu.hl), (0x42, 0xC101));
    gb.cpu.a = 0x99;
    Operation::StoreAHighImmediate.run(&mut gb, 0x80, 0);
    assert_eq!(gb.memory.get_byte(0xFF80), 0x99);
    gb.cpu.bc = 0x0081;
    Operation::StoreAHighC.run(&mut gb, 0, 0);
    assert_eq!(gb.memory.get_byte(0xFF81), 0x99);
    gb.cpu.a = 0;
    Operation::LoadAHighC.run(&mut gb, 0, 0);
    assert_eq!(gb.cpu.a, 0x99);
    gb.cpu.sp = 0xABCD;
    Operation::StoreSpAtAddress.run(&mut gb, 0x00, 0xC2);
    assert_eq!(gb.memory.get_byte(0xC200), 0xCD);
    assert_eq!(gb.memory.get_byte(0xC201), 0xAB);
    Operation::StoreAAtAddress.run(&mut gb, 0x10, 0xC2);
    Operation::LoadAFromAddress.run(&mut gb, 0x00, 0xC2);
    assert_eq!(gb.cpu.a, 0xCD);
    assert_eq!(gb.memory.get_byte(0xC210), 0x99);
    Operation::LoadSpFromHl.run(&mut gb, 0, 0);
    assert_eq!(gb.cpu.sp, gb.cpu.hl);
}

#[test]
fn single_bit_operations() {
    assert_eq!(set_bit(0x00, 7), 0x80);
    assert_eq!(set_bit(0x80, 0), 0x81);
    assert_eq!(reset_bit(0xFF, 0), 0xFE);
    assert_eq!(reset_bit(0xFF, 7), 0x7F);
    let mut gb = GameBoy::new();
    gb.cpu.a = 0x80;
    gb.cpu.flag.carry = true;
    Operation::TestBit(7, Reg8::A).run(&mut gb, 0, 0);
    assert_eq!(gb.cpu.flag, flags(false, false, true, true));
    Operation::TestBit(0, Reg8::A).run(&mut gb, 0, 0);
    assert_eq!(gb.cpu.flag, flags(true, false, true, true));
    Operation::SetBit(3, Reg8::A).run(&mut gb, 0, 0);
    assert_eq!(gb.cpu.a, 0x88);
    Operation::ResetBit(7, Reg8::A).run(&mut gb, 0, 0);
    assert_eq!(gb.cpu.a, 0x08);
    assert_eq!(gb.cpu.flag, flags(true, false, true, true));
}

#[test]
fn shifts_and_swap() {
    let mut gb = GameBoy::new();
    gb.cpu.a = 0xF1;
    Operation::Swap(Reg8::A).run(&mut gb, 0, 0);
    assert_eq!(gb.cpu.a, 0x1F);
    assert_eq!(gb.cpu.flag, flags(false, false, false, false));
    gb.cpu.a = 0x81;
    Operation::ShiftLeft(Reg8::A).run(&mut gb, 0, 0);
    assert_eq!(gb.cpu.a, 0x02);
    assert!(gb.cpu.flag.carry);
    gb.cpu.a = 0x81;
    Operation::ShiftRightKeepSign(Reg8::A).run(&mut gb, 0, 0);
    assert_eq!(gb.cpu.a, 0xC0);
    assert!(gb.cpu.flag.carry);
    gb.cpu.a = 0x81;
    Operation::ShiftRight(Reg8::A).run(&mut gb, 0, 0);
    assert_eq!(gb.cpu.a, 0x40);
    assert!(gb.cpu.flag.carry);
    gb.cpu.a = 0x01;
    Operation::ShiftRight(Reg8::A).run(&mut gb, 0, 0);
    assert_eq!(gb.cpu.flag, flags(true, false, false, true));
    gb.cpu.a = 0x80;
    Operation::RotateLeft(Reg8::A, false).run(&mut gb, 0, 0);
    assert_eq!(gb.cpu.a, 0x01);
    gb.cpu.a = 0x01;
    Operation::RotateRight(Reg8::A, false).run(&mut gb, 0, 0);
    assert_eq!(gb.cpu.a, 0x80);
}

#[test]
fn tables_hold_each_opcode_once() {
    let main = get_instruction_set();
    let extended = get_cb_instruction_set();
    assert_eq!(main.len(), 244);
    assert_eq!(extended.len(), 256);
    for i in 1..main.len() {
        assert!(main[i - 1].opcode < main[i].opcode);
    }
    for i in 0..extended.len() {
        assert_eq!(extended[i].opcode as usize, i);
    }
    for opcode in [0xCBu8, 0xD3, 0xDB, 0xDD, 0xE3, 0xE4, 0xEB, 0xEC, 0xED, 0xF4, 0xFC, 0xFD] {
        assert!(lookup_instruction(opcode).is_none());
    }
}

#[test]
fn decoding_is_repeatable() {
    let is = InstructionSet::new();
    for opcode in 0..=255u8 {
        let first = is.get_instruction(opcode).map(|i| (i.name, i.opcode, i.cycles, i.operation));
        let second = is.get_instruction(opcode).map(|i| (i.name, i.opcode, i.cycles, i.operation));
        assert_eq!(first, second);
        assert_eq!(first, lookup_instruction(opcode).map(|i| (i.name, i.opcode, i.cycles, i.operation)));
        let extended = is.get_cb_instruction(opcode).map(|i| (i.name, i.opcode, i.operand_length));
        assert_eq!(extended, lookup_cb_instruction(opcode).map(|i| (i.name, i.opcode, i.operand_length)));
        assert!(extended.is_some());
    }
}

#[test]
fn table_entries_carry_their_data() {
    let nop = lookup_instruction(0x00).unwrap();
    assert_eq!((nop.name, nop.operand_length, nop.cycles), ("NOP", 0, 4));
    assert_eq!(nop.operation, Operation::Nop);
    let stop = lookup_instruction(0x10).unwrap();
    assert_eq!((stop.name, stop.operand_length, stop.cycles), ("STOP", 1, 4));
    let load = lookup_instruction(0x36).unwrap();
    assert_eq!((load.name, load.operand_length, load.cycles), ("LD (HL),n", 1, 12));
    assert_eq!(load.operation, Operation::LoadImmediate(Reg8::MemHl));
    let store = lookup_instruction(0x08).unwrap();
    assert_eq!((store.operand_length, store.cycles), (2, 20));
    let bit = lookup_cb_instruction(0x7E).unwrap();
    assert_eq!(bit.name, "BIT 7,(HL)");
    assert_eq!(bit.operation, Operation::TestBit(7, Reg8::MemHl));
    let rst = lookup_instruction(0xFF).unwrap();
    assert_eq!(rst.operation, Operation::Restart(0x38));
    assert_eq!(rst.cycles, 32);
}
