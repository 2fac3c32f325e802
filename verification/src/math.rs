use vstd::prelude::*;
use crate::cpu::{Cpu, FlagRegister};
use crate::game_boy::{GameBoy, GameBoyView};
use crate::util::{signed_value, to_signed_word, to_unsigned_word};

verus! {

/// One if the flag is set, else zero.
pub open spec fn bit_of(flag: bool) -> int {
    if flag {
        1
    } else {
        0
    }
}

/// A byte rotated left by one bit. Bit 0 is filled with the old carry when
/// rotating through the carry, else with the bit that left at the top.
pub open spec fn spec_rotate_left(val: u8, carry_in: bool, through: bool) -> u8 {
    ((val * 2) % 256 + (if through {
        bit_of(carry_in)
    } else {
        (val / 128) as int
    })) as u8
}

/// A byte rotated right by one bit. Bit 7 is filled with the old carry when
/// rotating through the carry, else with the bit that left at the bottom.
pub open spec fn spec_rotate_right(val: u8, carry_in: bool, through: bool) -> u8 {
    (val / 2 + 128 * (if through {
        bit_of(carry_in)
    } else {
        (val % 2) as int
    })) as u8
}

/// The flags after a rotate or shift: Z from the result, N and H clear, C the
/// bit that left the register.
pub open spec fn shift_flags(result: u8, bit_out: bool) -> FlagRegister {
    FlagRegister { zero: result == 0, subtract: false, half_carry: false, carry: bit_out }
}

/// A word plus the two's-complement reading of a byte, wrapping round at
/// sixteen bits.
pub open spec fn spec_add_u16_and_i8(unsign: u16, sign: u8) -> u16 {
    ((unsign + signed_value(sign)) % 0x10000) as u16
}

/// The flags of `ADD SP,r8` and `LD HL,SP+r8`: Z and N clear, H and C the
/// carries out of bit 3 and bit 7 of the low byte plus the unsigned operand.
pub open spec fn offset_flags(unsign: u16, sign: u8) -> FlagRegister {
    FlagRegister {
        zero: false,
        subtract: false,
        half_carry: unsign % 16 + sign % 16 > 15,
        carry: unsign % 256 + sign > 255,
    }
}

impl GameBoyView {
    /// The machine with another set of flags.
    pub open spec fn with_flags(self, flag: FlagRegister) -> GameBoyView {
        self.with_cpu(Cpu { flag, ..self.cpu })
    }
}

/// Rotates `val` left by one bit and sets the flags: the bit that leaves at
/// the top becomes the carry.
pub fn rotate_left(gb: &mut GameBoy, val: u8, through: bool) -> (result: u8)
    ensures
        result == spec_rotate_left(val, old(gb).cpu.flag.carry, through),
        final(gb)@ == old(gb)@.with_flags(shift_flags(result, val >= 128)),
{
    let carry: u8 = if gb.cpu.flag.carry { 1 } else { 0 };
    let top: u8 = val / 128;
    let shifted: u8 = (val % 128) * 2;
    let result = if through { shifted + carry } else { shifted + top };
    gb.cpu.flag.subtract = false;
    gb.cpu.flag.half_carry = false;
    gb.cpu.flag.carry = top == 1;
    gb.cpu.flag.zero = result == 0;
    result
}

/// Rotates `val` right by one bit and sets the flags: the bit that leaves at
/// the bottom becomes the carry.
pub fn rotate_right(gb: &mut GameBoy, val: u8, through: bool) -> (result: u8)
    ensures
        result == spec_rotate_right(val, old(gb).cpu.flag.carry, through),
        final(gb)@ == old(gb)@.with_flags(shift_flags(result, val % 2 == 1)),
{
    let carry: u8 = if gb.cpu.flag.carry { 0x80 } else { 0 };
    let bottom: u8 = val % 2;
    let shifted: u8 = val / 2;
    let result = if through { shifted + carry } else { shifted + bottom * 0x80 };
    gb.cpu.flag.subtract = false;
    gb.cpu.flag.half_carry = false;
    gb.cpu.flag.carry = bottom == 1;
    gb.cpu.flag.zero = result == 0;
    result
}

/// Adds a signed byte to a word, wrapping round at sixteen bits.
pub fn add_u16_and_i8(unsign: u16, sign: u8) -> (result: u16)
    ensures
        result == spec_add_u16_and_i8(unsign, sign),
{
    let signed_arg = to_signed_word(sign);
    if signed_arg < 0 {
        unsign.wrapping_sub(to_unsigned_word(signed_arg))
    } else {
        unsign.wrapping_add(to_unsigned_word(signed_arg))
    }
}

/// Adds a signed byte to a word as `add_u16_and_i8` does, and sets the
/// flags from the low byte.
pub fn add_u16_and_i8_affect_flags(gb: &mut GameBoy, unsign: u16, sign: u8) -> (result: u16)
    ensures
        result == spec_add_u16_and_i8(unsign, sign),
        final(gb)@ == old(gb)@.with_flags(offset_flags(unsign, sign)),
{
    gb.cpu.flag.subtract = false;
    gb.cpu.flag.zero = false;
    gb.cpu.flag.carry = (unsign % 256) + (sign as u16) > 0xFF;
    gb.cpu.flag.half_carry = (unsign % 16) + (sign as u16 % 16) > 0xF;
    add_u16_and_i8(unsign, sign)
}

/// The sum of a word and a signed byte is the word that is congruent to the
/// mathematical sum modulo 65536: stepping forward by a byte below 128 adds
/// it, stepping by a byte from 128 up subtracts its distance from 256.
pub proof fn lemma_signed_offset(unsign: u16, sign: u8)
    ensures
        sign < 128 && unsign + sign <= 0xFFFF ==> spec_add_u16_and_i8(unsign, sign) == unsign
            + sign,
        sign < 128 && unsign + sign > 0xFFFF ==> spec_add_u16_and_i8(unsign, sign) == unsign
            + sign - 0x10000,
        sign >= 128 && unsign >= 256 - sign ==> spec_add_u16_and_i8(unsign, sign) == unsign - (256
            - sign),
        sign >= 128 && unsign < 256 - sign ==> spec_add_u16_and_i8(unsign, sign) == unsign - (256
            - sign) + 0x10000,
{
}

} // verus!
