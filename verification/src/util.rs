use vstd::prelude::*;
use crate::game_boy::GameBoy;

verus! {

/// Selects the source or the target of an 8-bit operation: one of the seven
/// byte registers, or the byte in memory that HL points at.
#[derive(Copy, Clone, Debug, PartialEq, Eq, Structural)]
pub enum Reg8 {
    A,
    B,
    C,
    D,
    E,
    H,
    L,
    MemHl,
}

/// Whether bit `n` of a byte is set, for `n` from 0 to 7.
pub open spec fn bit(value: u8, n: int) -> bool {
    if n == 0 {
        value % 2 == 1
    } else if n == 1 {
        (value / 2) % 2 == 1
    } else if n == 2 {
        (value / 4) % 2 == 1
    } else if n == 3 {
        (value / 8) % 2 == 1
    } else if n == 4 {
        (value / 16) % 2 == 1
    } else if n == 5 {
        (value / 32) % 2 == 1
    } else if n == 6 {
        (value / 64) % 2 == 1
    } else {
        value / 128 == 1
    }
}

/// The two's-complement reading of a byte, as a mathematical integer.
pub open spec fn signed_value(arg: u8) -> int {
    if arg < 128 {
        arg as int
    } else {
        arg - 256
    }
}

/// The high byte of a 16-bit word.
pub fn get_upper(b: u16) -> (r: u8)
    ensures
        r == b / 256,
{
    (b / 256) as u8
}

/// The low byte of a 16-bit word.
pub fn get_lower(b: u16) -> (r: u8)
    ensures
        r == b % 256,
{
    (b % 256) as u8
}

/// Replaces the high byte of `to_set` and keeps its low byte.
pub fn set_upper(to_set: &mut u16, b: u8)
    ensures
        *final(to_set) == b * 256 + *old(to_set) % 256,
{
    *to_set = (*to_set % 256) + (b as u16) * 256;
}

/// Replaces the low byte of `to_set` and keeps its high byte.
pub fn set_lower(to_set: &mut u16, b: u8)
    ensures
        *final(to_set) == (*old(to_set) / 256) * 256 + b,
{
    *to_set = (*to_set / 256) * 256 + (b as u16);
}

/// Sign-extends a byte to sixteen bits.
pub fn to_signed_word(arg: u8) -> (r: i16)
    ensures
        r == signed_value(arg),
{
    if arg < 128 {
        arg as i16
    } else {
        (arg as i16) - 256
    }
}

/// The magnitude of a signed word.
pub fn to_unsigned_word(arg: i16) -> (r: u16)
    ensures
        r == if arg < 0 { -arg } else { arg as int },
{
    if arg < 0 {
        (-(arg as i32)) as u16
    } else {
        arg as u16
    }
}

/// Joins a high byte `a1` and a low byte `a2` into one word.
pub fn concat_bytes(a1: u8, a2: u8) -> (r: u16)
    ensures
        r == a1 * 256 + a2,
{
    (a1 as u16) * 256 + (a2 as u16)
}

/// Splitting a word and joining the halves again gives the word back, and the
/// halves of a joined word are the bytes it was joined from.
pub proof fn lemma_word_bytes(w: u16, hi: u8, lo: u8)
    ensures
        (w / 256) * 256 + w % 256 == w,
        (hi * 256 + lo) / 256 == hi,
        (hi * 256 + lo) % 256 == lo,
{
}

/// Reads the byte that a register selector names.
pub fn get_reg8(gb: &GameBoy, reg: Reg8) -> (r: u8)
    requires
        gb.wf(),
    ensures
        r == gb@.reg8(reg),
{
    match reg {
        Reg8::A => gb.cpu.get_a(),
        Reg8::B => gb.cpu.get_b(),
        Reg8::C => gb.cpu.get_c(),
        Reg8::D => gb.cpu.get_d(),
        Reg8::E => gb.cpu.get_e(),
        Reg8::H => gb.cpu.get_h(),
        Reg8::L => gb.cpu.get_l(),
        Reg8::MemHl => gb.memory.get_byte(gb.cpu.hl),
    }
}

/// Stores a byte where a register selector points.
pub fn set_reg8(gb: &mut GameBoy, reg: Reg8, val: u8)
    requires
        old(gb).wf(),
    ensures
        final(gb).wf(),
        final(gb)@ == old(gb)@.with_reg8(reg, val),
{
    match reg {
        Reg8::A => gb.cpu.set_a(val),
        Reg8::B => gb.cpu.set_b(val),
        Reg8::C => gb.cpu.set_c(val),
        Reg8::D => gb.cpu.set_d(val),
        Reg8::E => gb.cpu.set_e(val),
        Reg8::H => gb.cpu.set_h(val),
        Reg8::L => gb.cpu.set_l(val),
        Reg8::MemHl => gb.memory.set_byte(gb.cpu.hl, val),
    };
}

/// Pushes a word: SP goes down by two, then the word is written at SP.
pub fn push_word(gb: &mut GameBoy, value: u16)
    requires
        old(gb).wf(),
    ensures
        final(gb).wf(),
        final(gb)@ == old(gb)@.push(value),
{
    gb.cpu.sp = gb.cpu.sp.wrapping_sub(2);
    gb.memory.set_word(gb.cpu.sp, value);
}

} // verus!
