use vstd::prelude::*;

verus! {

/// The eight 8-bit registers.
#[derive(Clone, Copy, Debug, PartialEq, Eq, Structural)]
pub enum Reg8 {
    A,
    B,
    C,
    D,
    E,
    F,
    H,
    L,
}

/// The 16-bit registers: four pairs of 8-bit registers, the first-named
/// holding the high byte, and the stack pointer, which is a cell of its own.
#[derive(Clone, Copy, Debug, PartialEq, Eq, Structural)]
pub enum Reg16 {
    AF,
    BC,
    DE,
    HL,
    SP,
}

/// The 16-bit value whose high byte is `high` and whose low byte is `low`.
pub open spec fn word(high: u8, low: u8) -> u16 {
    (high * 256 + low) as u16
}

/// The high byte of `value`.
pub open spec fn high_byte(value: u16) -> u8 {
    (value / 256) as u8
}

/// The low byte of `value`.
pub open spec fn low_byte(value: u16) -> u8 {
    (value % 256) as u8
}

/// `offset` read as a two's-complement byte and added to `base` modulo 65536.
pub open spec fn displaced(base: u16, offset: u8) -> u16 {
    if offset < 128 {
        base.wrapping_add(offset as u16)
    } else {
        base.wrapping_sub((256 - offset) as u16)
    }
}

/// Packs two bytes into a word.
pub fn make_word(high: u8, low: u8) -> (value: u16)
    ensures
        value == word(high, low),
        high_byte(value) == high,
        low_byte(value) == low,
{
    (high as u16) * 256 + (low as u16)
}

/// Splits a word into its high and low byte.
pub fn split_word(value: u16) -> (bytes: (u8, u8))
    ensures
        bytes.0 == high_byte(value),
        bytes.1 == low_byte(value),
        word(bytes.0, bytes.1) == value,
{
    ((value / 256) as u8, (value % 256) as u8)
}

/// Adds the signed displacement `offset` to `base`, wrapping modulo 65536.
pub fn displace(base: u16, offset: u8) -> (value: u16)
    ensures
        value == displaced(base, offset),
{
    if offset < 128 {
        base.wrapping_add(offset as u16)
    } else {
        base.wrapping_sub(256 - (offset as u16))
    }
}

/// Packing is a bijection between pairs of bytes and words.
pub proof fn lemma_word_bytes(high: u8, low: u8, value: u16)
    ensures
        high_byte(word(high, low)) == high,
        low_byte(word(high, low)) == low,
        word(high_byte(value), low_byte(value)) == value,
{
}

} // verus!
