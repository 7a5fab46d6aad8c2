//! The register file as one software interrupt sees it: what is loaded before
//! the `int` instruction, what is read back after it, and the arithmetic of
//! packing bytes and words into registers.

use vstd::prelude::*;

verus! {

/// Interrupt number of the BIOS video services.
pub const INT_VIDEO: u8 = 0x10;

/// Interrupt number of the DOS services.
pub const INT_DOS: u8 = 0x21;

/// Interrupt number of the DPMI services.
pub const INT_DPMI: u8 = 0x31;

/// Mask of the carry flag in the status byte that `lahf` stores.
pub const CF: u8 = 0x01;

/// Mask of the zero flag in the status byte that `lahf` stores.
pub const ZF: u8 = 0x40;

/// The registers loaded before an interrupt is raised.
///
/// `ax` carries the function code in its high byte and, for some services, an
/// argument in its low byte. A register that a service does not read is
/// loaded with zero; a 16-bit argument occupies the low half of its register.
#[derive(Debug, Clone, Copy, PartialEq, Eq)]
pub struct Registers {
    pub ax: u16,
    pub ebx: u32,
    pub ecx: u32,
    pub edx: u32,
}

/// The registers read back when an interrupt returns.
///
/// `flags` is the accumulator as `lahf` leaves it: the status flags are its
/// high byte, and its low byte means nothing. `ax` is the accumulator as the
/// service left it, saved before `lahf` ran. Both are captured in the same
/// step as the interrupt itself, so nothing can disturb the flags in between.
#[derive(Debug, Clone, Copy, PartialEq, Eq)]
pub struct Captured {
    pub flags: u16,
    pub ax: u16,
    pub ebx: u32,
    pub cx: u16,
    pub dx: u16,
}

/// The high byte of a 16-bit register (`AH` of `AX`).
pub open spec fn spec_high_byte(x: u16) -> u8 {
    (x / 256) as u8
}

/// The low byte of a 16-bit register (`AL` of `AX`).
pub open spec fn spec_low_byte(x: u16) -> u8 {
    (x % 256) as u8
}

/// The 16-bit register whose high byte is `high` and whose low byte is `low`.
pub open spec fn spec_pack_bytes(high: u8, low: u8) -> u16 {
    (high * 256 + low) as u16
}

/// The high half of a 32-bit value (`CX` of `CX:DX`).
pub open spec fn spec_high_word(x: u32) -> u16 {
    (x / 65536) as u16
}

/// The low half of a 32-bit value (`DX` of `CX:DX`, `BX` of `EBX`).
pub open spec fn spec_low_word(x: u32) -> u16 {
    (x % 65536) as u16
}

/// The 32-bit value whose high half is `high` and whose low half is `low`.
pub open spec fn spec_pack_words(high: u16, low: u16) -> u32 {
    (high * 65536 + low) as u32
}

/// Whether the carry flag is set in a captured flags word: bit 0 of its high
/// byte.
pub open spec fn carry_set(flags: u16) -> bool {
    spec_high_byte(flags) % 2 == 1
}

/// Whether the zero flag is set in a captured flags word: bit 6 of its high
/// byte.
pub open spec fn zero_set(flags: u16) -> bool {
    (spec_high_byte(flags) / 64) % 2 == 1
}

/// The flags word that differs from `flags` in the carry bit alone.
pub open spec fn flip_carry(flags: u16) -> u16 {
    if carry_set(flags) {
        (flags - 256) as u16
    } else {
        (flags + 256) as u16
    }
}

/// The flags word that differs from `flags` in the zero bit alone.
pub open spec fn flip_zero(flags: u16) -> u16 {
    if zero_set(flags) {
        (flags - 0x4000) as u16
    } else {
        (flags + 0x4000) as u16
    }
}

/// The captured state that differs from `c` in the carry bit alone.
pub open spec fn carry_flipped(c: Captured) -> Captured {
    Captured { flags: flip_carry(c.flags), ..c }
}

/// The captured state that differs from `c` in the zero bit alone.
pub open spec fn zero_flipped(c: Captured) -> Captured {
    Captured { flags: flip_zero(c.flags), ..c }
}

/// The high byte of a 16-bit register, by a shift.
#[inline]
#[verifier::when_used_as_spec(spec_high_byte)]
pub fn high_byte(x: u16) -> (r: u8)
    ensures
        r == spec_high_byte(x),
{
    assert(x >> 8 == x / 256) by (bit_vector);
    (x >> 8) as u8
}

/// The low byte of a 16-bit register, by a mask.
#[inline]
#[verifier::when_used_as_spec(spec_low_byte)]
pub fn low_byte(x: u16) -> (r: u8)
    ensures
        r == spec_low_byte(x),
{
    assert(x & 0xFF == x % 256) by (bit_vector);
    (x & 0xFF) as u8
}

/// Two bytes as one 16-bit register, by a shift and an OR.
#[inline]
#[verifier::when_used_as_spec(spec_pack_bytes)]
pub fn pack_bytes(high: u8, low: u8) -> (r: u16)
    ensures
        r == spec_pack_bytes(high, low),
{
    assert(((high as u16) << 8) | (low as u16) == high * 256 + low) by (bit_vector);
    ((high as u16) << 8) | (low as u16)
}

/// The high half of a 32-bit value, by a shift.
#[inline]
#[verifier::when_used_as_spec(spec_high_word)]
pub fn high_word(x: u32) -> (r: u16)
    ensures
        r == spec_high_word(x),
{
    assert(x >> 16 == x / 65536) by (bit_vector);
    (x >> 16) as u16
}

/// The low half of a 32-bit value, by a mask.
#[inline]
#[verifier::when_used_as_spec(spec_low_word)]
pub fn low_word(x: u32) -> (r: u16)
    ensures
        r == spec_low_word(x),
{
    assert(x & 0xFFFF == x % 65536) by (bit_vector);
    (x & 0xFFFF) as u16
}

/// Two 16-bit registers as one 32-bit value, by a shift and an OR.
#[inline]
#[verifier::when_used_as_spec(spec_pack_words)]
pub fn pack_words(high: u16, low: u16) -> (r: u32)
    ensures
        r == spec_pack_words(high, low),
{
    assert(((high as u32) << 16) | (low as u32) == high * 65536 + low) by (bit_vector);
    ((high as u32) << 16) | (low as u32)
}

/// Tests the carry flag of a captured flags word against `CF`.
#[inline]
pub fn carry(flags: u16) -> (r: bool)
    ensures
        r == carry_set(flags),
{
    let status: u8 = high_byte(flags);
    assert(status & 0x01 == status % 2) by (bit_vector);
    status & CF != 0
}

/// Tests the zero flag of a captured flags word against `ZF`.
#[inline]
pub fn zero(flags: u16) -> (r: bool)
    ensures
        r == zero_set(flags),
{
    let status: u8 = high_byte(flags);
    assert((status & 0x40 != 0) == ((status / 64) % 2 == 1)) by (bit_vector);
    status & ZF != 0
}

/// The linear address `p` as the 32-bit value that goes into a register.
///
/// The firmware interface is flat 32-bit: a host whose addresses are wider
/// cannot make these calls, and nothing is ever truncated to fit.
#[inline]
pub fn p32(p: usize) -> (r: u32)
    requires
        usize::BITS == 32,
    ensures
        r == p,
{
    p as u32
}

/// `p32` behind a test of the host's address width: `None` on a host whose
/// addresses are not 32 bits wide, whatever `p` is.
#[inline]
pub fn try_p32(p: usize) -> (r: Option<u32>)
    ensures
        usize::BITS == 32 ==> r == Some(p as u32) && r.unwrap() == p,
        usize::BITS != 32 ==> r is None,
{
    if usize::BITS == 32 {
        Some(p32(p))
    } else {
        None
    }
}

/// Splitting a packed 16-bit register gives back the two bytes it was packed
/// from, for every pair of bytes.
pub proof fn lemma_pack_bytes_halves(high: u8, low: u8)
    ensures
        high_byte(pack_bytes(high, low)) == high,
        low_byte(pack_bytes(high, low)) == low,
{
}

/// Packing the two bytes of a 16-bit register gives back the register.
pub proof fn lemma_split_bytes_whole(x: u16)
    ensures
        pack_bytes(high_byte(x), low_byte(x)) == x,
{
}

/// Splitting a packed 32-bit value gives back the two words it was packed
/// from, for every pair of words.
pub proof fn lemma_pack_words_halves(high: u16, low: u16)
    ensures
        high_word(pack_words(high, low)) == high,
        low_word(pack_words(high, low)) == low,
{
}

/// Packing the two halves of a 32-bit value gives back the value, over the
/// whole 32-bit range.
pub proof fn lemma_split_words_whole(x: u32)
    ensures
        pack_words(high_word(x), low_word(x)) == x,
{
}

/// The arithmetic of packing and splitting is the shift-and-OR of the
/// interrupt interface.
pub proof fn lemma_packing_is_shift_and_or(high_b: u8, low_b: u8, high_w: u16, low_w: u16)
    ensures
        pack_bytes(high_b, low_b) == ((high_b as u16) << 8) | (low_b as u16),
        pack_words(high_w, low_w) == ((high_w as u32) << 16) | (low_w as u32),
{
    assert(((high_b as u16) << 8) | (low_b as u16) == high_b * 256 + low_b) by (bit_vector);
    assert(((high_w as u32) << 16) | (low_w as u32) == high_w * 65536 + low_w) by (bit_vector);
}

/// The carry flag is the bit `0x0100` of a captured flags word and the zero
/// flag is the bit `0x4000`; no other bit takes part.
pub proof fn lemma_flags_are_single_bits(flags: u16)
    ensures
        carry_set(flags) <==> flags & 0x0100 != 0,
        zero_set(flags) <==> flags & 0x4000 != 0,
{
    assert(((flags / 256) % 2 == 1) == (flags & 0x0100 != 0)) by (bit_vector);
    assert((((flags / 256) / 64) % 2 == 1) == (flags & 0x4000 != 0)) by (bit_vector);
}

/// Both states of each flag occur: flipping the flag's bit, and nothing
/// else, changes what the test of that flag answers.
pub proof fn lemma_flip_changes_flag(flags: u16)
    ensures
        carry_set(flip_carry(flags)) != carry_set(flags),
        zero_set(flip_carry(flags)) == zero_set(flags),
        flip_carry(flags) == flags ^ 0x0100,
        zero_set(flip_zero(flags)) != zero_set(flags),
        carry_set(flip_zero(flags)) == carry_set(flags),
        flip_zero(flags) == flags ^ 0x4000,
{
    let carry_is_set = (flags / 256) % 2 == 1;
    let zero_is_set = ((flags / 256) / 64) % 2 == 1;
    assert(carry_is_set ==> flags >= 0x0100 && flags - 0x0100 == flags ^ 0x0100) by (bit_vector)
        requires
            carry_is_set == ((flags / 256) % 2 == 1),
    ;
    assert(!carry_is_set ==> flags + 0x0100 <= 0xFFFF && flags + 0x0100 == flags ^ 0x0100)
        by (bit_vector)
        requires
            carry_is_set == ((flags / 256) % 2 == 1),
    ;
    assert(zero_is_set ==> flags >= 0x4000 && flags - 0x4000 == flags ^ 0x4000) by (bit_vector)
        requires
            zero_is_set == (((flags / 256) / 64) % 2 == 1),
    ;
    assert(!zero_is_set ==> flags + 0x4000 <= 0xFFFF && flags + 0x4000 == flags ^ 0x4000)
        by (bit_vector)
        requires
            zero_is_set == (((flags / 256) / 64) % 2 == 1),
    ;
}

} // verus!
