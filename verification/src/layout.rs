//! The bit fields of an instruction's first two bytes, and the signed
//! values that its further bytes hold.
//!
//! The contracts read the fields arithmetically; the code masks and
//! shifts, and is proved to agree.

use vstd::prelude::*;
use crate::instruction::{AddressingMode, OpcodeClass};

verus! {

const MODE_MASK: u8 = 0b1100_0000;

const REGISTER_MASK: u8 = 0b0011_1000;

const REGISTER_OR_MEMORY_MASK: u8 = 0b0000_0111;

const FAMILY_MASK: u8 = 0b1111_1100;

const DIRECTION_MASK: u8 = 0b0000_0010;

const WIDTH_MASK: u8 = 0b0000_0001;

const SHORT_WIDTH_MASK: u8 = 0b0000_1000;

/// The register-or-memory field that, without a displacement, announces
/// an absolute address.
pub const DIRECT_ADDRESS_FIELD: u8 = 0b110;

/// The top six bits of a first byte: the instruction-family selector.
pub open spec fn family_bits(first: u8) -> u8 {
    first / 4
}

/// The family that a first byte selects, if any. Only the top six bits
/// are matched: the direction and width bits are flags of the
/// instruction. The immediate-to-register family owns four six-bit
/// patterns, since its low four bits hold a width bit and a register.
pub open spec fn classify(first: u8) -> Option<OpcodeClass> {
    let family = family_bits(first);
    if family == 0b100010 {
        Some(OpcodeClass::RegisterOrMemoryToFromRegister)
    } else if 0b101100 <= family <= 0b101111 {
        Some(OpcodeClass::ImmediateToRegister)
    } else if family == 0b110001 {
        Some(OpcodeClass::ImmediateToRegisterOrMemory)
    } else {
        None
    }
}

/// Bit 1 of the first byte: set where the register field names the
/// destination.
pub open spec fn direction_bit(first: u8) -> bool {
    (first / 2) % 2 == 1
}

/// Bit 0 of the first byte: set for word-sized operands.
pub open spec fn width_bit(first: u8) -> bool {
    first % 2 == 1
}

/// Bit 3 of the first byte, which is the width bit of the
/// immediate-to-register family.
pub open spec fn short_width_bit(first: u8) -> bool {
    (first / 8) % 2 == 1
}

/// Bits 0 to 2 of the first byte, which name the register in the
/// immediate-to-register family.
pub open spec fn short_register_field(first: u8) -> u8 {
    first % 8
}

/// The addressing mode in the top two bits of the secondary byte.
pub open spec fn mode_of(second: u8) -> AddressingMode {
    match second / 64 {
        0 => AddressingMode::NoDisplacement,
        1 => AddressingMode::Displacement8,
        2 => AddressingMode::Displacement16,
        _ => AddressingMode::RegisterDirect,
    }
}

/// The register field in bits 3 to 5 of the secondary byte.
pub open spec fn register_field(second: u8) -> u8 {
    (second / 8) % 8
}

/// The register-or-memory field in bits 0 to 2 of the secondary byte.
pub open spec fn register_or_memory_field(second: u8) -> u8 {
    second % 8
}

/// A byte read as a signed number and widened to sixteen bits.
pub open spec fn signed_byte(byte: u8) -> i16 {
    if byte < 128 {
        byte as i16
    } else {
        (byte - 256) as i16
    }
}

/// Two bytes, low one first, read as an unsigned number.
pub open spec fn unsigned_word(low: u8, high: u8) -> u16 {
    (low + 256 * high) as u16
}

/// Two bytes, low one first, read as a signed number.
pub open spec fn signed_word(low: u8, high: u8) -> i16 {
    if high < 128 {
        (low + 256 * high) as i16
    } else {
        (low + 256 * high - 65536) as i16
    }
}

/// Selects the instruction family of a first byte; `None` where the byte
/// belongs to no supported family.
pub fn classify_opcode(first: u8) -> (class: Option<OpcodeClass>)
    ensures
        class == classify(first),
{
    let family: u8 = (first & FAMILY_MASK) >> 2;
    assert(family == first / 4) by (bit_vector)
        requires
            family == (first & 0b1111_1100u8) >> 2u8,
    ;
    if family == 0b100010 {
        Some(OpcodeClass::RegisterOrMemoryToFromRegister)
    } else if 0b101100 <= family && family <= 0b101111 {
        Some(OpcodeClass::ImmediateToRegister)
    } else if family == 0b110001 {
        Some(OpcodeClass::ImmediateToRegisterOrMemory)
    } else {
        None
    }
}

/// Whether the direction bit of a first byte is set.
pub fn has_direction_bit(first: u8) -> (set: bool)
    ensures
        set == direction_bit(first),
{
    let masked: u8 = first & DIRECTION_MASK;
    assert((masked == 0b10u8) == ((first / 2) % 2 == 1)) by (bit_vector)
        requires
            masked == first & 0b0000_0010u8,
    ;
    masked == DIRECTION_MASK
}

/// Whether the width bit of a first byte is set.
pub fn has_width_bit(first: u8) -> (set: bool)
    ensures
        set == width_bit(first),
{
    let masked: u8 = first & WIDTH_MASK;
    assert((masked == 1u8) == (first % 2 == 1)) by (bit_vector)
        requires
            masked == first & 0b0000_0001u8,
    ;
    masked == WIDTH_MASK
}

/// Whether the width bit of an immediate-to-register first byte is set.
pub fn has_short_width_bit(first: u8) -> (set: bool)
    ensures
        set == short_width_bit(first),
{
    let masked: u8 = first & SHORT_WIDTH_MASK;
    assert((masked == 0b1000u8) == ((first / 8) % 2 == 1)) by (bit_vector)
        requires
            masked == first & 0b0000_1000u8,
    ;
    masked == SHORT_WIDTH_MASK
}

/// The register named by the low three bits of an immediate-to-register
/// first byte.
pub fn short_register(first: u8) -> (field: u8)
    ensures
        field == short_register_field(first),
        field < 8,
{
    let field: u8 = first & REGISTER_OR_MEMORY_MASK;
    assert(field == first % 8) by (bit_vector)
        requires
            field == first & 0b0000_0111u8,
    ;
    field
}

/// The addressing mode of a secondary byte.
pub fn addressing_mode(second: u8) -> (mode: AddressingMode)
    ensures
        mode == mode_of(second),
{
    let bits: u8 = (second & MODE_MASK) >> 6;
    assert(bits == second / 64) by (bit_vector)
        requires
            bits == (second & 0b1100_0000u8) >> 6u8,
    ;
    match bits {
        0 => AddressingMode::NoDisplacement,
        1 => AddressingMode::Displacement8,
        2 => AddressingMode::Displacement16,
        _ => AddressingMode::RegisterDirect,
    }
}

/// The register field of a secondary byte.
pub fn register_bits(second: u8) -> (field: u8)
    ensures
        field == register_field(second),
        field < 8,
{
    let field: u8 = (second & REGISTER_MASK) >> 3;
    assert(field == (second / 8) % 8) by (bit_vector)
        requires
            field == (second & 0b0011_1000u8) >> 3u8,
    ;
    field
}

/// The register-or-memory field of a secondary byte.
pub fn register_or_memory_bits(second: u8) -> (field: u8)
    ensures
        field == register_or_memory_field(second),
        field < 8,
{
    let field: u8 = second & REGISTER_OR_MEMORY_MASK;
    assert(field == second % 8) by (bit_vector)
        requires
            field == second & 0b0000_0111u8,
    ;
    field
}

/// Reads one byte as a signed number, widened to sixteen bits.
pub fn sign_extend(byte: u8) -> (value: i16)
    ensures
        value == signed_byte(byte),
        -128 <= value <= 127,
{
    if byte < 128 {
        byte as i16
    } else {
        (byte as i16) - 256
    }
}

/// Combines two bytes, low one first, into an unsigned number.
pub fn combine_unsigned(low: u8, high: u8) -> (value: u16)
    ensures
        value == unsigned_word(low, high),
{
    (low as u16) + 256 * (high as u16)
}

/// Combines two bytes, low one first, into a signed number.
pub fn combine_signed(low: u8, high: u8) -> (value: i16)
    ensures
        value == signed_word(low, high),
{
    if high < 128 {
        (low as i16) + 256 * (high as i16)
    } else {
        (low as i16) + 256 * ((high as i16) - 256)
    }
}

} // verus!
