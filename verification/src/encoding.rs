//! The bytes that stand for an instruction. Nothing here runs: this is
//! the yardstick that the decoder is measured against.

use vstd::prelude::*;
use crate::instruction::{AddressingMode, DecodedInstruction, DisplacementWidth, Operand};
use crate::layout::DIRECT_ADDRESS_FIELD;
use crate::registers::{BaseExpression, OperandWidth, Register};

verus! {

/// The low byte of a value in two's complement.
pub open spec fn low_byte(value: int) -> u8 {
    (value % 256) as u8
}

/// The second byte of a value in two's complement.
pub open spec fn high_byte(value: int) -> u8 {
    ((value / 256) % 256) as u8
}

/// The bytes of a signed value at the given width, low byte first.
pub open spec fn signed_bytes(value: i16, width: OperandWidth) -> Seq<u8> {
    match width {
        OperandWidth::Byte => seq![low_byte(value as int)],
        OperandWidth::Word => seq![low_byte(value as int), high_byte(value as int)],
    }
}

/// Whether a signed value can be written at the given width.
pub open spec fn fits(value: i16, width: OperandWidth) -> bool {
    width == OperandWidth::Byte ==> -128 <= value <= 127
}

/// Whether an operand can stand in the register-or-memory place of a
/// secondary byte. A memory operand without displacement bytes has a
/// zero displacement and is not anchored at `BP` alone, whose field then
/// means an absolute address; one with a single displacement byte has a
/// displacement that fits it.
pub open spec fn addressable(operand: Operand) -> bool {
    match operand {
        Operand::Register(_) => true,
        Operand::MemoryDirect { .. } => true,
        Operand::MemoryIndexed { base, displacement, width } => match width {
            DisplacementWidth::Omitted => displacement == 0 && base != BaseExpression::Bp,
            DisplacementWidth::Bits8 => -128 <= displacement <= 127,
            DisplacementWidth::Bits16 => true,
        },
        Operand::Immediate { .. } => false,
    }
}

/// The addressing mode that encodes an operand.
pub open spec fn mode_for(operand: Operand) -> AddressingMode {
    match operand {
        Operand::MemoryIndexed { width: DisplacementWidth::Bits8, .. } => AddressingMode::Displacement8,
        Operand::MemoryIndexed {
            width: DisplacementWidth::Bits16,
            ..
        } => AddressingMode::Displacement16,
        Operand::Register(_) => AddressingMode::RegisterDirect,
        _ => AddressingMode::NoDisplacement,
    }
}

/// The register-or-memory field that encodes an operand.
pub open spec fn field_for(operand: Operand) -> u8 {
    match operand {
        Operand::Register(register) => register.field(),
        Operand::MemoryIndexed { base, .. } => base.field(),
        _ => DIRECT_ADDRESS_FIELD,
    }
}

/// The bytes that follow the secondary byte to complete an operand.
pub open spec fn tail_for(operand: Operand) -> Seq<u8> {
    match operand {
        Operand::MemoryDirect { address } => seq![
            low_byte(address as int),
            high_byte(address as int),
        ],
        Operand::MemoryIndexed { displacement, width: DisplacementWidth::Bits8, .. } => signed_bytes(
            displacement,
            OperandWidth::Byte,
        ),
        Operand::MemoryIndexed {
            displacement,
            width: DisplacementWidth::Bits16,
            ..
        } => signed_bytes(displacement, OperandWidth::Word),
        _ => Seq::empty(),
    }
}

/// The secondary byte made of a mode, a register field and a
/// register-or-memory field.
pub open spec fn secondary_byte(mode: AddressingMode, register: u8, register_or_memory: u8) -> u8 {
    (64 * mode.bits() + 8 * register + register_or_memory) as u8
}

/// The width bit as a number.
pub open spec fn bit(set: bool) -> int {
    if set {
        1
    } else {
        0
    }
}

/// Whether an instruction has an encoding. A move between two registers
/// has two, and a move between a register and memory one; `to_register`
/// picks the one whose register field names the destination.
pub open spec fn encodable(instruction: DecodedInstruction, to_register: bool) -> bool {
    match instruction.source {
        Operand::Immediate { value, width } => fits(value, width) && match instruction.destination {
            Operand::Register(register) => !instruction.explicit_size_needed && register.width()
                == width,
            Operand::Immediate { .. } => false,
            memory => instruction.explicit_size_needed && addressable(memory),
        },
        source => !instruction.explicit_size_needed && if to_register {
            match instruction.destination {
                Operand::Register(register) => addressable(source) && (source matches Operand::Register(
                    other,
                ) ==> other.width() == register.width()),
                _ => false,
            }
        } else {
            match source {
                Operand::Register(register) => addressable(instruction.destination) && (
                instruction.destination matches Operand::Register(other) ==> other.width()
                    == register.width()),
                _ => false,
            }
        },
    }
}

/// The first byte of a move between a register and a register or memory
/// operand.
pub open spec fn register_memory_opcode(to_register: bool, is_word: bool) -> u8 {
    (0x88 + 2 * bit(to_register) + bit(is_word)) as u8
}

/// The first byte of a move of an immediate into a register.
pub open spec fn immediate_to_register_opcode(is_word: bool, register: u8) -> u8 {
    (0xB0 + 8 * bit(is_word) + register) as u8
}

/// The first byte of a move of an immediate into memory.
pub open spec fn immediate_to_memory_opcode(is_word: bool) -> u8 {
    (0xC6 + bit(is_word)) as u8
}

/// The encoding of a move between `register` and `other`; `to_register`
/// says whether the register is the destination.
pub open spec fn encode_register_memory(
    register: Register,
    other: Operand,
    to_register: bool,
) -> Seq<u8> {
    seq![
        register_memory_opcode(to_register, register.width().is_word()),
        secondary_byte(mode_for(other), register.field(), field_for(other)),
    ] + tail_for(other)
}

/// The encoding of a move of an immediate into `register`.
pub open spec fn encode_immediate_to_register(
    register: Register,
    value: i16,
    width: OperandWidth,
) -> Seq<u8> {
    seq![immediate_to_register_opcode(width.is_word(), register.field())] + signed_bytes(
        value,
        width,
    )
}

/// The encoding of a move of an immediate into `memory`: the
/// displacement bytes come before the immediate.
pub open spec fn encode_immediate_to_memory(
    memory: Operand,
    value: i16,
    width: OperandWidth,
) -> Seq<u8> {
    seq![
        immediate_to_memory_opcode(width.is_word()),
        secondary_byte(mode_for(memory), 0, field_for(memory)),
    ] + tail_for(memory) + signed_bytes(value, width)
}

/// The encoding of an instruction that has one.
pub open spec fn encode(instruction: DecodedInstruction, to_register: bool) -> Seq<u8> {
    match instruction.source {
        Operand::Immediate { value, width } => match instruction.destination {
            Operand::Register(register) => encode_immediate_to_register(register, value, width),
            memory => encode_immediate_to_memory(memory, value, width),
        },
        source => if to_register {
            match instruction.destination {
                Operand::Register(register) => encode_register_memory(register, source, true),
                _ => Seq::empty(),
            }
        } else {
            match source {
                Operand::Register(register) => encode_register_memory(
                    register,
                    instruction.destination,
                    false,
                ),
                _ => Seq::empty(),
            }
        },
    }
}

} // verus!
