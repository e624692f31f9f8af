//! Decoding one instruction: what the bytes mean, and the code that
//! reads them off a stream.

use vstd::prelude::*;
use crate::error::DecodeError;
use crate::instruction::{
    mov,
    AddressingMode,
    DecodedInstruction,
    DisplacementWidth,
    Mnemonic,
    OpcodeClass,
    Operand,
};
use crate::layout::{
    addressing_mode,
    classify,
    classify_opcode,
    combine_signed,
    combine_unsigned,
    direction_bit,
    has_direction_bit,
    has_short_width_bit,
    has_width_bit,
    mode_of,
    register_bits,
    register_field,
    register_or_memory_bits,
    register_or_memory_field,
    short_register,
    short_register_field,
    short_width_bit,
    sign_extend,
    signed_byte,
    signed_word,
    unsigned_word,
    width_bit,
    DIRECT_ADDRESS_FIELD,
};
use crate::registers::{base_of, register_of, width_of, BaseExpression, OperandWidth, Register};
use crate::stream::{EndOfStream, InstructionByteStream};

verus! {

/// The number of bytes that follow the secondary byte to complete the
/// register-or-memory operand.
pub open spec fn displacement_length(mode: AddressingMode, register_or_memory: u8) -> int {
    match mode {
        AddressingMode::NoDisplacement => if register_or_memory == DIRECT_ADDRESS_FIELD {
            2
        } else {
            0
        },
        AddressingMode::Displacement8 => 1,
        AddressingMode::Displacement16 => 2,
        AddressingMode::RegisterDirect => 0,
    }
}

/// The number of bytes that an immediate of the given width takes.
pub open spec fn immediate_length(width: OperandWidth) -> int {
    match width {
        OperandWidth::Byte => 1,
        OperandWidth::Word => 2,
    }
}

/// The register-or-memory operand whose displacement bytes, if it has
/// any, start at index `at`.
pub open spec fn operand_at(
    bytes: Seq<u8>,
    at: int,
    mode: AddressingMode,
    register_or_memory: u8,
    is_word: bool,
) -> Operand {
    match mode {
        AddressingMode::RegisterDirect => Operand::Register(
            register_of(register_or_memory, is_word),
        ),
        AddressingMode::NoDisplacement => if register_or_memory == DIRECT_ADDRESS_FIELD {
            Operand::MemoryDirect { address: unsigned_word(bytes[at], bytes[at + 1]) }
        } else {
            Operand::MemoryIndexed {
                base: base_of(register_or_memory),
                displacement: 0,
                width: DisplacementWidth::Omitted,
            }
        },
        AddressingMode::Displacement8 => Operand::MemoryIndexed {
            base: base_of(register_or_memory),
            displacement: signed_byte(bytes[at]),
            width: DisplacementWidth::Bits8,
        },
        AddressingMode::Displacement16 => Operand::MemoryIndexed {
            base: base_of(register_or_memory),
            displacement: signed_word(bytes[at], bytes[at + 1]),
            width: DisplacementWidth::Bits16,
        },
    }
}

/// The signed value of the given width whose bytes start at index `at`:
/// one byte is sign-extended, two are combined low byte first.
pub open spec fn signed_at(bytes: Seq<u8>, at: int, width: OperandWidth) -> i16 {
    match width {
        OperandWidth::Byte => signed_byte(bytes[at]),
        OperandWidth::Word => signed_word(bytes[at], bytes[at + 1]),
    }
}

/// The immediate operand whose bytes start at index `at`.
pub open spec fn immediate_at(bytes: Seq<u8>, at: int, width: OperandWidth) -> Operand {
    Operand::Immediate { value: signed_at(bytes, at, width), width }
}

/// The error for an instruction that starts at `start` and needs
/// `required` bytes where the buffer has fewer left.
pub open spec fn truncated(bytes: Seq<u8>, start: int, required: int) -> DecodeError {
    DecodeError::TruncatedInstruction {
        offset: start as usize,
        bytes_available: (bytes.len() - start) as usize,
        bytes_required: required as usize,
    }
}

/// The register/memory-to/from-register move that starts at `start`,
/// with the index of the byte after it.
pub open spec fn register_memory_move_at(bytes: Seq<u8>, start: int) -> Result<
    (DecodedInstruction, int),
    DecodeError,
> {
    if bytes.len() - start < 2 {
        Err(truncated(bytes, start, 2))
    } else {
        let first = bytes[start];
        let second = bytes[start + 1];
        let mode = mode_of(second);
        let register_or_memory = register_or_memory_field(second);
        let length = 2 + displacement_length(mode, register_or_memory);
        if bytes.len() - start < length {
            Err(truncated(bytes, start, length))
        } else {
            let register = Operand::Register(
                register_of(register_field(second), width_bit(first)),
            );
            let other = operand_at(bytes, start + 2, mode, register_or_memory, width_bit(first));
            if direction_bit(first) {
                Ok((mov(register, other, false), start + length))
            } else {
                Ok((mov(other, register, false), start + length))
            }
        }
    }
}

/// The immediate-to-register move that starts at `start`, with the index
/// of the byte after it.
pub open spec fn immediate_to_register_move_at(bytes: Seq<u8>, start: int) -> Result<
    (DecodedInstruction, int),
    DecodeError,
> {
    let first = bytes[start];
    let width = width_of(short_width_bit(first));
    let length = 1 + immediate_length(width);
    if bytes.len() - start < length {
        Err(truncated(bytes, start, length))
    } else {
        let register = Operand::Register(
            register_of(short_register_field(first), short_width_bit(first)),
        );
        Ok((mov(register, immediate_at(bytes, start + 1, width), false), start + length))
    }
}

/// The immediate-to-register/memory move that starts at `start`, with
/// the index of the byte after it. The family has no register-direct
/// form.
pub open spec fn immediate_to_memory_move_at(bytes: Seq<u8>, start: int) -> Result<
    (DecodedInstruction, int),
    DecodeError,
> {
    if bytes.len() - start < 2 {
        Err(truncated(bytes, start, 2))
    } else {
        let first = bytes[start];
        let second = bytes[start + 1];
        let mode = mode_of(second);
        let register_or_memory = register_or_memory_field(second);
        let width = width_of(width_bit(first));
        let displacement = displacement_length(mode, register_or_memory);
        let length = 2 + displacement + immediate_length(width);
        if mode == AddressingMode::RegisterDirect {
            Err(DecodeError::UnsupportedAddressingMode { offset: start as usize, mode })
        } else if bytes.len() - start < length {
            Err(truncated(bytes, start, length))
        } else {
            let destination = operand_at(
                bytes,
                start + 2,
                mode,
                register_or_memory,
                width_bit(first),
            );
            let source = immediate_at(bytes, start + 2 + displacement, width);
            Ok((mov(destination, source, true), start + length))
        }
    }
}

/// The instruction that starts at index `start` of `bytes`, with the
/// index of the byte after it; or the reason why there is none.
pub open spec fn decode_at(bytes: Seq<u8>, start: int) -> Result<
    (DecodedInstruction, int),
    DecodeError,
> {
    if bytes.len() - start < 1 {
        Err(truncated(bytes, start, 1))
    } else {
        match classify(bytes[start]) {
            None => Err(
                DecodeError::UnsupportedOpcode { offset: start as usize, byte: bytes[start] },
            ),
            Some(OpcodeClass::RegisterOrMemoryToFromRegister) => register_memory_move_at(
                bytes,
                start,
            ),
            Some(OpcodeClass::ImmediateToRegister) => immediate_to_register_move_at(bytes, start),
            Some(OpcodeClass::ImmediateToRegisterOrMemory) => immediate_to_memory_move_at(
                bytes,
                start,
            ),
        }
    }
}

/// Where the cursor of a stream over `length` bytes stands after a
/// decode step has failed with `error`: behind the last byte that the
/// step has read.
pub open spec fn cursor_after_error(error: DecodeError, length: int) -> int {
    match error {
        DecodeError::UnsupportedOpcode { offset, .. } => offset + 1,
        DecodeError::TruncatedInstruction { .. } => length,
        DecodeError::UnsupportedAddressingMode { offset, .. } => offset + 2,
    }
}

/// Whether a decode step that returned `result` and left the cursor at
/// `cursor` has done what `expected` says.
pub open spec fn step_matches(
    result: Result<DecodedInstruction, DecodeError>,
    cursor: int,
    length: int,
    expected: Result<(DecodedInstruction, int), DecodeError>,
) -> bool {
    match expected {
        Ok((instruction, next)) => result == Ok::<DecodedInstruction, DecodeError>(instruction)
            && cursor == next,
        Err(error) => result == Err::<DecodedInstruction, DecodeError>(error) && cursor
            == cursor_after_error(error, length),
    }
}

/// The number of bytes that follow the secondary byte to complete the
/// register-or-memory operand.
pub fn displacement_bytes(mode: AddressingMode, register_or_memory: u8) -> (count: usize)
    ensures
        count == displacement_length(mode, register_or_memory),
{
    match mode {
        AddressingMode::NoDisplacement => if register_or_memory == DIRECT_ADDRESS_FIELD {
            2
        } else {
            0
        },
        AddressingMode::Displacement8 => 1,
        AddressingMode::Displacement16 => 2,
        AddressingMode::RegisterDirect => 0,
    }
}

/// The number of bytes that an immediate of the given width takes.
pub fn immediate_bytes(width: OperandWidth) -> (count: usize)
    ensures
        count == immediate_length(width),
{
    match width {
        OperandWidth::Byte => 1,
        OperandWidth::Word => 2,
    }
}

/// Reads a 16-bit address, low byte first. Fails, with the cursor at the
/// end of the buffer, where fewer than two bytes are left.
pub fn read_address(stream: &mut InstructionByteStream) -> (result: Result<u16, EndOfStream>)
    ensures
        final(stream).content() == old(stream).content(),
        old(stream).cursor() <= final(stream).cursor() <= old(stream).content().len(),
        result is Ok <==> old(stream).cursor() + 2 <= old(stream).content().len(),
        match result {
            Ok(address) => address == unsigned_word(
                old(stream).content()[old(stream).cursor()],
                old(stream).content()[old(stream).cursor() + 1],
            ) && final(stream).cursor() == old(stream).cursor() + 2,
            Err(_) => final(stream).cursor() == old(stream).content().len(),
        },
{
    let low: u8 = match stream.next_byte() {
        Ok(byte) => byte,
        Err(end) => {
            return Err(end);
        },
    };
    let high: u8 = match stream.next_byte() {
        Ok(byte) => byte,
        Err(end) => {
            return Err(end);
        },
    };
    Ok(combine_unsigned(low, high))
}

/// Reads a signed value of the given width: one byte, sign-extended, or
/// two bytes, low byte first. Fails, with the cursor at the end of the
/// buffer, where fewer bytes are left than the width asks for.
pub fn read_signed(stream: &mut InstructionByteStream, width: OperandWidth) -> (result: Result<
    i16,
    EndOfStream,
>)
    ensures
        final(stream).content() == old(stream).content(),
        old(stream).cursor() <= final(stream).cursor() <= old(stream).content().len(),
        result is Ok <==> old(stream).cursor() + immediate_length(width) <= old(
            stream,
        ).content().len(),
        match result {
            Ok(value) => value == signed_at(old(stream).content(), old(stream).cursor(), width)
                && final(stream).cursor() == old(stream).cursor() + immediate_length(width),
            Err(_) => final(stream).cursor() == old(stream).content().len(),
        },
{
    let low: u8 = match stream.next_byte() {
        Ok(byte) => byte,
        Err(end) => {
            return Err(end);
        },
    };
    match width {
        OperandWidth::Byte => Ok(sign_extend(low)),
        OperandWidth::Word => {
            let high: u8 = match stream.next_byte() {
                Ok(byte) => byte,
                Err(end) => {
                    return Err(end);
                },
            };
            Ok(combine_signed(low, high))
        },
    }
}

/// Resolves the register-or-memory field `r_m` of an operand without a
/// displacement: a base-register expression, or, for the reserved field,
/// the absolute address in the next two bytes.
pub fn get_effective_address(r_m: u8, stream: &mut InstructionByteStream) -> (result: Result<
    Operand,
    EndOfStream,
>)
    requires
        r_m < 8,
    ensures
        final(stream).content() == old(stream).content(),
        old(stream).cursor() <= final(stream).cursor() <= old(stream).content().len(),
        result is Ok <==> old(stream).cursor() + displacement_length(
            AddressingMode::NoDisplacement,
            r_m,
        ) <= old(stream).content().len(),
        match result {
            Ok(operand) => operand == operand_at(
                old(stream).content(),
                old(stream).cursor(),
                AddressingMode::NoDisplacement,
                r_m,
                false,
            ) && final(stream).cursor() == old(stream).cursor() + displacement_length(
                AddressingMode::NoDisplacement,
                r_m,
            ),
            Err(_) => final(stream).cursor() == old(stream).content().len(),
        },
{
    if r_m == DIRECT_ADDRESS_FIELD {
        match read_address(stream) {
            Ok(address) => Ok(Operand::MemoryDirect { address }),
            Err(end) => Err(end),
        }
    } else {
        stream.note_bounds();
        Ok(
            Operand::MemoryIndexed {
                base: BaseExpression::from_field(r_m),
                displacement: 0,
                width: DisplacementWidth::Omitted,
            },
        )
    }
}

/// Resolves the register-or-memory operand of a secondary byte, reading
/// exactly the displacement bytes that `mode` and `register_or_memory`
/// call for. Fails, with the cursor at the end of the buffer, where
/// fewer bytes are left.
pub fn decode_operand(
    stream: &mut InstructionByteStream,
    mode: AddressingMode,
    register_or_memory: u8,
    is_word: bool,
) -> (result: Result<Operand, EndOfStream>)
    requires
        register_or_memory < 8,
    ensures
        final(stream).content() == old(stream).content(),
        old(stream).cursor() <= final(stream).cursor() <= old(stream).content().len(),
        result is Ok <==> old(stream).cursor() + displacement_length(mode, register_or_memory)
            <= old(stream).content().len(),
        match result {
            Ok(operand) => operand == operand_at(
                old(stream).content(),
                old(stream).cursor(),
                mode,
                register_or_memory,
                is_word,
            ) && final(stream).cursor() == old(stream).cursor() + displacement_length(
                mode,
                register_or_memory,
            ),
            Err(_) => final(stream).cursor() == old(stream).content().len(),
        },
{
    match mode {
        AddressingMode::RegisterDirect => {
            stream.note_bounds();
            Ok(Operand::Register(Register::from_field(register_or_memory, is_word)))
        },
        AddressingMode::NoDisplacement => get_effective_address(register_or_memory, stream),
        AddressingMode::Displacement8 => match read_signed(stream, OperandWidth::Byte) {
            Ok(displacement) => Ok(
                Operand::MemoryIndexed {
                    base: BaseExpression::from_field(register_or_memory),
                    displacement,
                    width: DisplacementWidth::Bits8,
                },
            ),
            Err(end) => Err(end),
        },
        AddressingMode::Displacement16 => match read_signed(stream, OperandWidth::Word) {
            Ok(displacement) => Ok(
                Operand::MemoryIndexed {
                    base: BaseExpression::from_field(register_or_memory),
                    displacement,
                    width: DisplacementWidth::Bits16,
                },
            ),
            Err(end) => Err(end),
        },
    }
}

/// Reads an immediate operand of the given width. Fails, with the cursor
/// at the end of the buffer, where fewer bytes are left than the width
/// asks for.
pub fn decode_immediate(stream: &mut InstructionByteStream, width: OperandWidth) -> (result:
    Result<Operand, EndOfStream>)
    ensures
        final(stream).content() == old(stream).content(),
        old(stream).cursor() <= final(stream).cursor() <= old(stream).content().len(),
        result is Ok <==> old(stream).cursor() + immediate_length(width) <= old(
            stream,
        ).content().len(),
        match result {
            Ok(operand) => operand == immediate_at(
                old(stream).content(),
                old(stream).cursor(),
                width,
            ) && final(stream).cursor() == old(stream).cursor() + immediate_length(width),
            Err(_) => final(stream).cursor() == old(stream).content().len(),
        },
{
    match read_signed(stream, width) {
        Ok(value) => Ok(Operand::Immediate { value, width }),
        Err(end) => Err(end),
    }
}

/// Decodes a move between a register and a register or memory operand.
/// `byte_one` is the instruction's first byte, which the stream has just
/// handed out; the direction bit in it says which of the two operands is
/// the destination.
pub fn mov_reg_mem_to_from_reg(byte_one: u8, stream: &mut InstructionByteStream) -> (result:
    Result<DecodedInstruction, DecodeError>)
    requires
        0 < old(stream).cursor(),
        old(stream).content()[old(stream).cursor() - 1] == byte_one,
    ensures
        final(stream).content() == old(stream).content(),
        old(stream).cursor() <= final(stream).cursor() <= old(stream).content().len(),
        step_matches(
            result,
            final(stream).cursor(),
            old(stream).content().len() as int,
            register_memory_move_at(old(stream).content(), old(stream).cursor() - 1),
        ),
{
    let start: usize = stream.position() - 1;
    let bytes_available: usize = stream.len() - start;
    let destination_in_reg: bool = has_direction_bit(byte_one);
    let is_word: bool = has_width_bit(byte_one);
    let byte_two: u8 = match stream.next_byte() {
        Ok(byte) => byte,
        Err(_) => {
            return Err(
                DecodeError::TruncatedInstruction {
                    offset: start,
                    bytes_available,
                    bytes_required: 2,
                },
            );
        },
    };
    let mode: AddressingMode = addressing_mode(byte_two);
    let register: u8 = register_bits(byte_two);
    let register_memory: u8 = register_or_memory_bits(byte_two);
    let register_in_reg: Operand = Operand::Register(Register::from_field(register, is_word));
    match decode_operand(stream, mode, register_memory, is_word) {
        Err(_) => Err(
            DecodeError::TruncatedInstruction {
                offset: start,
                bytes_available,
                bytes_required: 2 + displacement_bytes(mode, register_memory),
            },
        ),
        Ok(other) => {
            if destination_in_reg {
                Ok(
                    DecodedInstruction {
                        mnemonic: Mnemonic::Mov,
                        destination: register_in_reg,
                        source: other,
                        explicit_size_needed: false,
                    },
                )
            } else {
                Ok(
                    DecodedInstruction {
                        mnemonic: Mnemonic::Mov,
                        destination: other,
                        source: register_in_reg,
                        explicit_size_needed: false,
                    },
                )
            }
        },
    }
}

/// Decodes a move of an immediate into the register that the low three
/// bits of `byte_one` name. `byte_one` is the instruction's first byte,
/// which the stream has just handed out.
pub fn mov_imm_to_reg(byte_one: u8, stream: &mut InstructionByteStream) -> (result: Result<
    DecodedInstruction,
    DecodeError,
>)
    requires
        0 < old(stream).cursor(),
        old(stream).content()[old(stream).cursor() - 1] == byte_one,
    ensures
        final(stream).content() == old(stream).content(),
        old(stream).cursor() <= final(stream).cursor() <= old(stream).content().len(),
        step_matches(
            result,
            final(stream).cursor(),
            old(stream).content().len() as int,
            immediate_to_register_move_at(old(stream).content(), old(stream).cursor() - 1),
        ),
{
    let start: usize = stream.position() - 1;
    let bytes_available: usize = stream.len() - start;
    let reg: u8 = short_register(byte_one);
    let is_word: bool = has_short_width_bit(byte_one);
    let width: OperandWidth = OperandWidth::from_bit(is_word);
    let destination: Operand = Operand::Register(Register::from_field(reg, is_word));
    match decode_immediate(stream, width) {
        Err(_) => Err(
            DecodeError::TruncatedInstruction {
                offset: start,
                bytes_available,
                bytes_required: 1 + immediate_bytes(width),
            },
        ),
        Ok(source) => Ok(
            DecodedInstruction {
                mnemonic: Mnemonic::Mov,
                destination,
                source,
                explicit_size_needed: false,
            },
        ),
    }
}

/// Decodes a move of an immediate into a memory operand. `byte_one` is
/// the instruction's first byte, which the stream has just handed out.
/// The displacement bytes come before the immediate.
pub fn mov_imm_to_r_m(byte_one: u8, stream: &mut InstructionByteStream) -> (result: Result<
    DecodedInstruction,
    DecodeError,
>)
    requires
        0 < old(stream).cursor(),
        old(stream).content()[old(stream).cursor() - 1] == byte_one,
    ensures
        final(stream).content() == old(stream).content(),
        old(stream).cursor() <= final(stream).cursor() <= old(stream).content().len(),
        step_matches(
            result,
            final(stream).cursor(),
            old(stream).content().len() as int,
            immediate_to_memory_move_at(old(stream).content(), old(stream).cursor() - 1),
        ),
{
    let start: usize = stream.position() - 1;
    let bytes_available: usize = stream.len() - start;
    let is_word: bool = has_width_bit(byte_one);
    let width: OperandWidth = OperandWidth::from_bit(is_word);
    let byte_two: u8 = match stream.next_byte() {
        Ok(byte) => byte,
        Err(_) => {
            return Err(
                DecodeError::TruncatedInstruction {
                    offset: start,
                    bytes_available,
                    bytes_required: 2,
                },
            );
        },
    };
    let mode: AddressingMode = addressing_mode(byte_two);
    let r_m: u8 = register_or_memory_bits(byte_two);
    let bytes_required: usize = 2 + displacement_bytes(mode, r_m) + immediate_bytes(width);
    match mode {
        AddressingMode::RegisterDirect => {
            return Err(DecodeError::UnsupportedAddressingMode { offset: start, mode });
        },
        _ => {},
    }
    let destination: Operand = match decode_operand(stream, mode, r_m, is_word) {
        Ok(operand) => operand,
        Err(_) => {
            return Err(
                DecodeError::TruncatedInstruction { offset: start, bytes_available, bytes_required },
            );
        },
    };
    match decode_immediate(stream, width) {
        Err(_) => Err(
            DecodeError::TruncatedInstruction { offset: start, bytes_available, bytes_required },
        ),
        Ok(source) => Ok(
            DecodedInstruction {
                mnemonic: Mnemonic::Mov,
                destination,
                source,
                explicit_size_needed: true,
            },
        ),
    }
}

/// Decodes the instruction at the cursor and moves the cursor past it.
/// On failure nothing of the instruction is handed out, and the cursor
/// stands behind the last byte that was read.
pub fn decode_next(stream: &mut InstructionByteStream) -> (result: Result<
    DecodedInstruction,
    DecodeError,
>)
    ensures
        final(stream).content() == old(stream).content(),
        old(stream).cursor() <= final(stream).cursor() <= old(stream).content().len(),
        step_matches(
            result,
            final(stream).cursor(),
            old(stream).content().len() as int,
            decode_at(old(stream).content(), old(stream).cursor()),
        ),
{
    let start: usize = stream.position();
    let byte_one: u8 = match stream.next_byte() {
        Ok(byte) => byte,
        Err(_) => {
            return Err(
                DecodeError::TruncatedInstruction {
                    offset: start,
                    bytes_available: 0,
                    bytes_required: 1,
                },
            );
        },
    };
    match classify_opcode(byte_one) {
        None => Err(DecodeError::UnsupportedOpcode { offset: start, byte: byte_one }),
        Some(OpcodeClass::RegisterOrMemoryToFromRegister) => mov_reg_mem_to_from_reg(
            byte_one,
            stream,
        ),
        Some(OpcodeClass::ImmediateToRegister) => mov_imm_to_reg(byte_one, stream),
        Some(OpcodeClass::ImmediateToRegisterOrMemory) => mov_imm_to_r_m(byte_one, stream),
    }
}

} // verus!
