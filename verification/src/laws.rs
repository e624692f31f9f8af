//! What holds of the decoder on every input.

use vstd::prelude::*;
use crate::decode::{
    decode_at,
    displacement_length,
    immediate_at,
    immediate_length,
    immediate_to_memory_move_at,
    immediate_to_register_move_at,
    operand_at,
    register_memory_move_at,
};
use crate::encoding::{
    addressable,
    encodable,
    encode,
    encode_immediate_to_memory,
    encode_immediate_to_register,
    encode_register_memory,
    field_for,
    immediate_to_memory_opcode,
    immediate_to_register_opcode,
    register_memory_opcode,
    fits,
    high_byte,
    low_byte,
    mode_for,
    secondary_byte,
    signed_bytes,
    tail_for,
};
use crate::error::DecodeError;
use crate::instruction::{mov, AddressingMode, DecodedInstruction, OpcodeClass, Operand};
use crate::layout::{
    classify,
    direction_bit,
    short_register_field,
    mode_of,
    register_field,
    register_or_memory_field,
    signed_byte,
    signed_word,
    unsigned_word,
    width_bit,
    short_width_bit,
    DIRECT_ADDRESS_FIELD,
};
use crate::registers::{base_of, register_of, width_of, BaseExpression, OperandWidth, Register};
use crate::render::{direct, displaced, instruction_text, operand_text};
use crate::text::decimal_digits;

verus! {

/// Every register is found again by its field and its width.
pub proof fn lemma_register_lookup_inverts_field(register: Register)
    ensures
        register.field() < 8,
        register_of(register.field(), register.width().is_word()) == register,
{
}

/// Every base expression is found again by its field.
pub proof fn lemma_base_lookup_inverts_field(base: BaseExpression)
    ensures
        base.field() < 8,
        base_of(base.field()) == base,
{
}

/// The three fields of a secondary byte are read back as they were put
/// in.
pub proof fn lemma_secondary_byte_fields(
    mode: AddressingMode,
    register: u8,
    register_or_memory: u8,
)
    requires
        register < 8,
        register_or_memory < 8,
    ensures
        mode_of(secondary_byte(mode, register, register_or_memory)) == mode,
        register_field(secondary_byte(mode, register, register_or_memory)) == register,
        register_or_memory_field(secondary_byte(mode, register, register_or_memory))
            == register_or_memory,
{
}

/// A signed value is read back from its bytes.
pub proof fn lemma_signed_value_round_trip(value: i16)
    ensures
        signed_word(low_byte(value as int), high_byte(value as int)) == value,
        -128 <= value <= 127 ==> signed_byte(low_byte(value as int)) == value,
{
}

/// An address is read back from its bytes.
pub proof fn lemma_address_round_trip(address: u16)
    ensures
        unsigned_word(low_byte(address as int), high_byte(address as int)) == address,
{
}

/// An operand is read back from the bytes that encode it.
pub proof fn lemma_operand_round_trip(bytes: Seq<u8>, at: int, operand: Operand, is_word: bool)
    requires
        addressable(operand),
        operand matches Operand::Register(register) ==> register.width().is_word() == is_word,
        0 <= at,
        at + tail_for(operand).len() <= bytes.len(),
        bytes.subrange(at, at + tail_for(operand).len()) == tail_for(operand),
    ensures
        field_for(operand) < 8,
        displacement_length(mode_for(operand), field_for(operand)) == tail_for(operand).len(),
        operand_at(bytes, at, mode_for(operand), field_for(operand), is_word) == operand,
{
    let tail = tail_for(operand);
    let part = bytes.subrange(at, at + tail.len());
    match operand {
        Operand::Register(register) => {
            lemma_register_lookup_inverts_field(register);
        },
        Operand::MemoryDirect { address } => {
            lemma_address_round_trip(address);
            assert(part[0] == bytes[at] && part[1] == bytes[at + 1]);
        },
        Operand::MemoryIndexed { base, displacement, width } => {
            lemma_base_lookup_inverts_field(base);
            lemma_signed_value_round_trip(displacement);
            if tail.len() >= 1 {
                assert(part[0] == bytes[at]);
            }
            if tail.len() >= 2 {
                assert(part[1] == bytes[at + 1]);
            }
        },
        Operand::Immediate { .. } => {},
    }
}

/// An immediate is read back from the bytes that encode it.
pub proof fn lemma_immediate_round_trip(bytes: Seq<u8>, at: int, value: i16, width: OperandWidth)
    requires
        fits(value, width),
        0 <= at,
        at + immediate_length(width) <= bytes.len(),
        bytes.subrange(at, at + immediate_length(width)) == signed_bytes(value, width),
    ensures
        signed_bytes(value, width).len() == immediate_length(width),
        immediate_at(bytes, at, width) == (Operand::Immediate { value, width }),
{
    let part = bytes.subrange(at, at + immediate_length(width));
    lemma_signed_value_round_trip(value);
    assert(part[0] == bytes[at]);
    if width == OperandWidth::Word {
        assert(part[1] == bytes[at + 1]);
    }
}

/// The first byte of each family is classified as that family, and its
/// flag bits are read back as they were put in.
pub proof fn lemma_opcode_fields(flag: bool, is_word: bool, register: u8)
    requires
        register < 8,
    ensures
        classify(register_memory_opcode(flag, is_word)) == Some(
            OpcodeClass::RegisterOrMemoryToFromRegister,
        ),
        direction_bit(register_memory_opcode(flag, is_word)) == flag,
        width_bit(register_memory_opcode(flag, is_word)) == is_word,
        classify(immediate_to_register_opcode(is_word, register)) == Some(
            OpcodeClass::ImmediateToRegister,
        ),
        short_width_bit(immediate_to_register_opcode(is_word, register)) == is_word,
        short_register_field(immediate_to_register_opcode(is_word, register)) == register,
        classify(immediate_to_memory_opcode(is_word)) == Some(
            OpcodeClass::ImmediateToRegisterOrMemory,
        ),
        width_bit(immediate_to_memory_opcode(is_word)) == is_word,
{
}

/// Decoding undoes the encoding of a move between a register and a
/// register or memory operand.
pub proof fn lemma_register_memory_round_trip(
    register: Register,
    other: Operand,
    to_register: bool,
    before: Seq<u8>,
    after: Seq<u8>,
)
    requires
        addressable(other),
        other matches Operand::Register(second) ==> second.width() == register.width(),
    ensures
        register_memory_move_at(
            before + encode_register_memory(register, other, to_register) + after,
            before.len() as int,
        ) == Ok::<(DecodedInstruction, int), DecodeError>(
            (
                if to_register {
                    mov(Operand::Register(register), other, false)
                } else {
                    mov(other, Operand::Register(register), false)
                },
                (before.len() + encode_register_memory(register, other, to_register).len()) as int,
            ),
        ),
        classify(
            (before + encode_register_memory(register, other, to_register) + after)[before.len() as int],
        ) == Some(OpcodeClass::RegisterOrMemoryToFromRegister),
{
    let code = encode_register_memory(register, other, to_register);
    let bytes = before + code + after;
    let start = before.len() as int;
    let tail = tail_for(other);
    let is_word = register.width().is_word();
    lemma_register_lookup_inverts_field(register);
    lemma_opcode_fields(to_register, is_word, 0);
    assert(bytes[start] == code[0]);
    assert(bytes[start + 1] == code[1]);
    assert(bytes.subrange(start + 2, start + 2 + tail.len()) =~= tail);
    lemma_operand_round_trip(bytes, start + 2, other, is_word);
    lemma_secondary_byte_fields(mode_for(other), register.field(), field_for(other));
}

/// Decoding undoes the encoding of a move of an immediate into a
/// register.
pub proof fn lemma_immediate_to_register_round_trip(
    register: Register,
    value: i16,
    width: OperandWidth,
    before: Seq<u8>,
    after: Seq<u8>,
)
    requires
        fits(value, width),
        register.width() == width,
    ensures
        immediate_to_register_move_at(
            before + encode_immediate_to_register(register, value, width) + after,
            before.len() as int,
        ) == Ok::<(DecodedInstruction, int), DecodeError>(
            (
                mov(Operand::Register(register), Operand::Immediate { value, width }, false),
                (before.len() + encode_immediate_to_register(register, value, width).len()) as int,
            ),
        ),
        classify(
            (before + encode_immediate_to_register(register, value, width) + after)[before.len() as int],
        ) == Some(OpcodeClass::ImmediateToRegister),
{
    let code = encode_immediate_to_register(register, value, width);
    let bytes = before + code + after;
    let start = before.len() as int;
    lemma_register_lookup_inverts_field(register);
    lemma_opcode_fields(false, width.is_word(), register.field());
    assert(bytes[start] == code[0]);
    assert(bytes.subrange(start + 1, start + 1 + immediate_length(width)) =~= signed_bytes(
        value,
        width,
    ));
    lemma_immediate_round_trip(bytes, start + 1, value, width);
}

/// Decoding undoes the encoding of a move of an immediate into memory.
pub proof fn lemma_immediate_to_memory_round_trip(
    memory: Operand,
    value: i16,
    width: OperandWidth,
    before: Seq<u8>,
    after: Seq<u8>,
)
    requires
        fits(value, width),
        addressable(memory),
        !(memory is Register),
    ensures
        immediate_to_memory_move_at(
            before + encode_immediate_to_memory(memory, value, width) + after,
            before.len() as int,
        ) == Ok::<(DecodedInstruction, int), DecodeError>(
            (
                mov(memory, Operand::Immediate { value, width }, true),
                (before.len() + encode_immediate_to_memory(memory, value, width).len()) as int,
            ),
        ),
        classify(
            (before + encode_immediate_to_memory(memory, value, width) + after)[before.len() as int],
        ) == Some(OpcodeClass::ImmediateToRegisterOrMemory),
{
    let code = encode_immediate_to_memory(memory, value, width);
    let bytes = before + code + after;
    let start = before.len() as int;
    let tail = tail_for(memory);
    lemma_opcode_fields(false, width.is_word(), 0);
    assert(bytes[start] == code[0]);
    assert(bytes[start + 1] == code[1]);
    assert(bytes.subrange(start + 2, start + 2 + tail.len()) =~= tail);
    lemma_operand_round_trip(bytes, start + 2, memory, width.is_word());
    lemma_secondary_byte_fields(mode_for(memory), 0, field_for(memory));
    assert(bytes.subrange(
        start + 2 + tail.len(),
        start + 2 + tail.len() + immediate_length(width),
    ) =~= signed_bytes(value, width));
    lemma_immediate_round_trip(bytes, start + 2 + tail.len(), value, width);
}

/// Decoding undoes encoding: wherever the encoding of an instruction
/// stands in a buffer, whatever comes before and after it, the decode
/// step at its first byte gives that instruction back and ends right
/// behind its last byte. The line of text that is rendered is therefore
/// that of the instruction that was encoded.
pub proof fn lemma_decode_inverts_encode(
    instruction: DecodedInstruction,
    to_register: bool,
    before: Seq<u8>,
    after: Seq<u8>,
)
    requires
        encodable(instruction, to_register),
    ensures
        decode_at(before + encode(instruction, to_register) + after, before.len() as int) == Ok::<
            (DecodedInstruction, int),
            DecodeError,
        >((instruction, (before.len() + encode(instruction, to_register).len()) as int)),
        decode_at(before + encode(instruction, to_register) + after, before.len() as int) matches Ok(
            (decoded, _),
        ) && instruction_text(decoded) == instruction_text(instruction),
{
    match instruction.source {
        Operand::Immediate { value, width } => {
            match instruction.destination {
                Operand::Register(register) => {
                    lemma_immediate_to_register_round_trip(register, value, width, before, after);
                },
                memory => {
                    lemma_immediate_to_memory_round_trip(memory, value, width, before, after);
                },
            }
        },
        source => {
            if to_register {
                lemma_register_memory_round_trip(
                    instruction.destination->Register_0,
                    source,
                    true,
                    before,
                    after,
                );
            } else {
                lemma_register_memory_round_trip(
                    source->Register_0,
                    instruction.destination,
                    false,
                    before,
                    after,
                );
            }
        },
    }
}

/// A decode step that succeeds moves forward and ends inside the buffer,
/// and the number of bytes it takes is fixed by the family and the
/// addressing mode: two to four for a move between a register and a
/// register or memory operand, exactly two of them where both are
/// registers; two or three for an immediate into a register; three to
/// six for an immediate into memory.
pub proof fn lemma_step_length(bytes: Seq<u8>, start: int)
    requires
        0 <= start,
        decode_at(bytes, start) is Ok,
    ensures
        ({
            let next = decode_at(bytes, start)->Ok_0.1;
            let length = next - start;
            let first = bytes[start];
            let second = bytes[start + 1];
            let displacement = displacement_length(
                mode_of(second),
                register_or_memory_field(second),
            );
            &&& start < next <= bytes.len()
            &&& match classify(first) {
                Some(OpcodeClass::RegisterOrMemoryToFromRegister) => {
                    &&& length == 2 + displacement
                    &&& 2 <= length <= 4
                    &&& mode_of(second) == AddressingMode::RegisterDirect ==> length == 2
                },
                Some(OpcodeClass::ImmediateToRegister) => {
                    &&& length == 1 + immediate_length(width_of(short_width_bit(first)))
                    &&& 2 <= length <= 3
                },
                Some(OpcodeClass::ImmediateToRegisterOrMemory) => {
                    &&& length == 2 + displacement + immediate_length(width_of(width_bit(first)))
                    &&& 3 <= length <= 6
                },
                None => false,
            }
        }),
{
}

/// Where a decode step reports a truncated instruction, the buffer does
/// end before the encoding: the error names the step's own offset and
/// the bytes that are left, and asks for more than are left, at most
/// six.
pub proof fn lemma_truncated_means_short(bytes: Seq<u8>, start: int)
    requires
        0 <= start <= bytes.len() <= usize::MAX,
    ensures
        decode_at(bytes, start) matches Err(
            DecodeError::TruncatedInstruction { offset, bytes_available, bytes_required },
        ) ==> {
            &&& offset == start
            &&& bytes_available == bytes.len() - start
            &&& bytes_available < bytes_required <= 6
        },
{
}

/// A buffer that ends inside an instruction is reported as truncated:
/// if the step at `start` succeeds on `bytes`, then on every prefix of
/// `bytes` that stops before the instruction's end it fails with
/// `TruncatedInstruction`, which counts the bytes that are left and
/// asks for more, never more than the instruction has.
pub proof fn lemma_cut_short_is_truncated(bytes: Seq<u8>, start: int, cut: int)
    requires
        0 <= start <= cut,
        bytes.len() <= usize::MAX,
        decode_at(bytes, start) matches Ok((_, next)) && cut < next,
    ensures
        decode_at(bytes.subrange(0, cut), start) matches Err(
            DecodeError::TruncatedInstruction { offset, bytes_available, bytes_required },
        ) && {
            &&& offset == start
            &&& bytes_available == cut - start
            &&& cut - start < bytes_required <= decode_at(bytes, start)->Ok_0.1 - start
        },
{
    let short = bytes.subrange(0, cut);
    lemma_step_length(bytes, start);
    if cut > start {
        assert(short[start] == bytes[start]);
    }
    if cut > start + 1 {
        assert(short[start + 1] == bytes[start + 1]);
    }
}

/// A decimal numeral is never empty, holds digits only, and starts with
/// a zero only where the number is zero.
pub proof fn lemma_decimal_digits_shape(n: nat)
    ensures
        decimal_digits(n).len() >= 1,
        forall|i: int|
            0 <= i < decimal_digits(n).len() ==> '0' <= #[trigger] decimal_digits(n)[i] <= '9',
        n > 0 ==> decimal_digits(n)[0] != '0',
    decreases n,
{
    if n >= 10 {
        lemma_decimal_digits_shape(n / 10);
    }
}

/// How a displacement is written: a displacement of zero leaves nothing
/// in the text but the base between its brackets; a positive one follows
/// the base as a plus sign and its numeral; a negative one as a minus
/// sign and the numeral of its magnitude, so that no numeral in the text
/// ever carries a sign of its own.
pub proof fn lemma_displacement_text(base: Seq<char>, displacement: int)
    ensures
        displacement == 0 ==> displaced(base, displacement) == seq!['['] + base + seq![']'],
        displacement > 0 ==> displaced(base, displacement) == seq!['['] + base + seq![
            ' ',
            '+',
            ' ',
        ] + decimal_digits(displacement as nat) + seq![']'],
        displacement < 0 ==> displaced(base, displacement) == seq!['['] + base + seq![
            ' ',
            '-',
            ' ',
        ] + decimal_digits((-displacement) as nat) + seq![']'],
        displacement != 0 ==> decimal_digits(
            (if displacement < 0 {
                -displacement
            } else {
                displacement
            }) as nat,
        )[0] != '0',
{
    reveal_strlit("[");
    reveal_strlit("]");
    reveal_strlit(" + ");
    reveal_strlit(" - ");
    assert("["@ =~= seq!['[']);
    assert("]"@ =~= seq![']']);
    assert(" + "@ =~= seq![' ', '+', ' ']);
    assert(" - "@ =~= seq![' ', '-', ' ']);
    if displacement > 0 {
        lemma_decimal_digits_shape(displacement as nat);
    }
    if displacement < 0 {
        lemma_decimal_digits_shape((-displacement) as nat);
    }
}

/// The text of every base expression starts with a letter.
pub proof fn lemma_base_text_starts_with_letter(base: BaseExpression)
    ensures
        base.text().len() >= 2,
        'A' <= base.text()[0] <= 'Z',
{
    reveal_strlit("BX + SI");
    reveal_strlit("BX + DI");
    reveal_strlit("BP + SI");
    reveal_strlit("BP + DI");
    reveal_strlit("SI");
    reveal_strlit("DI");
    reveal_strlit("BP");
    reveal_strlit("BX");
}

/// The direct-address case: without a displacement mode, the reserved
/// register-or-memory field always gives the absolute address held in
/// the next two bytes, low byte first, written as a numeral between
/// brackets; and that text is the text of no base-register expression,
/// whatever its displacement.
pub proof fn lemma_direct_address(bytes: Seq<u8>, at: int, is_word: bool)
    ensures
        displacement_length(AddressingMode::NoDisplacement, DIRECT_ADDRESS_FIELD) == 2,
        operand_at(bytes, at, AddressingMode::NoDisplacement, DIRECT_ADDRESS_FIELD, is_word) == (
        Operand::MemoryDirect { address: unsigned_word(bytes[at], bytes[at + 1]) }),
        operand_text(
            operand_at(bytes, at, AddressingMode::NoDisplacement, DIRECT_ADDRESS_FIELD, is_word),
        ) == seq!['['] + decimal_digits(unsigned_word(bytes[at], bytes[at + 1]) as nat) + seq![
            ']',
        ],
        forall|base: BaseExpression, displacement: int|
            operand_text(
                operand_at(
                    bytes,
                    at,
                    AddressingMode::NoDisplacement,
                    DIRECT_ADDRESS_FIELD,
                    is_word,
                ),
            ) != #[trigger] displaced(base.text(), displacement),
{
    let address = unsigned_word(bytes[at], bytes[at + 1]);
    let text = direct(address);
    reveal_strlit("[");
    reveal_strlit("]");
    assert("["@ =~= seq!['[']);
    assert("]"@ =~= seq![']']);
    lemma_decimal_digits_shape(address as nat);
    assert(text[1] == decimal_digits(address as nat)[0]);
    assert forall|base: BaseExpression, displacement: int|
        text != #[trigger] displaced(base.text(), displacement) by {
        lemma_base_text_starts_with_letter(base);
        lemma_displacement_text(base.text(), displacement);
        assert(displaced(base.text(), displacement)[1] == base.text()[0]);
    }
}

} // verus!
