use mov_decoder::decode::{
    decode_immediate, decode_operand, displacement_bytes, get_effective_address, immediate_bytes,
    mov_imm_to_r_m, mov_imm_to_reg, mov_reg_mem_to_from_reg, read_address, read_signed,
};
use mov_decoder::error::DecodeError;
use mov_decoder::instruction::{AddressingMode, DisplacementWidth, Operand};
use mov_decoder::registers::{BaseExpression, OperandWidth, Register};
use mov_decoder::stream::{EndOfStream, InstructionByteStream};

#[test]
fn new_stream_starts_at_zero() {
    let stream = InstructionByteStream::new(vec![1, 2, 3]);
    assert_eq!(stream.position(), 0);
    assert_eq!(stream.len(), 3);
    assert_eq!(stream.remaining(), 3);
    assert!(stream.has_more());
}

#[test]
fn peek_does_not_move() {
    let stream = InstructionByteStream::new(vec![7, 8]);
    assert_eq!(stream.peek_byte(), Ok(7));
    assert_eq!(stream.peek_byte(), Ok(7));
    assert_eq!(stream.position(), 0);
}

#[test]
fn next_moves_by_one() {
    let mut stream = InstructionByteStream::new(vec![7, 8]);
    assert_eq!(stream.next_byte(), Ok(7));
    assert_eq!(stream.position(), 1);
    assert_eq!(stream.peek_byte(), Ok(8));
    assert_eq!(stream.next_byte(), Ok(8));
    assert_eq!(stream.position(), 2);
    assert_eq!(stream.remaining(), 0);
    assert!(!stream.has_more());
}

#[test]
fn end_of_stream_is_reported_and_nothing_moves() {
    let mut stream = InstructionByteStream::new(vec![7]);
    assert_eq!(stream.next_byte(), Ok(7));
    assert_eq!(stream.next_byte(), Err(EndOfStream));
    assert_eq!(stream.next_byte(), Err(EndOfStream));
    assert_eq!(stream.peek_byte(), Err(EndOfStream));
    assert_eq!(stream.position(), 1);
    stream.note_bounds();
    assert_eq!(stream.position(), 1);
}

#[test]
fn empty_stream_has_nothing() {
    let mut stream = InstructionByteStream::new(Vec::new());
    assert!(!stream.has_more());
    assert_eq!(stream.peek_byte(), Err(EndOfStream));
    assert_eq!(stream.next_byte(), Err(EndOfStream));
    assert_eq!(stream.position(), 0);
}

#[test]
fn address_is_little_endian() {
    let mut stream = InstructionByteStream::new(vec![0x34, 0x12, 0xFF]);
    assert_eq!(read_address(&mut stream), Ok(0x1234));
    assert_eq!(stream.position(), 2);
    assert_eq!(read_address(&mut stream), Err(EndOfStream));
    assert_eq!(stream.position(), 3);
}

#[test]
fn signed_values_by_width() {
    let mut stream = InstructionByteStream::new(vec![0xDB, 0xD4, 0xFE, 0x80]);
    assert_eq!(read_signed(&mut stream, OperandWidth::Byte), Ok(-37));
    assert_eq!(stream.position(), 1);
    assert_eq!(read_signed(&mut stream, OperandWidth::Word), Ok(-300));
    assert_eq!(stream.position(), 3);
    assert_eq!(read_signed(&mut stream, OperandWidth::Word), Err(EndOfStream));
    assert_eq!(stream.position(), 4);
    assert_eq!(read_signed(&mut stream, OperandWidth::Byte), Err(EndOfStream));
}

#[test]
fn byte_counts() {
    assert_eq!(immediate_bytes(OperandWidth::Byte), 1);
    assert_eq!(immediate_bytes(OperandWidth::Word), 2);
    for field in 0u8..8 {
        assert_eq!(displacement_bytes(AddressingMode::RegisterDirect, field), 0);
        assert_eq!(displacement_bytes(AddressingMode::Displacement8, field), 1);
        assert_eq!(displacement_bytes(AddressingMode::Displacement16, field), 2);
        let expected = if field == 6 { 2 } else { 0 };
        assert_eq!(displacement_bytes(AddressingMode::NoDisplacement, field), expected);
    }
}

#[test]
fn effective_address_reads_only_the_direct_address() {
    let mut stream = InstructionByteStream::new(vec![0x34, 0x12]);
    assert_eq!(
        get_effective_address(0b111, &mut stream),
        Ok(Operand::MemoryIndexed {
            base: BaseExpression::Bx,
            displacement: 0,
            width: DisplacementWidth::Omitted
        })
    );
    assert_eq!(stream.position(), 0);
    assert_eq!(
        get_effective_address(0b110, &mut stream),
        Ok(Operand::MemoryDirect { address: 0x1234 })
    );
    assert_eq!(stream.position(), 2);
    assert_eq!(get_effective_address(0b110, &mut stream), Err(EndOfStream));
}

#[test]
fn operand_by_mode() {
    let mut stream = InstructionByteStream::new(vec![0xFE, 0x10, 0x00]);
    assert_eq!(
        decode_operand(&mut stream, AddressingMode::RegisterDirect, 3, true),
        Ok(Operand::Register(Register::BX))
    );
    assert_eq!(
        decode_operand(&mut stream, AddressingMode::RegisterDirect, 3, false),
        Ok(Operand::Register(Register::BL))
    );
    assert_eq!(stream.position(), 0);
    assert_eq!(
        decode_operand(&mut stream, AddressingMode::Displacement8, 6, true),
        Ok(Operand::MemoryIndexed {
            base: BaseExpression::Bp,
            displacement: -2,
            width: DisplacementWidth::Bits8
        })
    );
    assert_eq!(stream.position(), 1);
    assert_eq!(
        decode_operand(&mut stream, AddressingMode::Displacement16, 0, true),
        Ok(Operand::MemoryIndexed {
            base: BaseExpression::BxSi,
            displacement: 16,
            width: DisplacementWidth::Bits16
        })
    );
    assert_eq!(stream.position(), 3);
    assert_eq!(
        decode_operand(&mut stream, AddressingMode::Displacement8, 0, true),
        Err(EndOfStream)
    );
}

#[test]
fn immediate_by_width() {
    let mut stream = InstructionByteStream::new(vec![0x80, 0x5B, 0x01]);
    assert_eq!(
        decode_immediate(&mut stream, OperandWidth::Byte),
        Ok(Operand::Immediate { value: -128, width: OperandWidth::Byte })
    );
    assert_eq!(
        decode_immediate(&mut stream, OperandWidth::Word),
        Ok(Operand::Immediate { value: 347, width: OperandWidth::Word })
    );
    assert_eq!(decode_immediate(&mut stream, OperandWidth::Byte), Err(EndOfStream));
}

#[test]
fn family_decoders_take_the_first_byte_just_read() {
    let mut stream = InstructionByteStream::new(vec![0x90, 0x89, 0xD9]);
    stream.next_byte().unwrap();
    let first = stream.next_byte().unwrap();
    let instruction = mov_reg_mem_to_from_reg(first, &mut stream).unwrap();
    assert_eq!(instruction.render(), "MOV CX, BX");
    assert_eq!(stream.position(), 3);

    let mut stream = InstructionByteStream::new(vec![0xB8, 0x05, 0x00]);
    let first = stream.next_byte().unwrap();
    let instruction = mov_imm_to_reg(first, &mut stream).unwrap();
    assert_eq!(instruction.render(), "MOV AX, 5");
    assert_eq!(instruction.destination, Operand::Register(Register::AX));

    let mut stream = InstructionByteStream::new(vec![0xC6, 0x07, 0x42]);
    let first = stream.next_byte().unwrap();
    let instruction = mov_imm_to_r_m(first, &mut stream).unwrap();
    assert_eq!(instruction.render(), "MOV [BX], BYTE 66");
    assert!(instruction.explicit_size_needed);
}

#[test]
fn family_decoders_report_the_offset_of_the_first_byte() {
    let mut stream = InstructionByteStream::new(vec![0x90, 0x90, 0x8B, 0x41]);
    stream.next_byte().unwrap();
    stream.next_byte().unwrap();
    let first = stream.next_byte().unwrap();
    assert_eq!(
        mov_reg_mem_to_from_reg(first, &mut stream),
        Err(DecodeError::TruncatedInstruction {
            offset: 2,
            bytes_available: 2,
            bytes_required: 3
        })
    );
    assert_eq!(stream.position(), 4);
}
