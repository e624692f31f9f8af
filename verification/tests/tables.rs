use mov_decoder::instruction::{AddressingMode, OpcodeClass};
use mov_decoder::layout::{
    addressing_mode, classify_opcode, combine_signed, combine_unsigned, has_direction_bit,
    has_short_width_bit, has_width_bit, register_bits, register_or_memory_bits, short_register,
    sign_extend,
};
use mov_decoder::registers::{
    get_disp_registers, get_reg, BaseExpression, OperandWidth, Register,
};

#[test]
fn word_registers_by_field() {
    let names = ["AX", "CX", "DX", "BX", "SP", "BP", "SI", "DI"];
    for (field, name) in names.iter().enumerate() {
        assert_eq!(get_reg(field as u8, true), *name);
    }
}

#[test]
fn byte_registers_by_field() {
    let names = ["AL", "CL", "DL", "BL", "AH", "CH", "DH", "BH"];
    for (field, name) in names.iter().enumerate() {
        assert_eq!(get_reg(field as u8, false), *name);
    }
}

#[test]
fn field_seven_is_bh_and_field_six_is_dh() {
    assert_eq!(get_reg(0b111, false), "BH");
    assert_eq!(get_reg(0b110, false), "DH");
    assert_eq!(Register::from_field(0b111, false), Register::BH);
    assert_eq!(Register::from_field(0b111, true), Register::DI);
}

#[test]
fn base_expressions_by_field() {
    let texts = ["BX + SI", "BX + DI", "BP + SI", "BP + DI", "SI", "DI", "BP", "BX"];
    for (field, text) in texts.iter().enumerate() {
        assert_eq!(get_disp_registers(field as u8), *text);
    }
    assert_eq!(BaseExpression::from_field(6), BaseExpression::Bp);
    assert_eq!(BaseExpression::from_field(1).as_text(), "BX + DI");
}

#[test]
fn register_names_are_upper_case() {
    for field in 0u8..8 {
        for wide in [false, true] {
            let name = Register::from_field(field, wide).name_text();
            assert_eq!(name.len(), 2);
            assert!(name.chars().all(|c| c.is_ascii_uppercase()));
        }
    }
}

#[test]
fn width_keywords() {
    assert_eq!(OperandWidth::from_bit(false), OperandWidth::Byte);
    assert_eq!(OperandWidth::from_bit(true), OperandWidth::Word);
    assert_eq!(OperandWidth::Byte.keyword_text(), "BYTE");
    assert_eq!(OperandWidth::Word.keyword_text(), "WORD");
}

#[test]
fn every_first_byte_is_classified_by_its_top_six_bits() {
    for byte in 0u8..=255 {
        let expected = match byte {
            0x88..=0x8B => Some(OpcodeClass::RegisterOrMemoryToFromRegister),
            0xB0..=0xBF => Some(OpcodeClass::ImmediateToRegister),
            0xC4..=0xC7 => Some(OpcodeClass::ImmediateToRegisterOrMemory),
            _ => None,
        };
        assert_eq!(classify_opcode(byte), expected, "byte {byte:#04x}");
    }
}

#[test]
fn flag_bits_of_the_first_byte() {
    assert!(!has_direction_bit(0x88));
    assert!(!has_direction_bit(0x89));
    assert!(has_direction_bit(0x8A));
    assert!(has_direction_bit(0x8B));
    assert!(!has_width_bit(0x88));
    assert!(has_width_bit(0x89));
    assert!(!has_width_bit(0xC6));
    assert!(has_width_bit(0xC7));
    assert!(!has_short_width_bit(0xB7));
    assert!(has_short_width_bit(0xB8));
    assert_eq!(short_register(0xB8), 0);
    assert_eq!(short_register(0xBF), 7);
    assert_eq!(short_register(0xB3), 3);
}

#[test]
fn fields_of_the_secondary_byte() {
    assert_eq!(addressing_mode(0x00), AddressingMode::NoDisplacement);
    assert_eq!(addressing_mode(0x3F), AddressingMode::NoDisplacement);
    assert_eq!(addressing_mode(0x41), AddressingMode::Displacement8);
    assert_eq!(addressing_mode(0x80), AddressingMode::Displacement16);
    assert_eq!(addressing_mode(0xD9), AddressingMode::RegisterDirect);
    assert_eq!(register_bits(0xD9), 0b011);
    assert_eq!(register_or_memory_bits(0xD9), 0b001);
    assert_eq!(register_bits(0x41), 0b000);
    assert_eq!(register_or_memory_bits(0x41), 0b001);
    assert_eq!(register_bits(0xFF), 7);
    assert_eq!(register_or_memory_bits(0xFE), 6);
    assert_eq!(AddressingMode::Displacement16.code(), 2);
    assert_eq!(AddressingMode::RegisterDirect.code(), 3);
}

#[test]
fn signed_values() {
    assert_eq!(sign_extend(0x00), 0);
    assert_eq!(sign_extend(0x7F), 127);
    assert_eq!(sign_extend(0x80), -128);
    assert_eq!(sign_extend(0xDB), -37);
    assert_eq!(sign_extend(0xFF), -1);
    assert_eq!(combine_signed(0x05, 0x00), 5);
    assert_eq!(combine_signed(0xFF, 0x7F), 32767);
    assert_eq!(combine_signed(0x00, 0x80), -32768);
    assert_eq!(combine_signed(0xD4, 0xFE), -300);
    assert_eq!(combine_signed(0xFF, 0xFF), -1);
    assert_eq!(combine_unsigned(0x34, 0x12), 0x1234);
    assert_eq!(combine_unsigned(0xFF, 0xFF), 65535);
    assert_eq!(combine_unsigned(0x00, 0x80), 32768);
}

#[test]
fn signed_values_agree_with_the_machine() {
    for byte in 0u8..=255 {
        assert_eq!(sign_extend(byte), byte as i8 as i16);
    }
    for high in 0u8..=255 {
        for low in [0u8, 1, 0x7F, 0x80, 0xFF] {
            assert_eq!(combine_signed(low, high), i16::from_le_bytes([low, high]));
            assert_eq!(combine_unsigned(low, high), u16::from_le_bytes([low, high]));
        }
    }
}
