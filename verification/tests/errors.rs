use mov_decoder::decode::decode_next;
use mov_decoder::error::DecodeError;
use mov_decoder::instruction::AddressingMode;
use mov_decoder::stream::InstructionByteStream;

fn failure(bytes: Vec<u8>) -> (DecodeError, usize) {
    let mut stream = InstructionByteStream::new(bytes);
    let error = decode_next(&mut stream).expect_err("the bytes hold no whole instruction");
    (error, stream.position())
}

fn truncated(available: usize, required: usize) -> DecodeError {
    DecodeError::TruncatedInstruction {
        offset: 0,
        bytes_available: available,
        bytes_required: required,
    }
}

#[test]
fn unsupported_opcode_names_the_byte() {
    assert_eq!(
        failure(vec![0x00, 0x01]),
        (DecodeError::UnsupportedOpcode { offset: 0, byte: 0x00 }, 1)
    );
    assert_eq!(
        failure(vec![0xA1, 0x00, 0x00]),
        (DecodeError::UnsupportedOpcode { offset: 0, byte: 0xA1 }, 1)
    );
    assert_eq!(
        failure(vec![0x8C, 0xD9]),
        (DecodeError::UnsupportedOpcode { offset: 0, byte: 0x8C }, 1)
    );
    assert_eq!(
        failure(vec![0xC3]),
        (DecodeError::UnsupportedOpcode { offset: 0, byte: 0xC3 }, 1)
    );
}

#[test]
fn nothing_to_decode_is_a_truncation() {
    assert_eq!(failure(Vec::new()), (truncated(0, 1), 0));
}

#[test]
fn missing_secondary_byte() {
    assert_eq!(failure(vec![0x89]), (truncated(1, 2), 1));
    assert_eq!(failure(vec![0xC7]), (truncated(1, 2), 1));
}

#[test]
fn missing_displacement() {
    assert_eq!(failure(vec![0x8B, 0x41]), (truncated(2, 3), 2));
    assert_eq!(failure(vec![0x8B, 0x81]), (truncated(2, 4), 2));
    assert_eq!(failure(vec![0x8B, 0x81, 0x01]), (truncated(3, 4), 3));
    assert_eq!(failure(vec![0x8B, 0x1E, 0x34]), (truncated(3, 4), 3));
}

#[test]
fn missing_immediate() {
    assert_eq!(failure(vec![0xB1]), (truncated(1, 2), 1));
    assert_eq!(failure(vec![0xB8]), (truncated(1, 3), 1));
    assert_eq!(failure(vec![0xB8, 0x05]), (truncated(2, 3), 2));
    assert_eq!(failure(vec![0xC6, 0x07]), (truncated(2, 3), 2));
    assert_eq!(failure(vec![0xC7, 0x07, 0x42]), (truncated(3, 4), 3));
    assert_eq!(failure(vec![0xC7, 0x86, 0x01]), (truncated(3, 6), 3));
    assert_eq!(failure(vec![0xC7, 0x86, 0x01, 0x00, 0x42]), (truncated(5, 6), 5));
    assert_eq!(failure(vec![0xC7, 0x06, 0x01, 0x00]), (truncated(4, 6), 4));
}

#[test]
fn every_proper_prefix_of_an_instruction_is_truncated() {
    let encodings: Vec<Vec<u8>> = vec![
        vec![0x89, 0xD9],
        vec![0xB8, 0x05, 0x00],
        vec![0x8B, 0x41, 0xDB],
        vec![0xC6, 0x07, 0x42],
        vec![0x8A, 0x80, 0x87, 0x13],
        vec![0xC7, 0x85, 0x85, 0x03, 0x5B, 0x01],
        vec![0xC7, 0x06, 0x34, 0x12, 0x78, 0x56],
    ];
    for encoding in encodings {
        for cut in 0..encoding.len() {
            let (error, position) = failure(encoding[..cut].to_vec());
            match error {
                DecodeError::TruncatedInstruction { offset, bytes_available, bytes_required } => {
                    assert_eq!(offset, 0);
                    assert_eq!(bytes_available, cut);
                    assert!(bytes_required > cut);
                    assert!(bytes_required <= encoding.len());
                }
                other => panic!("{other:?}"),
            }
            assert_eq!(position, cut);
        }
    }
}

#[test]
fn immediate_to_register_direct_is_not_supported() {
    assert_eq!(
        failure(vec![0xC7, 0xC0, 0x05, 0x00]),
        (
            DecodeError::UnsupportedAddressingMode {
                offset: 0,
                mode: AddressingMode::RegisterDirect
            },
            2
        )
    );
    assert_eq!(
        failure(vec![0xC6, 0xC3]),
        (
            DecodeError::UnsupportedAddressingMode {
                offset: 0,
                mode: AddressingMode::RegisterDirect
            },
            2
        )
    );
}

#[test]
fn offsets_count_from_the_start_of_the_buffer() {
    let mut stream = InstructionByteStream::new(vec![0x89, 0xD9, 0xC7, 0xC0]);
    assert!(decode_next(&mut stream).is_ok());
    let error = decode_next(&mut stream).unwrap_err();
    assert_eq!(
        error,
        DecodeError::UnsupportedAddressingMode { offset: 2, mode: AddressingMode::RegisterDirect }
    );
    assert_eq!(error.at(), 2);
}

#[test]
fn diagnostics() {
    let error = DecodeError::UnsupportedOpcode { offset: 5, byte: 0xFF };
    assert_eq!(error.at(), 5);
    assert_eq!(error.reason_text(), "unsupported opcode 111111");
    assert_eq!(error.describe(), "offset 5: unsupported opcode 111111");

    let error = DecodeError::UnsupportedOpcode { offset: 0, byte: 0x07 };
    assert_eq!(error.describe(), "offset 0: unsupported opcode 000001");

    let error = DecodeError::TruncatedInstruction {
        offset: 1234,
        bytes_available: 3,
        bytes_required: 6,
    };
    assert_eq!(error.at(), 1234);
    assert_eq!(
        error.describe(),
        "offset 1234: truncated instruction: 3 of 6 bytes available"
    );

    let error =
        DecodeError::UnsupportedAddressingMode { offset: 2, mode: AddressingMode::RegisterDirect };
    assert_eq!(error.describe(), "offset 2: unsupported addressing mode 11");
    let error =
        DecodeError::UnsupportedAddressingMode { offset: 2, mode: AddressingMode::Displacement8 };
    assert_eq!(error.reason_text(), "unsupported addressing mode 01");
}
