//! Why a decode step failed.

use vstd::prelude::*;
use crate::instruction::AddressingMode;
use crate::layout::family_bits;
use crate::text::{binary_digits, decimal_digits, push_binary, push_decimal};

verus! {

/// The ways in which decoding one instruction can fail. `offset` is in
/// every case the index of the instruction's first byte.
#[derive(Clone, Copy, Debug, PartialEq, Eq, Structural)]
pub enum DecodeError {
    /// The first byte belongs to no known instruction family.
    UnsupportedOpcode { offset: usize, byte: u8 },
    /// The buffer ends before the encoding does. `bytes_available` counts
    /// from the instruction's first byte to the end of the buffer;
    /// `bytes_required` is the length that the bytes which could be read
    /// call for.
    TruncatedInstruction { offset: usize, bytes_available: usize, bytes_required: usize },
    /// The family has no form for this addressing mode.
    UnsupportedAddressingMode { offset: usize, mode: AddressingMode },
}

impl DecodeError {
    /// The index of the first byte of the instruction that failed.
    pub open spec fn offset(self) -> usize {
        match self {
            DecodeError::UnsupportedOpcode { offset, .. } => offset,
            DecodeError::TruncatedInstruction { offset, .. } => offset,
            DecodeError::UnsupportedAddressingMode { offset, .. } => offset,
        }
    }

    /// What went wrong, without the place: the family bits that matched
    /// nothing, the byte counts, or the mode bits.
    pub open spec fn reason(self) -> Seq<char> {
        match self {
            DecodeError::UnsupportedOpcode { byte, .. } => "unsupported opcode "@ + binary_digits(
                family_bits(byte) as nat,
                6,
            ),
            DecodeError::TruncatedInstruction {
                bytes_available,
                bytes_required,
                ..
            } => "truncated instruction: "@ + decimal_digits(bytes_available as nat)
                + " of "@ + decimal_digits(bytes_required as nat) + " bytes available"@,
            DecodeError::UnsupportedAddressingMode {
                mode,
                ..
            } => "unsupported addressing mode "@ + binary_digits(mode.bits() as nat, 2),
        }
    }

    /// The diagnostic for this error: the offset, then the reason.
    pub open spec fn description(self) -> Seq<char> {
        "offset "@ + decimal_digits(self.offset() as nat) + ": "@ + self.reason()
    }

    /// What went wrong, as text.
    pub fn reason_text(&self) -> (text: String)
        ensures
            text@ == self.reason(),
    {
        match self {
            DecodeError::UnsupportedOpcode { byte, .. } => {
                let mut text: String = String::from_str("unsupported opcode ");
                push_binary(&mut text, *byte / 4, 6);
                text
            },
            DecodeError::TruncatedInstruction { bytes_available, bytes_required, .. } => {
                let mut text: String = String::from_str("truncated instruction: ");
                push_decimal(&mut text, *bytes_available as u64);
                text.append(" of ");
                push_decimal(&mut text, *bytes_required as u64);
                text.append(" bytes available");
                text
            },
            DecodeError::UnsupportedAddressingMode { mode, .. } => {
                let mut text: String = String::from_str("unsupported addressing mode ");
                push_binary(&mut text, mode.code(), 2);
                text
            },
        }
    }

    /// The diagnostic for this error, as text.
    pub fn describe(&self) -> (text: String)
        ensures
            text@ == self.description(),
    {
        let reason: String = self.reason_text();
        let mut text: String = String::from_str("offset ");
        push_decimal(&mut text, self.at() as u64);
        text.append(": ");
        text.append(reason.as_str());
        text
    }

    /// The index of the first byte of the instruction that failed.
    pub fn at(&self) -> (offset: usize)
        ensures
            offset == self.offset(),
    {
        match self {
            DecodeError::UnsupportedOpcode { offset, .. } => *offset,
            DecodeError::TruncatedInstruction { offset, .. } => *offset,
            DecodeError::UnsupportedAddressingMode { offset, .. } => *offset,
        }
    }
}

} // verus!
