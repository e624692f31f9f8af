//! What an instruction is once it has been decoded.

use vstd::prelude::*;
use crate::registers::{BaseExpression, OperandWidth, Register};

verus! {

/// The instruction encodings that the decoder knows.
#[derive(Clone, Copy, Debug, PartialEq, Eq, Structural)]
pub enum OpcodeClass {
    RegisterOrMemoryToFromRegister,
    ImmediateToRegister,
    ImmediateToRegisterOrMemory,
}

/// How the register-or-memory field of the secondary byte is to be read.
#[derive(Clone, Copy, Debug, PartialEq, Eq, Structural)]
pub enum AddressingMode {
    NoDisplacement,
    Displacement8,
    Displacement16,
    RegisterDirect,
}

/// How many bytes of the encoding held a memory operand's displacement.
#[derive(Clone, Copy, Debug, PartialEq, Eq, Structural)]
pub enum DisplacementWidth {
    Omitted,
    Bits8,
    Bits16,
}

/// One resolved operand.
#[allow(inconsistent_fields)]
#[derive(Clone, Copy, Debug, PartialEq, Eq, Structural)]
pub enum Operand {
    /// A register, named directly.
    Register(Register),
    /// The memory cell at an absolute address.
    MemoryDirect { address: u16 },
    /// The memory cell at a base-register expression plus a displacement.
    MemoryIndexed { base: BaseExpression, displacement: i16, width: DisplacementWidth },
    /// A literal carried in the instruction itself.
    Immediate { value: i16, width: OperandWidth },
}

/// The operation of an instruction.
#[derive(Clone, Copy, Debug, PartialEq, Eq, Structural)]
pub enum Mnemonic {
    Mov,
}

/// One decoded instruction.
#[derive(Clone, Copy, Debug, PartialEq, Eq, Structural)]
pub struct DecodedInstruction {
    pub mnemonic: Mnemonic,
    pub destination: Operand,
    pub source: Operand,
    /// Set where the destination does not show the operand size, so that
    /// the text has to spell it out before the source literal.
    pub explicit_size_needed: bool,
}

impl AddressingMode {
    /// The two mode bits that select this mode.
    pub open spec fn bits(self) -> u8 {
        match self {
            AddressingMode::NoDisplacement => 0,
            AddressingMode::Displacement8 => 1,
            AddressingMode::Displacement16 => 2,
            AddressingMode::RegisterDirect => 3,
        }
    }

    /// The two mode bits that select this mode.
    pub fn code(self) -> (bits: u8)
        ensures
            bits == self.bits(),
    {
        match self {
            AddressingMode::NoDisplacement => 0,
            AddressingMode::Displacement8 => 1,
            AddressingMode::Displacement16 => 2,
            AddressingMode::RegisterDirect => 3,
        }
    }
}

impl Mnemonic {
    /// The mnemonic as it is written in assembly text.
    pub open spec fn name(self) -> Seq<char> {
        match self {
            Mnemonic::Mov => "MOV"@,
        }
    }

    /// The mnemonic as text.
    pub fn name_text(self) -> (text: &'static str)
        ensures
            text@ == self.name(),
    {
        match self {
            Mnemonic::Mov => "MOV",
        }
    }
}

/// A move from `source` to `destination`.
pub open spec fn mov(
    destination: Operand,
    source: Operand,
    explicit_size_needed: bool,
) -> DecodedInstruction {
    DecodedInstruction { mnemonic: Mnemonic::Mov, destination, source, explicit_size_needed }
}

} // verus!
