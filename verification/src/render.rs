//! Assembly text for operands and instructions.

use vstd::prelude::*;
use crate::instruction::{DecodedInstruction, Operand};
use crate::text::{decimal_digits, push_decimal, push_signed_decimal, signed_decimal_digits};

verus! {

/// A bracketed memory expression: `base` alone where the displacement is
/// zero; otherwise `base`, a sign between two spaces, and the magnitude
/// of the displacement.
pub open spec fn displaced(base: Seq<char>, displacement: int) -> Seq<char> {
    if displacement == 0 {
        "["@ + base + "]"@
    } else if displacement > 0 {
        "["@ + base + " + "@ + decimal_digits(displacement as nat) + "]"@
    } else {
        "["@ + base + " - "@ + decimal_digits((-displacement) as nat) + "]"@
    }
}

/// A bracketed absolute address.
pub open spec fn direct(address: u16) -> Seq<char> {
    "["@ + decimal_digits(address as nat) + "]"@
}

/// The text of one operand. An immediate is its plain signed numeral.
pub open spec fn operand_text(operand: Operand) -> Seq<char> {
    match operand {
        Operand::Register(register) => register.name(),
        Operand::MemoryDirect { address } => direct(address),
        Operand::MemoryIndexed { base, displacement, .. } => displaced(
            base.text(),
            displacement as int,
        ),
        Operand::Immediate { value, .. } => signed_decimal_digits(value as int),
    }
}

/// The text of an instruction's source: that of the operand, with the
/// size keyword and a space before it where the source is an immediate
/// and the instruction asks for an explicit size.
pub open spec fn source_text(instruction: DecodedInstruction) -> Seq<char> {
    match instruction.source {
        Operand::Immediate { value, width } => if instruction.explicit_size_needed {
            width.keyword() + " "@ + signed_decimal_digits(value as int)
        } else {
            signed_decimal_digits(value as int)
        },
        other => operand_text(other),
    }
}

/// One line of assembly: the mnemonic, the destination, a comma, the
/// source.
pub open spec fn instruction_text(instruction: DecodedInstruction) -> Seq<char> {
    instruction.mnemonic.name() + " "@ + operand_text(instruction.destination) + ", "@
        + source_text(instruction)
}

/// The memory expression at `register` displaced by `displacement`.
pub fn get_disp_word(register: &str, displacement: i16) -> (text: String)
    ensures
        text@ == displaced(register@, displacement as int),
{
    let mut text: String = String::from_str("[");
    text.append(register);
    if displacement > 0 {
        text.append(" + ");
        push_decimal(&mut text, displacement as u64);
    } else if displacement < 0 {
        let magnitude: i32 = -(displacement as i32);
        text.append(" - ");
        push_decimal(&mut text, magnitude as u64);
    }
    text.append("]");
    text
}

/// The memory expression at `register` displaced by the 8-bit
/// `displacement`.
pub fn get_disp_byte(register: &str, displacement: i8) -> (text: String)
    ensures
        text@ == displaced(register@, displacement as int),
{
    get_disp_word(register, displacement as i16)
}

impl Operand {
    /// The operand as assembly text.
    pub fn render(&self) -> (text: String)
        ensures
            text@ == operand_text(*self),
    {
        match self {
            Operand::Register(register) => String::from_str(register.name_text()),
            Operand::MemoryDirect { address } => {
                let mut text: String = String::from_str("[");
                push_decimal(&mut text, *address as u64);
                text.append("]");
                text
            },
            Operand::MemoryIndexed { base, displacement, .. } => get_disp_word(
                base.as_text(),
                *displacement,
            ),
            Operand::Immediate { value, .. } => {
                let mut text: String = String::new();
                push_signed_decimal(&mut text, *value as i64);
                text
            },
        }
    }
}

impl DecodedInstruction {
    /// The source operand as assembly text, size keyword included where
    /// the instruction asks for one.
    pub fn render_source(&self) -> (text: String)
        ensures
            text@ == source_text(*self),
    {
        match self.source {
            Operand::Immediate { value, width } => {
                let mut text: String = String::new();
                if self.explicit_size_needed {
                    text.append(width.keyword_text());
                    text.append(" ");
                }
                push_signed_decimal(&mut text, value as i64);
                text
            },
            other => other.render(),
        }
    }

    /// The instruction as one line of assembly text.
    pub fn render(&self) -> (text: String)
        ensures
            text@ == instruction_text(*self),
    {
        let destination: String = self.destination.render();
        let source: String = self.render_source();
        let mut text: String = String::from_str(self.mnemonic.name_text());
        text.append(" ");
        text.append(destination.as_str());
        text.append(", ");
        text.append(source.as_str());
        text
    }
}

} // verus!
