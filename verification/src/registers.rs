//! The register name table and the effective-address table.

use vstd::prelude::*;

verus! {

/// Operand size selected by an instruction's width bit.
#[derive(Clone, Copy, Debug, PartialEq, Eq, Structural)]
pub enum OperandWidth {
    Byte,
    Word,
}

/// The sixteen general registers: eight byte-sized, eight word-sized.
#[derive(Clone, Copy, Debug, PartialEq, Eq, Structural)]
pub enum Register {
    AL,
    CL,
    DL,
    BL,
    AH,
    CH,
    DH,
    BH,
    AX,
    CX,
    DX,
    BX,
    SP,
    BP,
    SI,
    DI,
}

/// The eight base-register combinations that a memory operand can be
/// anchored at.
#[derive(Clone, Copy, Debug, PartialEq, Eq, Structural)]
pub enum BaseExpression {
    BxSi,
    BxDi,
    BpSi,
    BpDi,
    Si,
    Di,
    Bp,
    Bx,
}

/// The width that a width bit selects.
pub open spec fn width_of(is_word: bool) -> OperandWidth {
    if is_word {
        OperandWidth::Word
    } else {
        OperandWidth::Byte
    }
}

/// The register that a 3-bit field selects at the given width.
pub open spec fn register_of(field: u8, is_word: bool) -> Register
    recommends
        field < 8,
{
    if is_word {
        match field {
            0 => Register::AX,
            1 => Register::CX,
            2 => Register::DX,
            3 => Register::BX,
            4 => Register::SP,
            5 => Register::BP,
            6 => Register::SI,
            _ => Register::DI,
        }
    } else {
        match field {
            0 => Register::AL,
            1 => Register::CL,
            2 => Register::DL,
            3 => Register::BL,
            4 => Register::AH,
            5 => Register::CH,
            6 => Register::DH,
            _ => Register::BH,
        }
    }
}

/// The base-register combination that a 3-bit register-or-memory field
/// selects. Field 6 is `BP` here; without a displacement that field is
/// not looked up in this table at all, it announces an absolute address.
pub open spec fn base_of(field: u8) -> BaseExpression
    recommends
        field < 8,
{
    match field {
        0 => BaseExpression::BxSi,
        1 => BaseExpression::BxDi,
        2 => BaseExpression::BpSi,
        3 => BaseExpression::BpDi,
        4 => BaseExpression::Si,
        5 => BaseExpression::Di,
        6 => BaseExpression::Bp,
        _ => BaseExpression::Bx,
    }
}

impl OperandWidth {
    /// Whether the width bit is set for this width.
    pub open spec fn is_word(self) -> bool {
        self == OperandWidth::Word
    }

    /// The width that a width bit selects.
    pub fn from_bit(is_word: bool) -> (width: OperandWidth)
        ensures
            width == width_of(is_word),
    {
        if is_word {
            OperandWidth::Word
        } else {
            OperandWidth::Byte
        }
    }

    /// The size keyword written before a literal whose width the
    /// destination does not show.
    pub open spec fn keyword(self) -> Seq<char> {
        match self {
            OperandWidth::Byte => "BYTE"@,
            OperandWidth::Word => "WORD"@,
        }
    }

    /// The size keyword as text.
    pub fn keyword_text(self) -> (text: &'static str)
        ensures
            text@ == self.keyword(),
    {
        match self {
            OperandWidth::Byte => "BYTE",
            OperandWidth::Word => "WORD",
        }
    }
}

impl Register {
    /// The canonical upper-case mnemonic.
    pub open spec fn name(self) -> Seq<char> {
        match self {
            Register::AL => "AL"@,
            Register::CL => "CL"@,
            Register::DL => "DL"@,
            Register::BL => "BL"@,
            Register::AH => "AH"@,
            Register::CH => "CH"@,
            Register::DH => "DH"@,
            Register::BH => "BH"@,
            Register::AX => "AX"@,
            Register::CX => "CX"@,
            Register::DX => "DX"@,
            Register::BX => "BX"@,
            Register::SP => "SP"@,
            Register::BP => "BP"@,
            Register::SI => "SI"@,
            Register::DI => "DI"@,
        }
    }

    /// The register's width.
    pub open spec fn width(self) -> OperandWidth {
        match self {
            Register::AL
            | Register::CL
            | Register::DL
            | Register::BL
            | Register::AH
            | Register::CH
            | Register::DH
            | Register::BH => OperandWidth::Byte,
            _ => OperandWidth::Word,
        }
    }

    /// The 3-bit field that selects this register at its width.
    pub open spec fn field(self) -> u8 {
        match self {
            Register::AL | Register::AX => 0,
            Register::CL | Register::CX => 1,
            Register::DL | Register::DX => 2,
            Register::BL | Register::BX => 3,
            Register::AH | Register::SP => 4,
            Register::CH | Register::BP => 5,
            Register::DH | Register::SI => 6,
            Register::BH | Register::DI => 7,
        }
    }

    /// Looks a register up by its 3-bit field and the width flag.
    pub fn from_field(field: u8, is_word: bool) -> (register: Register)
        requires
            field < 8,
        ensures
            register == register_of(field, is_word),
            register.width() == width_of(is_word),
    {
        if is_word {
            match field {
                0 => Register::AX,
                1 => Register::CX,
                2 => Register::DX,
                3 => Register::BX,
                4 => Register::SP,
                5 => Register::BP,
                6 => Register::SI,
                _ => Register::DI,
            }
        } else {
            match field {
                0 => Register::AL,
                1 => Register::CL,
                2 => Register::DL,
                3 => Register::BL,
                4 => Register::AH,
                5 => Register::CH,
                6 => Register::DH,
                _ => Register::BH,
            }
        }
    }

    /// The mnemonic as text.
    pub fn name_text(self) -> (text: &'static str)
        ensures
            text@ == self.name(),
    {
        match self {
            Register::AL => "AL",
            Register::CL => "CL",
            Register::DL => "DL",
            Register::BL => "BL",
            Register::AH => "AH",
            Register::CH => "CH",
            Register::DH => "DH",
            Register::BH => "BH",
            Register::AX => "AX",
            Register::CX => "CX",
            Register::DX => "DX",
            Register::BX => "BX",
            Register::SP => "SP",
            Register::BP => "BP",
            Register::SI => "SI",
            Register::DI => "DI",
        }
    }
}

impl BaseExpression {
    /// The expression as written between the brackets of a memory operand.
    pub open spec fn text(self) -> Seq<char> {
        match self {
            BaseExpression::BxSi => "BX + SI"@,
            BaseExpression::BxDi => "BX + DI"@,
            BaseExpression::BpSi => "BP + SI"@,
            BaseExpression::BpDi => "BP + DI"@,
            BaseExpression::Si => "SI"@,
            BaseExpression::Di => "DI"@,
            BaseExpression::Bp => "BP"@,
            BaseExpression::Bx => "BX"@,
        }
    }

    /// The 3-bit register-or-memory field that selects this expression.
    pub open spec fn field(self) -> u8 {
        match self {
            BaseExpression::BxSi => 0,
            BaseExpression::BxDi => 1,
            BaseExpression::BpSi => 2,
            BaseExpression::BpDi => 3,
            BaseExpression::Si => 4,
            BaseExpression::Di => 5,
            BaseExpression::Bp => 6,
            BaseExpression::Bx => 7,
        }
    }

    /// Looks a base expression up by its 3-bit register-or-memory field.
    pub fn from_field(field: u8) -> (base: BaseExpression)
        requires
            field < 8,
        ensures
            base == base_of(field),
    {
        match field {
            0 => BaseExpression::BxSi,
            1 => BaseExpression::BxDi,
            2 => BaseExpression::BpSi,
            3 => BaseExpression::BpDi,
            4 => BaseExpression::Si,
            5 => BaseExpression::Di,
            6 => BaseExpression::Bp,
            _ => BaseExpression::Bx,
        }
    }

    /// The expression as text.
    pub fn as_text(self) -> (text: &'static str)
        ensures
            text@ == self.text(),
    {
        match self {
            BaseExpression::BxSi => "BX + SI",
            BaseExpression::BxDi => "BX + DI",
            BaseExpression::BpSi => "BP + SI",
            BaseExpression::BpDi => "BP + DI",
            BaseExpression::Si => "SI",
            BaseExpression::Di => "DI",
            BaseExpression::Bp => "BP",
            BaseExpression::Bx => "BX",
        }
    }
}

/// The mnemonic of the register that `reg` selects: the word-sized one
/// where `is_word` is set, the byte-sized one otherwise.
pub fn get_reg(reg: u8, is_word: bool) -> (name: String)
    requires
        reg < 8,
    ensures
        name@ == register_of(reg, is_word).name(),
{
    String::from_str(Register::from_field(reg, is_word).name_text())
}

/// The base-register expression that `register_memory` selects for a
/// memory operand with a displacement, without the brackets.
pub fn get_disp_registers(register_memory: u8) -> (expression: String)
    requires
        register_memory < 8,
    ensures
        expression@ == base_of(register_memory).text(),
{
    String::from_str(BaseExpression::from_field(register_memory).as_text())
}

} // verus!
