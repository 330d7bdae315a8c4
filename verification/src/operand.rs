//! Operands of an instruction: registers, immediates and references to
//! data, each with its text in either dialect.

use crate::dialect::Dialect;
use crate::symbol::Label;
use crate::text::{
    byte_list_text, decimal_text, magnitude, magnitude_of, push_byte_list, push_decimal,
    push_signed_decimal, signed_decimal_text,
};
use vstd::prelude::*;

verus! {

/// The registers that have a name of their own.
#[derive(Clone, Copy, Debug, PartialEq, Eq, Structural)]
pub enum Amd64SpecialRegister {
    /// The accumulator.
    RAX,
    /// The base register.
    RBX,
    /// The count register.
    RCX,
    /// The data register.
    RDX,
    /// The destination index.
    RDI,
    /// The source index.
    RSI,
    /// The instruction pointer.
    RIP,
}

impl Amd64SpecialRegister {
    /// The register's name, lower case.
    pub open spec fn name_text(self) -> Seq<char> {
        match self {
            Amd64SpecialRegister::RAX => "rax"@,
            Amd64SpecialRegister::RBX => "rbx"@,
            Amd64SpecialRegister::RCX => "rcx"@,
            Amd64SpecialRegister::RDX => "rdx"@,
            Amd64SpecialRegister::RDI => "rdi"@,
            Amd64SpecialRegister::RSI => "rsi"@,
            Amd64SpecialRegister::RIP => "rip"@,
        }
    }

    /// The register's name, lower case.
    pub fn name(self) -> (s: &'static str)
        ensures
            s@ == self.name_text(),
    {
        match self {
            Amd64SpecialRegister::RAX => "rax",
            Amd64SpecialRegister::RBX => "rbx",
            Amd64SpecialRegister::RCX => "rcx",
            Amd64SpecialRegister::RDX => "rdx",
            Amd64SpecialRegister::RDI => "rdi",
            Amd64SpecialRegister::RSI => "rsi",
            Amd64SpecialRegister::RIP => "rip",
        }
    }
}

/// A register.
#[derive(Clone, Copy, Debug, PartialEq, Eq, Structural)]
pub enum Amd64Register {
    /// A general-purpose register, by its index.
    GeneralPurpose(u32),
    /// A register with a name of its own.
    Special(Amd64SpecialRegister),
}

impl Amd64Register {
    /// The register's name: `x` and the index of a general-purpose
    /// register, or the name of a special one.
    pub open spec fn name_text(self) -> Seq<char> {
        match self {
            Amd64Register::GeneralPurpose(index) => "x"@ + decimal_text(index as nat),
            Amd64Register::Special(register) => register.name_text(),
        }
    }

    /// The register as an operand: the dialect's prefix and the name.
    pub open spec fn text(self, dialect: Dialect) -> Seq<char> {
        dialect.register_prefix_text() + self.name_text()
    }

    /// Renders the register as an operand.
    pub fn render(self, dialect: Dialect) -> (out: String)
        ensures
            out@ == self.text(dialect),
    {
        let mut out = String::from_str(dialect.register_prefix());
        match self {
            Amd64Register::GeneralPurpose(index) => {
                out.append("x");
                push_decimal(&mut out, index as u64);
            },
            Amd64Register::Special(register) => {
                out.append(register.name());
            },
        }
        out
    }
}

/// A value known when the program is assembled.
#[derive(Debug, PartialEq, Eq)]
pub enum ImmediateValue {
    /// A symbol that the assembler knows as a constant.
    Label(Label),
    /// An unsigned 64-bit number.
    U64(u64),
    /// An unsigned number of the platform's width.
    USize(usize),
    /// A signed 64-bit number.
    I64(i64),
    /// A fixed sequence of bytes.
    Bytes(Vec<u8>),
}

impl ImmediateValue {
    /// The immediate as an operand: a number in decimal behind the
    /// dialect's prefix, a symbol by its bare name, bytes as their
    /// comma-joined tokens.
    pub open spec fn text(&self, dialect: Dialect) -> Seq<char> {
        match self {
            ImmediateValue::Label(symbol) => symbol@,
            ImmediateValue::U64(n) => dialect.immediate_prefix_text() + decimal_text(*n as nat),
            ImmediateValue::USize(n) => dialect.immediate_prefix_text() + decimal_text(*n as nat),
            ImmediateValue::I64(i) => dialect.immediate_prefix_text() + signed_decimal_text(
                *i as int,
            ),
            ImmediateValue::Bytes(bytes) => byte_list_text(bytes@),
        }
    }

    /// Renders the immediate as an operand.
    pub fn render(&self, dialect: Dialect) -> (out: String)
        ensures
            out@ == self.text(dialect),
    {
        match self {
            ImmediateValue::Label(symbol) => String::from_str(symbol.as_str()),
            ImmediateValue::U64(n) => {
                let mut out = String::from_str(dialect.immediate_prefix());
                push_decimal(&mut out, *n);
                out
            },
            ImmediateValue::USize(n) => {
                let mut out = String::from_str(dialect.immediate_prefix());
                push_decimal(&mut out, *n as u64);
                out
            },
            ImmediateValue::I64(i) => {
                let mut out = String::from_str(dialect.immediate_prefix());
                push_signed_decimal(&mut out, *i);
                out
            },
            ImmediateValue::Bytes(bytes) => {
                let mut out = String::new();
                push_byte_list(&mut out, bytes.as_slice());
                out
            },
        }
    }
}

/// A memory operand that addresses a symbol. The displacement belongs to
/// the reference and is never folded into the symbol. Without a base
/// register the reference is relative to the instruction pointer.
#[derive(Debug, PartialEq, Eq)]
pub struct LabelOffset {
    /// The symbol that is addressed.
    pub label: Label,
    /// The base register, if one is given.
    pub rel: Option<Amd64Register>,
    /// The displacement in bytes; zero stands for none.
    pub offset: i64,
}

/// The displacement inside an Intel-style reference: nothing for zero,
/// else ` + ` or ` - ` and the magnitude.
pub open spec fn intel_displacement_text(offset: int) -> Seq<char> {
    if offset == 0 {
        Seq::empty()
    } else if offset > 0 {
        " + "@ + decimal_text(magnitude_of(offset))
    } else {
        " - "@ + decimal_text(magnitude_of(offset))
    }
}

impl LabelOffset {
    /// The register that an AT&T-style reference names as its base.
    pub open spec fn base(&self) -> Amd64Register {
        match self.rel {
            Some(register) => register,
            None => Amd64Register::Special(Amd64SpecialRegister::RIP),
        }
    }

    /// What an AT&T-style reference addresses: the symbol, or the
    /// displacement and the symbol in parentheses.
    pub open spec fn att_target_text(&self) -> Seq<char> {
        if self.offset == 0 {
            self.label@
        } else {
            signed_decimal_text(self.offset as int) + "("@ + self.label@ + ")"@
        }
    }

    /// What an Intel-style reference addresses, before the displacement:
    /// `rel` and the symbol, or the base register, ` + ` and the symbol.
    pub open spec fn intel_place_text(&self) -> Seq<char> {
        match self.rel {
            Some(register) => register.text(Dialect::Intel) + " + "@ + self.label@,
            None => "rel "@ + self.label@,
        }
    }

    /// The reference as an operand. AT&T: `SYMBOL(%base)`, or
    /// `disp(SYMBOL)(%base)` with a displacement. Intel: `[rel SYMBOL]` or
    /// `[base + SYMBOL]`, with the displacement last inside the brackets.
    pub open spec fn text(&self, dialect: Dialect) -> Seq<char> {
        match dialect {
            Dialect::Att => self.att_target_text() + "("@ + self.base().text(Dialect::Att) + ")"@,
            Dialect::Intel => "["@ + self.intel_place_text() + intel_displacement_text(
                self.offset as int,
            ) + "]"@,
        }
    }

    /// A reference relative to the instruction pointer, without
    /// displacement.
    pub fn new(label: Label) -> (reference: LabelOffset)
        ensures
            reference.label == label,
            reference.rel.is_none(),
            reference.offset == 0,
    {
        LabelOffset { label, rel: None, offset: 0 }
    }

    /// Renders the reference in AT&T syntax.
    fn render_att(&self) -> (out: String)
        ensures
            out@ == self.text(Dialect::Att),
    {
        let mut out = String::new();
        if self.offset == 0 {
            out.append(self.label.as_str());
        } else {
            push_signed_decimal(&mut out, self.offset);
            out.append("(");
            out.append(self.label.as_str());
            out.append(")");
        }
        out.append("(");
        let base = match self.rel {
            Some(register) => register,
            None => Amd64Register::Special(Amd64SpecialRegister::RIP),
        };
        let base_text = base.render(Dialect::Att);
        out.append(base_text.as_str());
        out.append(")");
        out
    }

    /// Renders the reference in Intel syntax.
    fn render_intel(&self) -> (out: String)
        ensures
            out@ == self.text(Dialect::Intel),
    {
        let mut out = String::from_str("[");
        match self.rel {
            Some(register) => {
                let base_text = register.render(Dialect::Intel);
                out.append(base_text.as_str());
                out.append(" + ");
            },
            None => {
                out.append("rel ");
            },
        }
        out.append(self.label.as_str());
        if self.offset > 0 {
            out.append(" + ");
            push_decimal(&mut out, magnitude(self.offset));
        } else if self.offset < 0 {
            out.append(" - ");
            push_decimal(&mut out, magnitude(self.offset));
        }
        out.append("]");
        out
    }

    /// Renders the reference as an operand.
    pub fn render(&self, dialect: Dialect) -> (out: String)
        ensures
            out@ == self.text(dialect),
    {
        match dialect {
            Dialect::Att => self.render_att(),
            Dialect::Intel => self.render_intel(),
        }
    }
}

/// One operand of an instruction.
#[derive(Debug, PartialEq, Eq)]
pub enum Operand {
    /// A register.
    Register(Amd64Register),
    /// A value known when the program is assembled.
    Immediate(ImmediateValue),
    /// A reference to data in memory.
    DataRef(LabelOffset),
}

impl Operand {
    /// The operand's text: that of what it holds.
    pub open spec fn text(&self, dialect: Dialect) -> Seq<char> {
        match self {
            Operand::Register(register) => register.text(dialect),
            Operand::Immediate(value) => value.text(dialect),
            Operand::DataRef(reference) => reference.text(dialect),
        }
    }

    /// Renders the operand.
    pub fn render(&self, dialect: Dialect) -> (out: String)
        ensures
            out@ == self.text(dialect),
    {
        match self {
            Operand::Register(register) => register.render(dialect),
            Operand::Immediate(value) => value.render(dialect),
            Operand::DataRef(reference) => reference.render(dialect),
        }
    }
}

} // verus!
