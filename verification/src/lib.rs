//! A typed intermediate representation of x86-64 assembly programs and an
//! emitter that renders it as assembler source in one of two dialects.

pub mod data;
pub mod dialect;
pub mod instruction;
pub mod operand;
pub mod program;
pub mod symbol;
pub mod text;

pub use data::Data;
pub use dialect::Dialect;
pub use instruction::Amd64Instruction;
pub use operand::{Amd64Register, Amd64SpecialRegister, ImmediateValue, LabelOffset, Operand};
pub use program::{define_counted_bytes, render_lines, AsmExpr, Program, Section};
pub use symbol::{check_symbol, digest, Global, Label, SymbolError};
