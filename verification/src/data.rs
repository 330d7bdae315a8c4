//! Data directives: constants that are laid down in a section.

use crate::dialect::Dialect;
use crate::text::{
    byte_list_text, decimal_text, lemma_byte_list_injective, push_byte_list, push_decimal,
    push_signed_decimal, signed_decimal_text,
};
use vstd::prelude::*;

verus! {

/// A constant for a data section.
#[derive(Debug, PartialEq, Eq)]
pub enum Data {
    /// A signed 64-bit number.
    Int(i64),
    /// An unsigned 64-bit number.
    UInt(u64),
    /// An unsigned number of the platform's width.
    USize(usize),
    /// A sequence of bytes.
    Bytes(Vec<u8>),
}

impl Data {
    /// The directive for the constant: every number as one 64-bit word in
    /// decimal, bytes as a list of their tokens.
    pub open spec fn text(&self, dialect: Dialect) -> Seq<char> {
        match self {
            Data::Int(i) => dialect.word_directive_text() + " "@ + signed_decimal_text(*i as int),
            Data::UInt(n) => dialect.word_directive_text() + " "@ + decimal_text(*n as nat),
            Data::USize(n) => dialect.word_directive_text() + " "@ + decimal_text(*n as nat),
            Data::Bytes(bytes) => dialect.byte_directive_text() + " "@ + byte_list_text(bytes@),
        }
    }

    /// Renders the directive, without indentation or line end.
    pub fn render(&self, dialect: Dialect) -> (out: String)
        ensures
            out@ == self.text(dialect),
    {
        match self {
            Data::Int(i) => {
                let mut out = String::from_str(dialect.word_directive());
                out.append(" ");
                push_signed_decimal(&mut out, *i);
                out
            },
            Data::UInt(n) => {
                let mut out = String::from_str(dialect.word_directive());
                out.append(" ");
                push_decimal(&mut out, *n);
                out
            },
            Data::USize(n) => {
                let mut out = String::from_str(dialect.word_directive());
                out.append(" ");
                push_decimal(&mut out, *n as u64);
                out
            },
            Data::Bytes(bytes) => {
                let mut out = String::from_str(dialect.byte_directive());
                out.append(" ");
                push_byte_list(&mut out, bytes.as_slice());
                out
            },
        }
    }
}

/// A byte directive loses nothing of its bytes: in one dialect, two byte
/// sequences with the same directive text are the same sequence.
pub proof fn lemma_byte_directive_injective(a: Data, b: Data, dialect: Dialect)
    requires
        a is Bytes,
        b is Bytes,
        a.text(dialect) == b.text(dialect),
    ensures
        a->Bytes_0@ == b->Bytes_0@,
{
    let head = dialect.byte_directive_text() + " "@;
    let list_a = byte_list_text(a->Bytes_0@);
    let list_b = byte_list_text(b->Bytes_0@);
    assert((head + list_a).subrange(head.len() as int, (head + list_a).len() as int) =~= list_a);
    assert((head + list_b).subrange(head.len() as int, (head + list_b).len() as int) =~= list_b);
    lemma_byte_list_injective(a->Bytes_0@, b->Bytes_0@);
}

} // verus!
