//! The two assembler syntaxes and the spellings in which they differ.

use vstd::prelude::*;

verus! {

/// A concrete assembler syntax.
#[derive(Clone, Copy, Debug, PartialEq, Eq, Structural)]
pub enum Dialect {
    /// GNU assembler, AT&T operand syntax.
    Att,
    /// NASM, Intel operand syntax.
    Intel,
}

impl Dialect {
    /// What stands before a register's name.
    pub open spec fn register_prefix_text(self) -> Seq<char> {
        match self {
            Dialect::Att => "%"@,
            Dialect::Intel => ""@,
        }
    }

    /// What stands before a numeric immediate.
    pub open spec fn immediate_prefix_text(self) -> Seq<char> {
        match self {
            Dialect::Att => "$"@,
            Dialect::Intel => ""@,
        }
    }

    /// The directive that opens a section.
    pub open spec fn section_directive_text(self) -> Seq<char> {
        match self {
            Dialect::Att => ".section"@,
            Dialect::Intel => "section"@,
        }
    }

    /// The directive that exports a symbol.
    pub open spec fn global_directive_text(self) -> Seq<char> {
        match self {
            Dialect::Att => ".global"@,
            Dialect::Intel => "global"@,
        }
    }

    /// The directive that emits one 64-bit word.
    pub open spec fn word_directive_text(self) -> Seq<char> {
        match self {
            Dialect::Att => ".quad"@,
            Dialect::Intel => "dq"@,
        }
    }

    /// The directive that emits a list of bytes.
    pub open spec fn byte_directive_text(self) -> Seq<char> {
        match self {
            Dialect::Att => ".byte"@,
            Dialect::Intel => "db"@,
        }
    }

    /// What stands before a register's name: `%` or nothing.
    pub fn register_prefix(self) -> (s: &'static str)
        ensures
            s@ == self.register_prefix_text(),
    {
        match self {
            Dialect::Att => "%",
            Dialect::Intel => "",
        }
    }

    /// What stands before a numeric immediate: `$` or nothing.
    pub fn immediate_prefix(self) -> (s: &'static str)
        ensures
            s@ == self.immediate_prefix_text(),
    {
        match self {
            Dialect::Att => "$",
            Dialect::Intel => "",
        }
    }

    /// The directive that opens a section: `.section` or `section`.
    pub fn section_directive(self) -> (s: &'static str)
        ensures
            s@ == self.section_directive_text(),
    {
        match self {
            Dialect::Att => ".section",
            Dialect::Intel => "section",
        }
    }

    /// The directive that exports a symbol: `.global` or `global`.
    pub fn global_directive(self) -> (s: &'static str)
        ensures
            s@ == self.global_directive_text(),
    {
        match self {
            Dialect::Att => ".global",
            Dialect::Intel => "global",
        }
    }

    /// The directive that emits one 64-bit word: `.quad` or `dq`.
    pub fn word_directive(self) -> (s: &'static str)
        ensures
            s@ == self.word_directive_text(),
    {
        match self {
            Dialect::Att => ".quad",
            Dialect::Intel => "dq",
        }
    }

    /// The directive that emits a list of bytes: `.byte` or `db`.
    pub fn byte_directive(self) -> (s: &'static str)
        ensures
            s@ == self.byte_directive_text(),
    {
        match self {
            Dialect::Att => ".byte",
            Dialect::Intel => "db",
        }
    }
}

} // verus!
