//! Program structure: expressions, sections and whole programs, and the
//! text of each.

use crate::data::Data;
use crate::dialect::Dialect;
use crate::instruction::Amd64Instruction;
use crate::symbol::{derived_text, Global, Label};
use crate::text::{byte_list_text, decimal_text};
use vstd::prelude::*;

verus! {

/// The unit of a section's content.
#[derive(Debug, PartialEq, Eq)]
pub enum AsmExpr {
    /// A data directive.
    Data(Data),
    /// An instruction.
    Instruction(Amd64Instruction),
    /// Expressions in sequence; a block only groups.
    Block(Vec<AsmExpr>),
    /// The definition of a label.
    Label(Label),
    /// Text that is emitted as it stands.
    Raw(String),
}

impl AsmExpr {
    /// The expression's text, without a line end of its own. Statements
    /// are indented by two tabs and label definitions by one; raw text is
    /// taken as it stands; a block is the lines of its children.
    pub open spec fn text(&self, dialect: Dialect) -> Seq<char>
        decreases self,
    {
        match self {
            AsmExpr::Data(data) => "\t\t"@ + data.text(dialect),
            AsmExpr::Instruction(instruction) => "\t\t"@ + instruction.text(dialect),
            AsmExpr::Block(children) => lines_text(children@, dialect),
            AsmExpr::Label(symbol) => "\t"@ + symbol.definition_text(),
            AsmExpr::Raw(raw) => raw@,
        }
    }

    /// Renders the expression, without a line end of its own.
    pub fn render(&self, dialect: Dialect) -> (out: String)
        ensures
            out@ == self.text(dialect),
        decreases self,
    {
        match self {
            AsmExpr::Data(data) => {
                let mut out = String::from_str("\t\t");
                let piece = data.render(dialect);
                out.append(piece.as_str());
                out
            },
            AsmExpr::Instruction(instruction) => {
                let mut out = String::from_str("\t\t");
                let piece = instruction.render(dialect);
                out.append(piece.as_str());
                out
            },
            AsmExpr::Block(children) => render_lines(children, dialect),
            AsmExpr::Label(symbol) => {
                let mut out = String::from_str("\t");
                let piece = symbol.definition();
                out.append(piece.as_str());
                out
            },
            AsmExpr::Raw(raw) => String::from_str(raw.as_str()),
        }
    }
}

/// The expressions in order, each followed by a line end.
pub open spec fn lines_text(exprs: Seq<AsmExpr>, dialect: Dialect) -> Seq<char>
    decreases exprs,
{
    if exprs.len() == 0 {
        Seq::empty()
    } else {
        lines_text(exprs.drop_last(), dialect) + exprs.last().text(dialect) + "\n"@
    }
}

/// Renders the expressions in order, each followed by a line end.
pub fn render_lines(exprs: &Vec<AsmExpr>, dialect: Dialect) -> (out: String)
    ensures
        out@ == lines_text(exprs@, dialect),
    decreases exprs,
{
    let mut out = String::new();
    let mut i: usize = 0;
    while i < exprs.len()
        invariant
            i <= exprs.len(),
            out@ == lines_text(exprs@.take(i as int), dialect),
        decreases exprs.len() - i,
    {
        let piece = exprs[i].render(dialect);
        out.append(piece.as_str());
        out.append("\n");
        proof {
            assert(exprs@.take(i + 1).drop_last() =~= exprs@.take(i as int));
        }
        i += 1;
    }
    assert(exprs@.take(i as int) =~= exprs@);
    out
}

/// A named run of expressions.
#[derive(Debug, PartialEq, Eq)]
pub struct Section {
    /// The section's name, without the leading dot.
    pub name: String,
    /// The section's content, in order.
    pub body: Vec<AsmExpr>,
}

impl Section {
    /// The section's text: the header line, then every expression on a
    /// line of its own.
    pub open spec fn text(&self, dialect: Dialect) -> Seq<char> {
        dialect.section_directive_text() + " ."@ + self.name@ + "\n"@ + lines_text(
            self.body@,
            dialect,
        )
    }

    /// The section with the given name and content.
    pub fn new(name: &str, body: Vec<AsmExpr>) -> (section: Section)
        ensures
            section.name@ == name@,
            section.body == body,
    {
        Section { name: String::from_str(name), body }
    }

    /// Renders the section.
    pub fn render(&self, dialect: Dialect) -> (out: String)
        ensures
            out@ == self.text(dialect),
    {
        let mut out = String::from_str(dialect.section_directive());
        out.append(" .");
        out.append(self.name.as_str());
        out.append("\n");
        let lines = render_lines(&self.body, dialect);
        out.append(lines.as_str());
        out
    }
}

/// The export declarations in order, each followed by a line end.
pub open spec fn exports_text(globals: Seq<Global>, dialect: Dialect) -> Seq<char>
    decreases globals.len(),
{
    if globals.len() == 0 {
        Seq::empty()
    } else {
        exports_text(globals.drop_last(), dialect) + globals.last().text(dialect) + "\n"@
    }
}

/// The sections in order, one after the other.
pub open spec fn sections_text(sections: Seq<Section>, dialect: Dialect) -> Seq<char>
    decreases sections.len(),
{
    if sections.len() == 0 {
        Seq::empty()
    } else {
        sections_text(sections.drop_last(), dialect) + sections.last().text(dialect)
    }
}

/// A whole program: what it exports, then its sections.
#[derive(Debug, PartialEq, Eq)]
pub struct Program {
    /// The exported symbols, in order.
    pub globals: Vec<Global>,
    /// The sections, in order.
    pub sections: Vec<Section>,
}

impl Program {
    /// The program's text: every export declaration on a line of its own,
    /// then every section, all in the order in which they were given.
    pub open spec fn text(&self, dialect: Dialect) -> Seq<char> {
        exports_text(self.globals@, dialect) + sections_text(self.sections@, dialect)
    }

    /// The program with the given exports and sections.
    pub fn new(globals: Vec<Global>, sections: Vec<Section>) -> (program: Program)
        ensures
            program.globals == globals,
            program.sections == sections,
    {
        Program { globals, sections }
    }

    /// Renders the program in the given dialect.
    pub fn render(&self, dialect: Dialect) -> (out: String)
        ensures
            out@ == self.text(dialect),
    {
        let mut out = String::new();
        let mut i: usize = 0;
        while i < self.globals.len()
            invariant
                i <= self.globals.len(),
                out@ == exports_text(self.globals@.take(i as int), dialect),
            decreases self.globals.len() - i,
        {
            let piece = self.globals[i].render(dialect);
            out.append(piece.as_str());
            out.append("\n");
            proof {
                assert(self.globals@.take(i + 1).drop_last() =~= self.globals@.take(i as int));
            }
            i += 1;
        }
        assert(self.globals@.take(i as int) =~= self.globals@);
        let ghost head = out@;
        let mut k: usize = 0;
        while k < self.sections.len()
            invariant
                k <= self.sections.len(),
                head == exports_text(self.globals@, dialect),
                out@ == head + sections_text(self.sections@.take(k as int), dialect),
            decreases self.sections.len() - k,
        {
            let piece = self.sections[k].render(dialect);
            out.append(piece.as_str());
            proof {
                assert(self.sections@.take(k + 1).drop_last() =~= self.sections@.take(k as int));
            }
            k += 1;
        }
        assert(self.sections@.take(k as int) =~= self.sections@);
        out
    }
}

/// The logical name of the size that belongs to the bytes defined under
/// `name`.
pub open spec fn size_name(name: Seq<char>) -> Seq<char> {
    "S_"@ + name
}

/// The line that binds the size symbol of `name` to the distance from the
/// start symbol.
pub open spec fn size_binding_text(name: Seq<char>) -> Seq<char> {
    "\t"@ + derived_text(size_name(name)) + " equ $ - "@ + derived_text(name)
}

/// Whether `exprs` define `bytes` under the symbol derived from `name`,
/// together with their length under the symbol derived from the size name.
/// AT&T lays the length down as a word under a second label; Intel binds
/// the second symbol to the distance from the first.
pub open spec fn is_counted_bytes(
    exprs: Seq<AsmExpr>,
    name: Seq<char>,
    bytes: Seq<u8>,
    dialect: Dialect,
) -> bool {
    &&& exprs.len() == match dialect {
        Dialect::Att => 4nat,
        Dialect::Intel => 3nat,
    }
    &&& exprs[0] matches AsmExpr::Label(start) && start@ == derived_text(name)
    &&& exprs[1] matches AsmExpr::Data(Data::Bytes(content)) && content@ == bytes
    &&& match dialect {
        Dialect::Att => {
            &&& exprs[2] matches AsmExpr::Label(size) && size@ == derived_text(size_name(name))
            &&& exprs[3] matches AsmExpr::Data(Data::USize(length)) && length == bytes.len()
        },
        Dialect::Intel => exprs[2] matches AsmExpr::Raw(binding) && binding@ == size_binding_text(
            name,
        ),
    }
}

/// Defines `bytes` under the symbol derived from `name`, and their length
/// under the symbol derived from `S_` and `name`, in the shape that the
/// dialect asks for.
pub fn define_counted_bytes(name: &str, bytes: Vec<u8>, dialect: Dialect) -> (exprs: Vec<AsmExpr>)
    ensures
        is_counted_bytes(exprs@, name@, bytes@, dialect),
{
    let mut size_key = String::from_str("S_");
    size_key.append(name);
    let start = Label::hashed(name);
    let size = Label::hashed(size_key.as_str());
    let length = bytes.len();
    let mut exprs: Vec<AsmExpr> = Vec::new();
    match dialect {
        Dialect::Att => {
            exprs.push(AsmExpr::Label(start));
            exprs.push(AsmExpr::Data(Data::Bytes(bytes)));
            exprs.push(AsmExpr::Label(size));
            exprs.push(AsmExpr::Data(Data::USize(length)));
        },
        Dialect::Intel => {
            let mut binding = String::from_str("\t");
            binding.append(size.as_str());
            binding.append(" equ $ - ");
            binding.append(start.as_str());
            exprs.push(AsmExpr::Label(start));
            exprs.push(AsmExpr::Data(Data::Bytes(bytes)));
            exprs.push(AsmExpr::Raw(binding));
        },
    }
    exprs
}

/// Lines are empty or end with a line end.
pub proof fn lemma_lines_end_with_line_end(exprs: Seq<AsmExpr>, dialect: Dialect)
    ensures
        lines_text(exprs, dialect).len() == 0 || lines_text(exprs, dialect).last() == '\n',
{
    reveal_strlit("\n");
}

/// A section's text is never empty and ends with a line end, whatever the
/// section holds.
pub proof fn lemma_section_ends_with_line_end(section: Section, dialect: Dialect)
    ensures
        section.text(dialect).len() > 0,
        section.text(dialect).last() == '\n',
{
    reveal_strlit("\n");
    lemma_lines_end_with_line_end(section.body@, dialect);
}

/// A program's text is empty or ends with a line end.
pub proof fn lemma_program_ends_with_line_end(program: Program, dialect: Dialect)
    ensures
        program.text(dialect).len() == 0 || program.text(dialect).last() == '\n',
{
    reveal_strlit("\n");
    if program.sections@.len() > 0 {
        lemma_section_ends_with_line_end(program.sections@.last(), dialect);
    }
}

/// Rendering reads the program and the dialect and nothing else: two
/// renderings of one program in one dialect are the same text.
pub proof fn lemma_render_is_deterministic(
    program: Program,
    dialect: Dialect,
    first: String,
    second: String,
)
    requires
        first@ == program.text(dialect),
        second@ == program.text(dialect),
    ensures
        first@ == second@,
{
}

/// The lines of a counted byte sequence: the start label, the bytes, and
/// then the size as a word under its own label (AT&T) or as a constant
/// bound to the distance from the start label (Intel).
pub open spec fn counted_bytes_text(name: Seq<char>, bytes: Seq<u8>, dialect: Dialect) -> Seq<char> {
    let content = "\t"@ + derived_text(name) + ":\n\t\t"@ + dialect.byte_directive_text() + " "@
        + byte_list_text(bytes) + "\n"@;
    match dialect {
        Dialect::Att => content + "\t"@ + derived_text(size_name(name)) + ":\n\t\t.quad "@
            + decimal_text(bytes.len()) + "\n"@,
        Dialect::Intel => content + size_binding_text(name) + "\n"@,
    }
}

/// Whatever defines a counted byte sequence renders as its lines.
pub proof fn lemma_counted_bytes_lines(
    exprs: Seq<AsmExpr>,
    name: Seq<char>,
    bytes: Seq<u8>,
    dialect: Dialect,
)
    requires
        is_counted_bytes(exprs, name, bytes, dialect),
    ensures
        lines_text(exprs, dialect) == counted_bytes_text(name, bytes, dialect),
{
    reveal_strlit("\t\t");
    reveal_strlit(":");
    reveal_strlit("\n");
    reveal_strlit(" ");
    reveal_strlit(".quad");
    reveal_strlit(":\n\t\t");
    reveal_strlit(":\n\t\t.quad ");
    reveal_with_fuel(lines_text, 5);
}

} // verus!
