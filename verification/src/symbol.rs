//! Assembler symbols: names chosen by the programmer, names derived from a
//! logical name by hashing, and the export of a symbol.

use crate::dialect::Dialect;
use crate::text::{
    decimal_text, hex_text, lemma_hex16_injective, lemma_hex_text_len, push_decimal, push_hex,
};
use std::collections::hash_map::DefaultHasher;
use std::hash::Hasher;
use vstd::prelude::*;
use vstd::std_specs::hash::DefaultHasherAdditionalSpecFns;
use vstd::utf8::encode_utf8;

verus! {

/// Whether `c` may open a symbol: an ASCII letter, `_` or `.`.
pub open spec fn is_symbol_start(c: char) -> bool {
    ('a' <= c <= 'z') || ('A' <= c <= 'Z') || c == '_' || c == '.'
}

/// Whether `c` may stand inside a symbol: what may open one, an ASCII
/// digit or `$`.
pub open spec fn is_symbol_char(c: char) -> bool {
    is_symbol_start(c) || ('0' <= c <= '9') || c == '$'
}

/// Whether the character at `index` of `name` may stand there.
pub open spec fn is_legal_at(name: Seq<char>, index: int) -> bool {
    if index == 0 {
        is_symbol_start(name[index])
    } else {
        is_symbol_char(name[index])
    }
}

/// Whether both assemblers read `name` as one identifier.
pub open spec fn is_legal_symbol(name: Seq<char>) -> bool {
    name.len() > 0 && forall|i: int| 0 <= i < name.len() ==> is_legal_at(name, i)
}

/// The 64-bit content hash of a logical name: the digest of the default
/// hasher after the name's UTF-8 bytes and one terminating `0xFF` byte.
pub open spec fn name_digest(name: Seq<char>) -> u64 {
    DefaultHasher::spec_finish(seq![encode_utf8(name), seq![0xffu8]])
}

/// The text of the symbol derived from a logical name: the marker `L_`
/// and the sixteen hexadecimal digits of the name's digest.
pub open spec fn derived_text(name: Seq<char>) -> Seq<char> {
    "L_"@ + hex_text(name_digest(name) as nat, 16)
}

/// Why a name was refused as a symbol.
#[derive(Clone, Copy, Debug, PartialEq, Eq, Structural)]
pub enum SymbolError {
    /// The name has no characters.
    Empty,
    /// The character at `index`, counted in characters from zero, is the
    /// first that may not stand where it does.
    IllegalChar { index: usize },
}

impl SymbolError {
    /// Whether this is the failure that `name` is refused with.
    pub open spec fn is_fault_of(self, name: Seq<char>) -> bool {
        match self {
            SymbolError::Empty => name.len() == 0,
            SymbolError::IllegalChar { index } => {
                &&& index < name.len()
                &&& !is_legal_at(name, index as int)
                &&& forall|j: int| 0 <= j < index ==> is_legal_at(name, j)
            },
        }
    }

    /// The message of the failure.
    pub open spec fn message_text(self) -> Seq<char> {
        match self {
            SymbolError::Empty => "symbol name is empty"@,
            SymbolError::IllegalChar { index } => "illegal character in symbol name at index "@
                + decimal_text(index as nat),
        }
    }

    /// Describes the failure in words.
    pub fn message(&self) -> (out: String)
        ensures
            out@ == self.message_text(),
    {
        match self {
            SymbolError::Empty => String::from_str("symbol name is empty"),
            SymbolError::IllegalChar { index } => {
                let mut out = String::from_str("illegal character in symbol name at index ");
                push_decimal(&mut out, *index as u64);
                out
            },
        }
    }
}

/// An assembler symbol: an immutable name.
#[derive(Debug, PartialEq, Eq)]
pub struct Label {
    label: String,
}

impl View for Label {
    type V = Seq<char>;

    closed spec fn view(&self) -> Seq<char> {
        self.label@
    }
}

/// Whether `c` may open a symbol.
fn symbol_start(c: char) -> (ok: bool)
    ensures
        ok == is_symbol_start(c),
{
    (c >= 'a' && c <= 'z') || (c >= 'A' && c <= 'Z') || c == '_' || c == '.'
}

/// Whether `c` may stand inside a symbol.
fn symbol_char(c: char) -> (ok: bool)
    ensures
        ok == is_symbol_char(c),
{
    symbol_start(c) || (c >= '0' && c <= '9') || c == '$'
}

/// Checks a name against the rules for symbols: it is accepted exactly
/// when it is legal, and refused with the one failure that fits it.
pub fn check_symbol(name: &str) -> (result: Result<(), SymbolError>)
    ensures
        result is Ok <==> is_legal_symbol(name@),
        result matches Err(e) ==> e.is_fault_of(name@),
{
    let count = name.unicode_len();
    if count == 0 {
        return Err(SymbolError::Empty);
    }
    let mut index: usize = 0;
    for c in it: name.chars()
        invariant
            index == it.index(),
            it.seq() == name@,
            count == name@.len(),
            forall|j: int| 0 <= j < index ==> is_legal_at(name@, j),
    {
        let legal = if index == 0 {
            symbol_start(c)
        } else {
            symbol_char(c)
        };
        if !legal {
            assert(!is_legal_at(name@, index as int));
            return Err(SymbolError::IllegalChar { index });
        }
        index = index + 1;
    }
    Ok(())
}

/// The content hash of a logical name.
pub fn digest(name: &str) -> (value: u64)
    ensures
        value == name_digest(name@),
{
    let mut hasher = DefaultHasher::new();
    hasher.write(name.as_bytes());
    let terminator: [u8; 1] = [0xff];
    hasher.write(terminator.as_slice());
    proof {
        assert(hasher@ =~~= seq![encode_utf8(name@), seq![0xffu8]]);
    }
    hasher.finish()
}

impl Label {
    /// The symbol with exactly the given text. The caller vouches for the
    /// name; [`Label::validated`] checks it.
    pub fn plain(label: &str) -> (symbol: Label)
        ensures
            symbol@ == label@,
    {
        Label { label: String::from_str(label) }
    }

    /// The symbol with the given text if the text is a legal symbol, else
    /// the one failure that fits it.
    pub fn validated(label: &str) -> (result: Result<Label, SymbolError>)
        ensures
            result is Ok <==> is_legal_symbol(label@),
            result matches Ok(symbol) ==> symbol@ == label@,
            result matches Err(e) ==> e.is_fault_of(label@),
    {
        match check_symbol(label) {
            Ok(()) => Ok(Label::plain(label)),
            Err(e) => Err(e),
        }
    }

    /// The symbol derived from a logical name. The same name gives the same
    /// symbol wherever and whenever it is derived, and the symbol is legal
    /// whatever the name holds.
    pub fn hashed(label: &str) -> (symbol: Label)
        ensures
            symbol@ == derived_text(label@),
            is_legal_symbol(symbol@),
    {
        let mut text = String::from_str("L_");
        push_hex(&mut text, digest(label), 16);
        proof {
            lemma_derived_is_legal(label@);
        }
        Label { label: text }
    }

    /// The symbol's text.
    pub fn as_str(&self) -> (text: &str)
        ensures
            text@ == self@,
    {
        self.label.as_str()
    }

    /// The line that defines the symbol, without indentation: its text and
    /// a colon.
    pub open spec fn definition_text(&self) -> Seq<char> {
        self@ + ":"@
    }

    /// Renders the definition of the symbol: its text and a colon.
    pub fn definition(&self) -> (out: String)
        ensures
            out@ == self.definition_text(),
    {
        let mut out = String::from_str(self.label.as_str());
        out.append(":");
        out
    }
}

/// A symbol marked for external visibility.
#[derive(Debug, PartialEq, Eq)]
pub struct Global {
    value: Label,
}

impl View for Global {
    type V = Seq<char>;

    closed spec fn view(&self) -> Seq<char> {
        self.value@
    }
}

impl Global {
    /// The export of the symbol with exactly the given text.
    pub fn new(value: &str) -> (global: Global)
        ensures
            global@ == value@,
    {
        Global { value: Label::plain(value) }
    }

    /// The export of the given symbol.
    pub fn of(symbol: Label) -> (global: Global)
        ensures
            global@ == symbol@,
    {
        Global { value: symbol }
    }

    /// The exported symbol's text.
    pub fn as_str(&self) -> (text: &str)
        ensures
            text@ == self@,
    {
        self.value.as_str()
    }

    /// The export declaration: the dialect's directive, a space and the
    /// symbol.
    pub open spec fn text(&self, dialect: Dialect) -> Seq<char> {
        dialect.global_directive_text() + " "@ + self@
    }

    /// Renders the export declaration, without a line end.
    pub fn render(&self, dialect: Dialect) -> (out: String)
        ensures
            out@ == self.text(dialect),
    {
        let mut out = String::from_str(dialect.global_directive());
        out.append(" ");
        out.append(self.value.as_str());
        out
    }
}

/// A name has at most one failure, and a legal name has none.
pub proof fn lemma_fault_is_unique(name: Seq<char>, first: SymbolError, second: SymbolError)
    requires
        first.is_fault_of(name),
        second.is_fault_of(name),
    ensures
        first == second,
        !is_legal_symbol(name),
{
}

/// Every hexadecimal digit may stand inside a symbol.
proof fn lemma_hex_digits_are_symbol_chars(n: nat, width: nat)
    ensures
        forall|i: int|
            0 <= i < hex_text(n, width).len() ==> is_symbol_char(#[trigger] hex_text(n, width)[i]),
    decreases width,
{
    if width > 0 {
        let high = hex_text(n / 16, (width - 1) as nat);
        lemma_hex_digits_are_symbol_chars(n / 16, (width - 1) as nat);
        assert forall|i: int| 0 <= i < hex_text(n, width).len() implies is_symbol_char(
            #[trigger] hex_text(n, width)[i],
        ) by {
            if i < high.len() {
                assert(hex_text(n, width)[i] == high[i]);
            }
        }
    }
}

/// Every derived symbol has eighteen characters and opens with a letter,
/// so that none reads as a number.
pub proof fn lemma_derived_has_fixed_width(name: Seq<char>)
    ensures
        derived_text(name).len() == 18,
        derived_text(name)[0] == 'L',
        derived_text(name)[1] == '_',
{
    reveal_strlit("L_");
    lemma_hex_text_len(name_digest(name) as nat, 16);
}

/// A derived symbol is legal whatever its logical name holds.
pub proof fn lemma_derived_is_legal(name: Seq<char>)
    ensures
        is_legal_symbol(derived_text(name)),
{
    reveal_strlit("L_");
    let digits = hex_text(name_digest(name) as nat, 16);
    lemma_hex_text_len(name_digest(name) as nat, 16);
    lemma_hex_digits_are_symbol_chars(name_digest(name) as nat, 16);
    let text = derived_text(name);
    assert forall|i: int| 0 <= i < text.len() implies is_legal_at(text, i) by {
        if i >= 2 {
            assert(text[i] == digits[i - 2]);
        }
    }
}

/// Deriving is a function of the logical name alone: two symbols derived
/// from the same name have the same text.
pub proof fn lemma_derived_is_deterministic(first: Label, second: Label, name: Seq<char>)
    requires
        first@ == derived_text(name),
        second@ == derived_text(name),
    ensures
        first@ == second@,
{
}

/// Two logical names get the same derived symbol only if their digests
/// collide: the marker and the digits lose nothing of the digest.
pub proof fn lemma_derived_collides_only_with_digest(a: Seq<char>, b: Seq<char>)
    ensures
        derived_text(a) == derived_text(b) <==> name_digest(a) == name_digest(b),
{
    if derived_text(a) == derived_text(b) {
        let digits_a = hex_text(name_digest(a) as nat, 16);
        let digits_b = hex_text(name_digest(b) as nat, 16);
        let n = "L_"@.len() as int;
        assert(derived_text(a).subrange(n, derived_text(a).len() as int) =~= digits_a);
        assert(derived_text(b).subrange(n, derived_text(b).len() as int) =~= digits_b);
        lemma_hex16_injective(name_digest(a), name_digest(b));
    }
}

} // verus!
