//! Instructions: a mnemonic and its operands.

use crate::dialect::Dialect;
use crate::operand::Operand;
use crate::text::{join, lemma_join_push};
use vstd::prelude::*;

verus! {

/// One instruction. The operands are kept, and rendered, in the order in
/// which they were given: source before destination for AT&T, destination
/// before source for Intel.
#[derive(Debug, PartialEq, Eq)]
pub struct Amd64Instruction {
    /// The opcode's name.
    pub mnemonic: String,
    /// The operands, in the order of the target dialect.
    pub operands: Vec<Operand>,
}

/// The texts of the operands, in order.
pub open spec fn operand_texts(operands: Seq<Operand>, dialect: Dialect) -> Seq<Seq<char>> {
    operands.map_values(|operand: Operand| operand.text(dialect))
}

impl Amd64Instruction {
    /// The instruction's text: the mnemonic alone, or the mnemonic, a tab
    /// and the operands joined by a comma and a space.
    pub open spec fn text(&self, dialect: Dialect) -> Seq<char> {
        if self.operands@.len() == 0 {
            self.mnemonic@
        } else {
            self.mnemonic@ + "\t"@ + join(operand_texts(self.operands@, dialect), ", "@)
        }
    }

    /// The instruction with the given mnemonic and operands.
    pub fn new(mnemonic: &str, operands: Vec<Operand>) -> (instruction: Amd64Instruction)
        ensures
            instruction.mnemonic@ == mnemonic@,
            instruction.operands == operands,
    {
        Amd64Instruction { mnemonic: String::from_str(mnemonic), operands }
    }

    /// Renders the instruction, without indentation or line end.
    pub fn render(&self, dialect: Dialect) -> (out: String)
        ensures
            out@ == self.text(dialect),
    {
        let mut out = String::from_str(self.mnemonic.as_str());
        if self.operands.len() == 0 {
            return out;
        }
        out.append("\t");
        let ghost head = out@;
        let mut i: usize = 0;
        while i < self.operands.len()
            invariant
                i <= self.operands.len(),
                head == self.mnemonic@ + "\t"@,
                out@ == head + join(operand_texts(self.operands@.take(i as int), dialect), ", "@),
            decreases self.operands.len() - i,
        {
            if i > 0 {
                out.append(", ");
            }
            let piece = self.operands[i].render(dialect);
            out.append(piece.as_str());
            proof {
                let before = operand_texts(self.operands@.take(i as int), dialect);
                assert(operand_texts(self.operands@.take(i + 1), dialect) =~= before.push(piece@));
                lemma_join_push(before, piece@, ", "@);
            }
            i += 1;
        }
        assert(self.operands@.take(i as int) =~= self.operands@);
        out
    }
}

} // verus!
