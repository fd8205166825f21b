//! Basic blocks: a named, ordered sequence of instructions, rendered as a
//! label line followed by one indented line per instruction.

use vstd::prelude::*;

use crate::inst::{Instruction, inst_ir};

verus! {

/// A name-only identifier for a basic block target.
#[derive(Debug)]
pub struct Label {
    pub name: String,
}

/// A named, ordered sequence of instructions. The order is straight-line
/// execution order; that a well-formed block ends in a terminator is a
/// documented caller expectation, not checked by this model.
#[derive(Debug)]
pub struct BasicBlock {
    pub name: Label,
    pub instructions: Vec<Instruction>,
}

impl Clone for Label {
    /// A copy holding the same name.
    fn clone(&self) -> (r: Self)
        ensures
            r.name@ == self.name@,
    {
        Label { name: self.name.clone() }
    }
}

/// Clones each instruction of `is`; each copy renders exactly as its
/// original.
fn clone_inst_list(is: &Vec<Instruction>) -> (r: Vec<Instruction>)
    ensures
        r@.len() == is@.len(),
        forall|j: int| 0 <= j < is@.len() ==> inst_ir(r@[j]) == inst_ir(is@[j]),
{
    let mut out: Vec<Instruction> = Vec::new();
    let n = is.len();
    let mut i: usize = 0;
    while i < n
        invariant
            n == is@.len(),
            i <= n,
            out@.len() == i,
            forall|j: int| 0 <= j < i ==> inst_ir(out@[j]) == inst_ir(is@[j]),
        decreases n - i,
    {
        out.push(is[i].clone());
        i = i + 1;
    }
    out
}

/// The first `n` instruction lines of `is`: each indented by four spaces,
/// joined with newlines.
pub open spec fn inst_lines_prefix_ir(is: Seq<Instruction>, n: int) -> Seq<char>
    decreases n,
{
    if n <= 0 || n > is.len() {
        Seq::empty()
    } else if n == 1 {
        "    "@ + inst_ir(is[0])
    } else {
        inst_lines_prefix_ir(is, n - 1) + "\n"@ + "    "@ + inst_ir(is[n - 1])
    }
}

/// All instruction lines of `is`: each indented by four spaces, joined with
/// newlines.
pub open spec fn inst_lines_ir(is: Seq<Instruction>) -> Seq<char> {
    inst_lines_prefix_ir(is, is.len() as int)
}

/// The exact textual form of a basic block: the label line `name:`, then
/// each instruction's line indented by four spaces, newline-joined, in the
/// block's own order.
pub open spec fn block_ir(b: BasicBlock) -> Seq<char> {
    b.name.name@ + ":\n"@ + inst_lines_ir(b.instructions@)
}

impl Clone for BasicBlock {
    /// A deep copy that renders exactly as the original block.
    fn clone(&self) -> (r: Self)
        ensures
            block_ir(r) == block_ir(*self),
    {
        let cloned = clone_inst_list(&self.instructions);
        proof {
            lemma_inst_lines_prefix_congruent(
                cloned@,
                self.instructions@,
                self.instructions@.len() as int,
            );
        }
        BasicBlock { name: self.name.clone(), instructions: cloned }
    }
}

/// The first `n` instruction lines depend only on the renderings of the
/// first `n` instructions: line-for-line, in order.
pub proof fn lemma_inst_lines_prefix_congruent(a: Seq<Instruction>, b: Seq<Instruction>, n: int)
    requires
        n <= a.len(),
        n <= b.len(),
        forall|j: int| 0 <= j < n ==> inst_ir(a[j]) == inst_ir(b[j]),
    ensures
        inst_lines_prefix_ir(a, n) == inst_lines_prefix_ir(b, n),
    decreases n,
{
    if n > 1 {
        lemma_inst_lines_prefix_congruent(a, b, n - 1);
    }
}

/// A block's text is compositional in its instructions: appending an
/// instruction appends exactly that instruction's indented line, after a
/// newline when lines precede it. Earlier lines are kept as they are, never
/// reordered nor deduplicated.
pub proof fn lemma_block_ir_append(b1: BasicBlock, b2: BasicBlock, x: Instruction)
    requires
        b2.name.name@ == b1.name.name@,
        b2.instructions@ == b1.instructions@.push(x),
    ensures
        b1.instructions@.len() == 0 ==> block_ir(b2) == block_ir(b1) + "    "@ + inst_ir(x),
        b1.instructions@.len() > 0 ==> block_ir(b2) == block_ir(b1) + "\n"@ + "    "@ + inst_ir(
            x,
        ),
{
    let a = b1.instructions@;
    let c = b2.instructions@;
    assert(c[c.len() - 1] == x);
    if a.len() == 0 {
        assert(block_ir(b2) =~= block_ir(b1) + "    "@ + inst_ir(x));
    } else {
        lemma_inst_lines_prefix_congruent(c, a, a.len() as int);
        assert(block_ir(b2) =~= block_ir(b1) + "\n"@ + "    "@ + inst_ir(x));
    }
}

impl BasicBlock {
    /// Renders this block into its exact textual form, `block_ir(*self)`:
    /// the label line, then the instruction lines in order, never reordered
    /// nor deduplicated.
    pub fn ir(&self) -> (r: String)
        ensures
            r@ == block_ir(*self),
    {
        let mut out = String::new();
        out.append(self.name.name.as_str());
        out.append(":\n");
        let n = self.instructions.len();
        let mut i: usize = 0;
        proof {
            assert(out@ =~= self.name.name@ + ":\n"@ + inst_lines_prefix_ir(
                self.instructions@,
                0,
            ));
        }
        while i < n
            invariant
                n == self.instructions@.len(),
                i <= n,
                out@ == self.name.name@ + ":\n"@ + inst_lines_prefix_ir(
                    self.instructions@,
                    i as int,
                ),
            decreases n - i,
        {
            if i > 0 {
                out.append("\n");
            }
            out.append("    ");
            out.append(self.instructions[i].ir().as_str());
            i = i + 1;
        }
        out
    }
}

} // verus!
