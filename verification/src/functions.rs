//! Functions: named, typed callable units with optional linkage and calling
//! convention, rendered either as a declaration (no body) or as a definition
//! (a braced list of basic blocks).

use vstd::prelude::*;

use crate::blocks::{BasicBlock, block_ir};
use crate::module::{CallingConvention, LinkageType, opt_cc_ir, opt_linkage_ir};
use crate::values::{RegisterData, Type, register_ir, type_ir};

verus! {

/// A named, typed callable unit: its return type, ordered parameters,
/// optional linkage and calling convention, and an ordered list of basic
/// blocks — empty for an external declaration, non-empty for a definition.
#[derive(Debug)]
pub struct Function {
    pub name: String,
    pub return_type: Type,
    pub parameters: Vec<(Type, RegisterData)>,
    pub blocks: Vec<BasicBlock>,
    pub linkage: Option<LinkageType>,
    pub calling_convention: Option<CallingConvention>,
}

/// The textual form of one parameter: `type %name`.
pub open spec fn param_ir(p: (Type, RegisterData)) -> Seq<char> {
    type_ir(p.0) + " "@ + register_ir(p.1)
}

/// The renderings of the first `n` parameters of `ps`, joined with `, `.
pub open spec fn param_list_prefix_ir(ps: Seq<(Type, RegisterData)>, n: int) -> Seq<char>
    decreases n,
{
    if n <= 0 || n > ps.len() {
        Seq::empty()
    } else if n == 1 {
        param_ir(ps[0])
    } else {
        param_list_prefix_ir(ps, n - 1) + ", "@ + param_ir(ps[n - 1])
    }
}

/// The renderings of all parameters of `ps`, joined with `, `.
pub open spec fn param_list_ir(ps: Seq<(Type, RegisterData)>) -> Seq<char> {
    param_list_prefix_ir(ps, ps.len() as int)
}

/// The renderings of the first `n` blocks of `bs`, joined with newlines.
pub open spec fn block_list_prefix_ir(bs: Seq<BasicBlock>, n: int) -> Seq<char>
    decreases n,
{
    if n <= 0 || n > bs.len() {
        Seq::empty()
    } else if n == 1 {
        block_ir(bs[0])
    } else {
        block_list_prefix_ir(bs, n - 1) + "\n"@ + block_ir(bs[n - 1])
    }
}

/// The renderings of all blocks of `bs`, joined with newlines.
pub open spec fn block_list_ir(bs: Seq<BasicBlock>) -> Seq<char> {
    block_list_prefix_ir(bs, bs.len() as int)
}

/// The exact textual form of a function. An empty block list renders as a
/// declaration, `declare <linkage><cconv><rettype> @<name>(<params>)`, with
/// no body braces; a non-empty one as a definition,
/// `define <linkage><cconv><rettype> @<name> {` followed by the blocks,
/// newline-joined, and a closing `}`. An absent linkage or calling
/// convention contributes nothing — in particular no second space.
pub open spec fn function_ir(f: Function) -> Seq<char> {
    if f.blocks@.len() == 0 {
        "declare "@ + opt_linkage_ir(f.linkage) + opt_cc_ir(f.calling_convention) + type_ir(
            f.return_type,
        ) + " @"@ + f.name@ + "("@ + param_list_ir(f.parameters@) + ")"@
    } else {
        "define "@ + opt_linkage_ir(f.linkage) + opt_cc_ir(f.calling_convention) + type_ir(
            f.return_type,
        ) + " @"@ + f.name@ + " {\n"@ + block_list_ir(f.blocks@) + "\n}"@
    }
}

/// The rendering of the first `n` parameters depends only on each
/// parameter's type rendering and register name, in order.
pub proof fn lemma_param_list_prefix_congruent(
    a: Seq<(Type, RegisterData)>,
    b: Seq<(Type, RegisterData)>,
    n: int,
)
    requires
        n <= a.len(),
        n <= b.len(),
        forall|j: int|
            0 <= j < n ==> type_ir(a[j].0) == type_ir(b[j].0) && a[j].1.name@ == b[j].1.name@,
    ensures
        param_list_prefix_ir(a, n) == param_list_prefix_ir(b, n),
    decreases n,
{
    if n > 1 {
        lemma_param_list_prefix_congruent(a, b, n - 1);
    }
}

/// The rendering of the first `n` blocks depends only on each block's own
/// rendering, in order.
pub proof fn lemma_block_list_prefix_congruent(a: Seq<BasicBlock>, b: Seq<BasicBlock>, n: int)
    requires
        n <= a.len(),
        n <= b.len(),
        forall|j: int| 0 <= j < n ==> block_ir(a[j]) == block_ir(b[j]),
    ensures
        block_list_prefix_ir(a, n) == block_list_prefix_ir(b, n),
    decreases n,
{
    if n > 1 {
        lemma_block_list_prefix_congruent(a, b, n - 1);
    }
}

/// Clones each parameter of `ps`; each copy's type renders as the original's
/// and its register keeps its name.
fn clone_param_list(ps: &Vec<(Type, RegisterData)>) -> (r: Vec<(Type, RegisterData)>)
    ensures
        r@.len() == ps@.len(),
        forall|j: int|
            0 <= j < ps@.len() ==> type_ir(r@[j].0) == type_ir(ps@[j].0) && r@[j].1.name@
                == ps@[j].1.name@,
{
    let mut out: Vec<(Type, RegisterData)> = Vec::new();
    let n = ps.len();
    let mut i: usize = 0;
    while i < n
        invariant
            n == ps@.len(),
            i <= n,
            out@.len() == i,
            forall|j: int|
                0 <= j < i ==> type_ir(out@[j].0) == type_ir(ps@[j].0) && out@[j].1.name@
                    == ps@[j].1.name@,
        decreases n - i,
    {
        out.push((ps[i].0.clone(), ps[i].1.clone()));
        i = i + 1;
    }
    out
}

/// Clones each block of `bs`; each copy renders exactly as its original.
fn clone_block_list(bs: &Vec<BasicBlock>) -> (r: Vec<BasicBlock>)
    ensures
        r@.len() == bs@.len(),
        forall|j: int| 0 <= j < bs@.len() ==> block_ir(r@[j]) == block_ir(bs@[j]),
{
    let mut out: Vec<BasicBlock> = Vec::new();
    let n = bs.len();
    let mut i: usize = 0;
    while i < n
        invariant
            n == bs@.len(),
            i <= n,
            out@.len() == i,
            forall|j: int| 0 <= j < i ==> block_ir(out@[j]) == block_ir(bs@[j]),
        decreases n - i,
    {
        out.push(bs[i].clone());
        i = i + 1;
    }
    out
}

impl Clone for Function {
    /// A deep copy that renders exactly as the original function.
    fn clone(&self) -> (r: Self)
        ensures
            function_ir(r) == function_ir(*self),
    {
        let cloned_params = clone_param_list(&self.parameters);
        let cloned_blocks = clone_block_list(&self.blocks);
        proof {
            lemma_param_list_prefix_congruent(
                cloned_params@,
                self.parameters@,
                self.parameters@.len() as int,
            );
            lemma_block_list_prefix_congruent(
                cloned_blocks@,
                self.blocks@,
                self.blocks@.len() as int,
            );
        }
        Function {
            name: self.name.clone(),
            return_type: self.return_type.clone(),
            parameters: cloned_params,
            blocks: cloned_blocks,
            linkage: match &self.linkage {
                Some(l) => Some(l.clone()),
                None => None,
            },
            calling_convention: match &self.calling_convention {
                Some(c) => Some(c.clone()),
                None => None,
            },
        }
    }
}

/// Rendering a function is a pure function of its value: equal trees render
/// to exactly the same text, however often they are rendered.
pub proof fn lemma_function_render_pure(a: Function, b: Function)
    requires
        a == b,
    ensures
        function_ir(a) == function_ir(b),
{
}

/// A function with no blocks always renders as a declaration — the text
/// begins with `declare ` and ends with the parameter list's closing
/// parenthesis, with no body braces of the renderer's making — and a
/// function with blocks always renders as a definition, beginning with
/// `define ` and ending with the closing body brace, whatever its other
/// attributes.
pub proof fn lemma_declare_define(f: Function)
    ensures
        f.blocks@.len() == 0 ==> function_ir(f).take(8) == "declare "@,
        f.blocks@.len() == 0 ==> function_ir(f).last() == ')',
        f.blocks@.len() > 0 ==> function_ir(f).take(7) == "define "@,
        f.blocks@.len() > 0 ==> function_ir(f).last() == '}',
{
    reveal_strlit("declare ");
    reveal_strlit("define ");
    reveal_strlit(")");
    reveal_strlit("\n}");
    if f.blocks@.len() == 0 {
        assert(function_ir(f).take(8) =~= "declare "@);
    } else {
        assert(function_ir(f).take(7) =~= "define "@);
    }
}

/// Renders each parameter of `ps` as `type %name`, joined with `, `.
fn param_list_text(ps: &Vec<(Type, RegisterData)>) -> (r: String)
    ensures
        r@ == param_list_ir(ps@),
{
    let mut out = String::new();
    let n = ps.len();
    let mut i: usize = 0;
    while i < n
        invariant
            n == ps@.len(),
            i <= n,
            out@ == param_list_prefix_ir(ps@, i as int),
        decreases n - i,
    {
        if i > 0 {
            out.append(", ");
        }
        out.append(ps[i].0.ir().as_str());
        out.append(" ");
        out.append(ps[i].1.ir().as_str());
        i = i + 1;
    }
    out
}

/// Renders each block of `bs`, joined with newlines.
fn block_list_text(bs: &Vec<BasicBlock>) -> (r: String)
    ensures
        r@ == block_list_ir(bs@),
{
    let mut out = String::new();
    let n = bs.len();
    let mut i: usize = 0;
    while i < n
        invariant
            n == bs@.len(),
            i <= n,
            out@ == block_list_prefix_ir(bs@, i as int),
        decreases n - i,
    {
        if i > 0 {
            out.append("\n");
        }
        out.append(bs[i].ir().as_str());
        i = i + 1;
    }
    out
}

impl Function {
    /// Renders this function into its exact textual form,
    /// `function_ir(*self)`: a `declare` line when it has no blocks, a
    /// braced `define` body when it has some.
    pub fn ir(&self) -> (r: String)
        ensures
            r@ == function_ir(*self),
    {
        let mut out: String;
        if self.blocks.len() == 0 {
            out = String::from_str("declare ");
        } else {
            out = String::from_str("define ");
        }
        if let Some(linkage) = &self.linkage {
            out.append(linkage.ir().as_str());
            out.append(" ");
        }
        if let Some(convention) = &self.calling_convention {
            out.append(convention.ir().as_str());
            out.append(" ");
        }
        out.append(self.return_type.ir().as_str());
        out.append(" @");
        out.append(self.name.as_str());
        if self.blocks.len() == 0 {
            out.append("(");
            out.append(param_list_text(&self.parameters).as_str());
            out.append(")");
        } else {
            out.append(" {\n");
            out.append(block_list_text(&self.blocks).as_str());
            out.append("\n}");
        }
        out
    }
}

} // verus!
