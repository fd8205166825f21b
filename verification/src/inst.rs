//! The instruction set: the closed set of operations a basic block holds,
//! each with its one-line renderer into the canonical textual syntax.

use vstd::prelude::*;

use crate::blocks::Label;
use crate::values::{RegisterData, Type, Value, register_ir, type_ir, value_ir};

verus! {

/// The overflow-flag modifier carried by every binary arithmetic
/// instruction. Purely a rendering modifier; it enforces nothing.
#[derive(Debug)]
pub enum ArithmeticFlags {
    /// No flag text: wrapping is allowed.
    WrapAllowed,
    /// `nuw`: no unsigned wrap.
    NoUnsignedWrap,
    /// `nsw`: no signed wrap.
    NoSignedWrap,
    /// `nsw nuw`: neither signed nor unsigned wrap.
    NoSignedOrUnsignedWrap,
}

/// The textual form of the flags: the flag keywords, each followed by one
/// space, so that the flags text can stand directly before the type token;
/// empty when wrapping is allowed.
pub open spec fn flags_ir(f: ArithmeticFlags) -> Seq<char> {
    match f {
        ArithmeticFlags::WrapAllowed => Seq::empty(),
        ArithmeticFlags::NoUnsignedWrap => "nuw "@,
        ArithmeticFlags::NoSignedWrap => "nsw "@,
        ArithmeticFlags::NoSignedOrUnsignedWrap => "nsw nuw "@,
    }
}

impl Clone for ArithmeticFlags {
    /// A copy of exactly the same flags.
    fn clone(&self) -> (r: Self)
        ensures
            r == *self,
    {
        match self {
            ArithmeticFlags::WrapAllowed => ArithmeticFlags::WrapAllowed,
            ArithmeticFlags::NoUnsignedWrap => ArithmeticFlags::NoUnsignedWrap,
            ArithmeticFlags::NoSignedWrap => ArithmeticFlags::NoSignedWrap,
            ArithmeticFlags::NoSignedOrUnsignedWrap => ArithmeticFlags::NoSignedOrUnsignedWrap,
        }
    }
}

impl ArithmeticFlags {
    /// Renders the flags as their keyword text, `flags_ir(*self)`.
    pub fn ir(&self) -> (r: String)
        ensures
            r@ == flags_ir(*self),
    {
        match self {
            ArithmeticFlags::WrapAllowed => String::new(),
            ArithmeticFlags::NoUnsignedWrap => "nuw ".to_owned(),
            ArithmeticFlags::NoSignedWrap => "nsw ".to_owned(),
            ArithmeticFlags::NoSignedOrUnsignedWrap => "nsw nuw ".to_owned(),
        }
    }
}

/// One arm of a `switch`: a typed condition value and its target label.
/// Arms are rendered in sequence order; first-match semantics are a runtime
/// concern, not modeled here.
#[derive(Debug)]
pub struct SwitchBranch {
    pub ty: Type,
    pub condition: Value,
    pub label: Value,
}

/// The textual form of one `switch` arm: `type condition, label target`.
pub open spec fn branch_ir(b: SwitchBranch) -> Seq<char> {
    type_ir(b.ty) + " "@ + value_ir(b.condition) + ", label "@ + value_ir(b.label)
}

/// The renderings of the first `n` arms of `bs`, each preceded by one space.
pub open spec fn branch_list_prefix_ir(bs: Seq<SwitchBranch>, n: int) -> Seq<char>
    decreases n,
{
    if n <= 0 || n > bs.len() {
        Seq::empty()
    } else {
        branch_list_prefix_ir(bs, n - 1) + " "@ + branch_ir(bs[n - 1])
    }
}

/// The renderings of all arms of `bs`, each preceded by one space.
pub open spec fn branch_list_ir(bs: Seq<SwitchBranch>) -> Seq<char> {
    branch_list_prefix_ir(bs, bs.len() as int)
}

impl Clone for SwitchBranch {
    /// A deep copy that renders exactly as the original arm.
    fn clone(&self) -> (r: Self)
        ensures
            branch_ir(r) == branch_ir(*self),
    {
        SwitchBranch {
            ty: self.ty.clone(),
            condition: self.condition.clone(),
            label: self.label.clone(),
        }
    }
}

/// The rendering of the first `n` arms depends only on each arm's own
/// rendering, in order.
pub proof fn lemma_branch_list_prefix_congruent(
    a: Seq<SwitchBranch>,
    b: Seq<SwitchBranch>,
    n: int,
)
    requires
        n <= a.len(),
        n <= b.len(),
        forall|j: int| 0 <= j < n ==> branch_ir(a[j]) == branch_ir(b[j]),
    ensures
        branch_list_prefix_ir(a, n) == branch_list_prefix_ir(b, n),
    decreases n,
{
    if n > 0 {
        lemma_branch_list_prefix_congruent(a, b, n - 1);
    }
}

/// Clones each arm of `bs`; each copy renders exactly as its original.
fn clone_branch_list(bs: &Vec<SwitchBranch>) -> (r: Vec<SwitchBranch>)
    ensures
        r@.len() == bs@.len(),
        forall|j: int| 0 <= j < bs@.len() ==> branch_ir(r@[j]) == branch_ir(bs@[j]),
{
    let mut out: Vec<SwitchBranch> = Vec::new();
    let n = bs.len();
    let mut i: usize = 0;
    while i < n
        invariant
            n == bs@.len(),
            i <= n,
            out@.len() == i,
            forall|j: int| 0 <= j < i ==> branch_ir(out@[j]) == branch_ir(bs@[j]),
        decreases n - i,
    {
        out.push(bs[i].clone());
        i = i + 1;
    }
    out
}

/// An IR instruction: terminators, unary and binary operations, vector and
/// aggregate operations, and memory operations.
///
/// Every binary arithmetic or bitwise operation carries exactly one
/// destination register, a result type, two source operands and one flags
/// value. No operand validation is performed anywhere: a well-formed tree is
/// the caller's obligation.
#[derive(Debug)]
pub enum Instruction {
    /// `ret type value`: return a value from the function.
    Ret(Type, Value),
    /// `ret void`: return from a void function.
    RetVoid,
    /// `br i1 cond, label %then, label %else`: conditional branch.
    Br(Value, Label, Label),
    /// `switch type value [ arms ]`: multi-way branch.
    Switch(Type, Value, Vec<SwitchBranch>),
    /// `unreachable`: no control flow reaches this point.
    Unreachable,
    /// `%dst = fneg type value`: floating-point negation.
    FNeg(RegisterData, Type, Value),
    Add(RegisterData, Type, Value, Value, ArithmeticFlags),
    FAdd(RegisterData, Type, Value, Value, ArithmeticFlags),
    Sub(RegisterData, Type, Value, Value, ArithmeticFlags),
    FSub(RegisterData, Type, Value, Value, ArithmeticFlags),
    Mul(RegisterData, Type, Value, Value, ArithmeticFlags),
    FMul(RegisterData, Type, Value, Value, ArithmeticFlags),
    UDiv(RegisterData, Type, Value, Value, ArithmeticFlags),
    SDiv(RegisterData, Type, Value, Value, ArithmeticFlags),
    FDiv(RegisterData, Type, Value, Value, ArithmeticFlags),
    URem(RegisterData, Type, Value, Value, ArithmeticFlags),
    SRem(RegisterData, Type, Value, Value, ArithmeticFlags),
    FRem(RegisterData, Type, Value, Value, ArithmeticFlags),
    Shl(RegisterData, Type, Value, Value, ArithmeticFlags),
    LShr(RegisterData, Type, Value, Value, ArithmeticFlags),
    AShr(RegisterData, Type, Value, Value, ArithmeticFlags),
    And(RegisterData, Type, Value, Value, ArithmeticFlags),
    Or(RegisterData, Type, Value, Value, ArithmeticFlags),
    Xor(RegisterData, Type, Value, Value, ArithmeticFlags),
    /// `%dst = extractelement vecty vec, idxty idx`: read a vector lane.
    ExtractElement(RegisterData, Type, Value, Type, Value),
    /// `%dst = insertelement vecty vec, elemty elem`: write a vector lane.
    InsertElement(RegisterData, Type, Value, Type, Value),
    /// `%dst = extractvalue aggty agg, index`: read an aggregate member.
    ExtractValue(RegisterData, Type, Value, i32),
    /// `%dst = insertvalue aggty agg, index`: write an aggregate member.
    InsertValue(RegisterData, Type, Value, i32),
    /// `%dst = alloca type`: stack allocation of one value.
    Alloca(RegisterData, Type),
    /// `%dst = alloca type, i32 count`: stack allocation of several values.
    AllocaMultiple(RegisterData, Type, i32),
    /// `%dst = load ptr source`: read through a pointer.
    Load(RegisterData, Value),
    /// `store type value, ptr dest`: write through a pointer.
    Store(Value, Type, Value),
}

/// The shared textual shape of every binary arithmetic or bitwise
/// instruction: `%dst = op flags-type lhs, rhs`, where the flags text is
/// empty or ends in a space of its own.
pub open spec fn binop_ir(
    op: Seq<char>,
    dst: RegisterData,
    flags: ArithmeticFlags,
    ty: Type,
    lhs: Value,
    rhs: Value,
) -> Seq<char> {
    register_ir(dst) + " = "@ + op + " "@ + flags_ir(flags) + type_ir(ty) + " "@ + value_ir(lhs)
        + ", "@ + value_ir(rhs)
}

/// The exact one-line textual form of an instruction: a `%dst = ...`
/// assignment for value-producing operations, a bare opcode line for
/// terminators and `store`.
pub open spec fn inst_ir(i: Instruction) -> Seq<char> {
    match i {
        Instruction::Ret(ty, v) => "ret "@ + type_ir(ty) + " "@ + value_ir(v),
        Instruction::RetVoid => "ret void"@,
        Instruction::Br(cond, then_label, else_label) => "br i1 "@ + value_ir(cond)
            + ", label %"@ + then_label.name@ + ", label %"@ + else_label.name@,
        Instruction::Switch(ty, v, branches) => "switch "@ + type_ir(ty) + " "@ + value_ir(v)
            + " ["@ + branch_list_ir(branches@) + " ]"@,
        Instruction::Unreachable => "unreachable"@,
        Instruction::FNeg(dst, ty, v) => register_ir(dst) + " = fneg "@ + type_ir(ty) + " "@
            + value_ir(v),
        Instruction::Add(dst, ty, lhs, rhs, flags) => binop_ir("add"@, dst, flags, ty, lhs, rhs),
        Instruction::FAdd(dst, ty, lhs, rhs, flags) => binop_ir("fadd"@, dst, flags, ty, lhs, rhs),
        Instruction::Sub(dst, ty, lhs, rhs, flags) => binop_ir("sub"@, dst, flags, ty, lhs, rhs),
        Instruction::FSub(dst, ty, lhs, rhs, flags) => binop_ir("fsub"@, dst, flags, ty, lhs, rhs),
        Instruction::Mul(dst, ty, lhs, rhs, flags) => binop_ir("mul"@, dst, flags, ty, lhs, rhs),
        Instruction::FMul(dst, ty, lhs, rhs, flags) => binop_ir("fmul"@, dst, flags, ty, lhs, rhs),
        Instruction::UDiv(dst, ty, lhs, rhs, flags) => binop_ir("udiv"@, dst, flags, ty, lhs, rhs),
        Instruction::SDiv(dst, ty, lhs, rhs, flags) => binop_ir("sdiv"@, dst, flags, ty, lhs, rhs),
        Instruction::FDiv(dst, ty, lhs, rhs, flags) => binop_ir("fdiv"@, dst, flags, ty, lhs, rhs),
        Instruction::URem(dst, ty, lhs, rhs, flags) => binop_ir("urem"@, dst, flags, ty, lhs, rhs),
        Instruction::SRem(dst, ty, lhs, rhs, flags) => binop_ir("srem"@, dst, flags, ty, lhs, rhs),
        Instruction::FRem(dst, ty, lhs, rhs, flags) => binop_ir("frem"@, dst, flags, ty, lhs, rhs),
        Instruction::Shl(dst, ty, lhs, rhs, flags) => binop_ir("shl"@, dst, flags, ty, lhs, rhs),
        Instruction::LShr(dst, ty, lhs, rhs, flags) => binop_ir("lshr"@, dst, flags, ty, lhs, rhs),
        Instruction::AShr(dst, ty, lhs, rhs, flags) => binop_ir("ashr"@, dst, flags, ty, lhs, rhs),
        Instruction::And(dst, ty, lhs, rhs, flags) => binop_ir("and"@, dst, flags, ty, lhs, rhs),
        Instruction::Or(dst, ty, lhs, rhs, flags) => binop_ir("or"@, dst, flags, ty, lhs, rhs),
        Instruction::Xor(dst, ty, lhs, rhs, flags) => binop_ir("xor"@, dst, flags, ty, lhs, rhs),
        Instruction::ExtractElement(dst, vec_ty, vec, idx_ty, idx) => register_ir(dst)
            + " = extractelement "@ + type_ir(vec_ty) + " "@ + value_ir(vec) + ", "@ + type_ir(
            idx_ty,
        ) + " "@ + value_ir(idx),
        Instruction::InsertElement(dst, vec_ty, vec, elem_ty, elem) => register_ir(dst)
            + " = insertelement "@ + type_ir(vec_ty) + " "@ + value_ir(vec) + ", "@ + type_ir(
            elem_ty,
        ) + " "@ + value_ir(elem),
        Instruction::ExtractValue(dst, ty, agg, index) => register_ir(dst) + " = extractvalue "@
            + type_ir(ty) + " "@ + value_ir(agg) + ", "@ + crate::numeral::int_text(index as int),
        Instruction::InsertValue(dst, ty, agg, index) => register_ir(dst) + " = insertvalue "@
            + type_ir(ty) + " "@ + value_ir(agg) + ", "@ + crate::numeral::int_text(index as int),
        Instruction::Alloca(dst, ty) => register_ir(dst) + " = alloca "@ + type_ir(ty),
        Instruction::AllocaMultiple(dst, ty, count) => register_ir(dst) + " = alloca "@ + type_ir(
            ty,
        ) + ", i32 "@ + crate::numeral::int_text(count as int),
        Instruction::Load(dst, source) => register_ir(dst) + " = load ptr "@ + value_ir(source),
        Instruction::Store(dest, ty, v) => "store "@ + type_ir(ty) + " "@ + value_ir(v)
            + ", ptr "@ + value_ir(dest),
    }
}

impl Clone for Instruction {
    /// A deep copy that renders exactly as the original instruction.
    fn clone(&self) -> (r: Self)
        ensures
            inst_ir(r) == inst_ir(*self),
    {
        match self {
            Instruction::Ret(ty, v) => Instruction::Ret(ty.clone(), v.clone()),
            Instruction::RetVoid => Instruction::RetVoid,
            Instruction::Br(cond, then_label, else_label) => Instruction::Br(
                cond.clone(),
                then_label.clone(),
                else_label.clone(),
            ),
            Instruction::Switch(ty, v, branches) => {
                let cloned = clone_branch_list(branches);
                proof {
                    lemma_branch_list_prefix_congruent(
                        cloned@,
                        branches@,
                        branches@.len() as int,
                    );
                }
                Instruction::Switch(ty.clone(), v.clone(), cloned)
            },
            Instruction::Unreachable => Instruction::Unreachable,
            Instruction::FNeg(dst, ty, v) => Instruction::FNeg(
                dst.clone(),
                ty.clone(),
                v.clone(),
            ),
            Instruction::Add(dst, ty, lhs, rhs, flags) => Instruction::Add(
                dst.clone(),
                ty.clone(),
                lhs.clone(),
                rhs.clone(),
                flags.clone(),
            ),
            Instruction::FAdd(dst, ty, lhs, rhs, flags) => Instruction::FAdd(
                dst.clone(),
                ty.clone(),
                lhs.clone(),
                rhs.clone(),
                flags.clone(),
            ),
            Instruction::Sub(dst, ty, lhs, rhs, flags) => Instruction::Sub(
                dst.clone(),
                ty.clone(),
                lhs.clone(),
                rhs.clone(),
                flags.clone(),
            ),
            Instruction::FSub(dst, ty, lhs, rhs, flags) => Instruction::FSub(
                dst.clone(),
                ty.clone(),
                lhs.clone(),
                rhs.clone(),
                flags.clone(),
            ),
            Instruction::Mul(dst, ty, lhs, rhs, flags) => Instruction::Mul(
                dst.clone(),
                ty.clone(),
                lhs.clone(),
                rhs.clone(),
                flags.clone(),
            ),
            Instruction::FMul(dst, ty, lhs, rhs, flags) => Instruction::FMul(
                dst.clone(),
                ty.clone(),
                lhs.clone(),
                rhs.clone(),
                flags.clone(),
            ),
            Instruction::UDiv(dst, ty, lhs, rhs, flags) => Instruction::UDiv(
                dst.clone(),
                ty.clone(),
                lhs.clone(),
                rhs.clone(),
                flags.clone(),
            ),
            Instruction::SDiv(dst, ty, lhs, rhs, flags) => Instruction::SDiv(
                dst.clone(),
                ty.clone(),
                lhs.clone(),
                rhs.clone(),
                flags.clone(),
            ),
            Instruction::FDiv(dst, ty, lhs, rhs, flags) => Instruction::FDiv(
                dst.clone(),
                ty.clone(),
                lhs.clone(),
                rhs.clone(),
                flags.clone(),
            ),
            Instruction::URem(dst, ty, lhs, rhs, flags) => Instruction::URem(
                dst.clone(),
                ty.clone(),
                lhs.clone(),
                rhs.clone(),
                flags.clone(),
            ),
            Instruction::SRem(dst, ty, lhs, rhs, flags) => Instruction::SRem(
                dst.clone(),
                ty.clone(),
                lhs.clone(),
                rhs.clone(),
                flags.clone(),
            ),
            Instruction::FRem(dst, ty, lhs, rhs, flags) => Instruction::FRem(
                dst.clone(),
                ty.clone(),
                lhs.clone(),
                rhs.clone(),
                flags.clone(),
            ),
            Instruction::Shl(dst, ty, lhs, rhs, flags) => Instruction::Shl(
                dst.clone(),
                ty.clone(),
                lhs.clone(),
                rhs.clone(),
                flags.clone(),
            ),
            Instruction::LShr(dst, ty, lhs, rhs, flags) => Instruction::LShr(
                dst.clone(),
                ty.clone(),
                lhs.clone(),
                rhs.clone(),
                flags.clone(),
            ),
            Instruction::AShr(dst, ty, lhs, rhs, flags) => Instruction::AShr(
                dst.clone(),
                ty.clone(),
                lhs.clone(),
                rhs.clone(),
                flags.clone(),
            ),
            Instruction::And(dst, ty, lhs, rhs, flags) => Instruction::And(
                dst.clone(),
                ty.clone(),
                lhs.clone(),
                rhs.clone(),
                flags.clone(),
            ),
            Instruction::Or(dst, ty, lhs, rhs, flags) => Instruction::Or(
                dst.clone(),
                ty.clone(),
                lhs.clone(),
                rhs.clone(),
                flags.clone(),
            ),
            Instruction::Xor(dst, ty, lhs, rhs, flags) => Instruction::Xor(
                dst.clone(),
                ty.clone(),
                lhs.clone(),
                rhs.clone(),
                flags.clone(),
            ),
            Instruction::ExtractElement(dst, vec_ty, vec, idx_ty, idx) => {
                Instruction::ExtractElement(
                    dst.clone(),
                    vec_ty.clone(),
                    vec.clone(),
                    idx_ty.clone(),
                    idx.clone(),
                )
            },
            Instruction::InsertElement(dst, vec_ty, vec, elem_ty, elem) => {
                Instruction::InsertElement(
                    dst.clone(),
                    vec_ty.clone(),
                    vec.clone(),
                    elem_ty.clone(),
                    elem.clone(),
                )
            },
            Instruction::ExtractValue(dst, ty, agg, index) => Instruction::ExtractValue(
                dst.clone(),
                ty.clone(),
                agg.clone(),
                *index,
            ),
            Instruction::InsertValue(dst, ty, agg, index) => Instruction::InsertValue(
                dst.clone(),
                ty.clone(),
                agg.clone(),
                *index,
            ),
            Instruction::Alloca(dst, ty) => Instruction::Alloca(dst.clone(), ty.clone()),
            Instruction::AllocaMultiple(dst, ty, count) => Instruction::AllocaMultiple(
                dst.clone(),
                ty.clone(),
                *count,
            ),
            Instruction::Load(dst, source) => Instruction::Load(dst.clone(), source.clone()),
            Instruction::Store(dest, ty, v) => Instruction::Store(
                dest.clone(),
                ty.clone(),
                v.clone(),
            ),
        }
    }
}

/// Renders one binary arithmetic or bitwise instruction line.
fn binop_line(
    op: &str,
    dst: &RegisterData,
    flags: &ArithmeticFlags,
    ty: &Type,
    lhs: &Value,
    rhs: &Value,
) -> (r: String)
    ensures
        r@ == binop_ir(op@, *dst, *flags, *ty, *lhs, *rhs),
{
    let mut out = dst.ir();
    out.append(" = ");
    out.append(op);
    out.append(" ");
    out.append(flags.ir().as_str());
    out.append(ty.ir().as_str());
    out.append(" ");
    out.append(lhs.ir().as_str());
    out.append(", ");
    out.append(rhs.ir().as_str());
    out
}

/// Renders each arm of `bs`, each preceded by one space.
fn branch_list_text(bs: &Vec<SwitchBranch>) -> (r: String)
    ensures
        r@ == branch_list_ir(bs@),
{
    let mut out = String::new();
    let n = bs.len();
    let mut i: usize = 0;
    while i < n
        invariant
            n == bs@.len(),
            i <= n,
            out@ == branch_list_prefix_ir(bs@, i as int),
        decreases n - i,
    {
        out.append(" ");
        out.append(bs[i].ty.ir().as_str());
        out.append(" ");
        out.append(bs[i].condition.ir().as_str());
        out.append(", label ");
        out.append(bs[i].label.ir().as_str());
        i = i + 1;
    }
    out
}

impl Instruction {
    /// Renders this instruction into its exact one-line textual form,
    /// `inst_ir(*self)`. The match is exhaustive over the closed variant
    /// set: a new variant does not build until its rendering is added here.
    pub fn ir(&self) -> (r: String)
        ensures
            r@ == inst_ir(*self),
    {
        match self {
            Instruction::Ret(ty, v) => {
                let mut out = String::from_str("ret ");
                out.append(ty.ir().as_str());
                out.append(" ");
                out.append(v.ir().as_str());
                out
            },
            Instruction::RetVoid => "ret void".to_owned(),
            Instruction::Br(cond, then_label, else_label) => {
                let mut out = String::from_str("br i1 ");
                out.append(cond.ir().as_str());
                out.append(", label %");
                out.append(then_label.name.as_str());
                out.append(", label %");
                out.append(else_label.name.as_str());
                out
            },
            Instruction::Switch(ty, v, branches) => {
                let mut out = String::from_str("switch ");
                out.append(ty.ir().as_str());
                out.append(" ");
                out.append(v.ir().as_str());
                out.append(" [");
                out.append(branch_list_text(branches).as_str());
                out.append(" ]");
                out
            },
            Instruction::Unreachable => "unreachable".to_owned(),
            Instruction::FNeg(dst, ty, v) => {
                let mut out = dst.ir();
                out.append(" = fneg ");
                out.append(ty.ir().as_str());
                out.append(" ");
                out.append(v.ir().as_str());
                out
            },
            Instruction::Add(dst, ty, lhs, rhs, flags) => binop_line(
                "add",
                dst,
                flags,
                ty,
                lhs,
                rhs,
            ),
            Instruction::FAdd(dst, ty, lhs, rhs, flags) => binop_line(
                "fadd",
                dst,
                flags,
                ty,
                lhs,
                rhs,
            ),
            Instruction::Sub(dst, ty, lhs, rhs, flags) => binop_line(
                "sub",
                dst,
                flags,
                ty,
                lhs,
                rhs,
            ),
            Instruction::FSub(dst, ty, lhs, rhs, flags) => binop_line(
                "fsub",
                dst,
                flags,
                ty,
                lhs,
                rhs,
            ),
            Instruction::Mul(dst, ty, lhs, rhs, flags) => binop_line(
                "mul",
                dst,
                flags,
                ty,
                lhs,
                rhs,
            ),
            Instruction::FMul(dst, ty, lhs, rhs, flags) => binop_line(
                "fmul",
                dst,
                flags,
                ty,
                lhs,
                rhs,
            ),
            Instruction::UDiv(dst, ty, lhs, rhs, flags) => binop_line(
                "udiv",
                dst,
                flags,
                ty,
                lhs,
                rhs,
            ),
            Instruction::SDiv(dst, ty, lhs, rhs, flags) => binop_line(
                "sdiv",
                dst,
                flags,
                ty,
                lhs,
                rhs,
            ),
            Instruction::FDiv(dst, ty, lhs, rhs, flags) => binop_line(
                "fdiv",
                dst,
                flags,
                ty,
                lhs,
                rhs,
            ),
            Instruction::URem(dst, ty, lhs, rhs, flags) => binop_line(
                "urem",
                dst,
                flags,
                ty,
                lhs,
                rhs,
            ),
            Instruction::SRem(dst, ty, lhs, rhs, flags) => binop_line(
                "srem",
                dst,
                flags,
                ty,
                lhs,
                rhs,
            ),
            Instruction::FRem(dst, ty, lhs, rhs, flags) => binop_line(
                "frem",
                dst,
                flags,
                ty,
                lhs,
                rhs,
            ),
            Instruction::Shl(dst, ty, lhs, rhs, flags) => binop_line(
                "shl",
                dst,
                flags,
                ty,
                lhs,
                rhs,
            ),
            Instruction::LShr(dst, ty, lhs, rhs, flags) => binop_line(
                "lshr",
                dst,
                flags,
                ty,
                lhs,
                rhs,
            ),
            Instruction::AShr(dst, ty, lhs, rhs, flags) => binop_line(
                "ashr",
                dst,
                flags,
                ty,
                lhs,
                rhs,
            ),
            Instruction::And(dst, ty, lhs, rhs, flags) => binop_line(
                "and",
                dst,
                flags,
                ty,
                lhs,
                rhs,
            ),
            Instruction::Or(dst, ty, lhs, rhs, flags) => binop_line(
                "or",
                dst,
                flags,
                ty,
                lhs,
                rhs,
            ),
            Instruction::Xor(dst, ty, lhs, rhs, flags) => binop_line(
                "xor",
                dst,
                flags,
                ty,
                lhs,
                rhs,
            ),
            Instruction::ExtractElement(dst, vec_ty, vec, idx_ty, idx) => {
                let mut out = dst.ir();
                out.append(" = extractelement ");
                out.append(vec_ty.ir().as_str());
                out.append(" ");
                out.append(vec.ir().as_str());
                out.append(", ");
                out.append(idx_ty.ir().as_str());
                out.append(" ");
                out.append(idx.ir().as_str());
                out
            },
            Instruction::InsertElement(dst, vec_ty, vec, elem_ty, elem) => {
                let mut out = dst.ir();
                out.append(" = insertelement ");
                out.append(vec_ty.ir().as_str());
                out.append(" ");
                out.append(vec.ir().as_str());
                out.append(", ");
                out.append(elem_ty.ir().as_str());
                out.append(" ");
                out.append(elem.ir().as_str());
                out
            },
            Instruction::ExtractValue(dst, ty, agg, index) => {
                let mut out = dst.ir();
                out.append(" = extractvalue ");
                out.append(ty.ir().as_str());
                out.append(" ");
                out.append(agg.ir().as_str());
                out.append(", ");
                out.append(crate::numeral::i32_text(*index).as_str());
                out
            },
            Instruction::InsertValue(dst, ty, agg, index) => {
                let mut out = dst.ir();
                out.append(" = insertvalue ");
                out.append(ty.ir().as_str());
                out.append(" ");
                out.append(agg.ir().as_str());
                out.append(", ");
                out.append(crate::numeral::i32_text(*index).as_str());
                out
            },
            Instruction::Alloca(dst, ty) => {
                let mut out = dst.ir();
                out.append(" = alloca ");
                out.append(ty.ir().as_str());
                out
            },
            Instruction::AllocaMultiple(dst, ty, count) => {
                let mut out = dst.ir();
                out.append(" = alloca ");
                out.append(ty.ir().as_str());
                out.append(", i32 ");
                out.append(crate::numeral::i32_text(*count).as_str());
                out
            },
            Instruction::Load(dst, source) => {
                let mut out = dst.ir();
                out.append(" = load ptr ");
                out.append(source.ir().as_str());
                out
            },
            Instruction::Store(dest, ty, v) => {
                let mut out = String::from_str("store ");
                out.append(ty.ir().as_str());
                out.append(" ");
                out.append(v.ir().as_str());
                out.append(", ptr ");
                out.append(dest.ir().as_str());
                out
            },
        }
    }
}

} // verus!
