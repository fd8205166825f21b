//! The type model and the value/constant model: the leaves of the IR tree,
//! each with its renderer into the canonical textual syntax.

use vstd::prelude::*;

use crate::numeral::int_text;

verus! {

/// An IR type: a closed set of scalar, aggregate and opaque type kinds.
///
/// Types are immutable value data, freely copyable and compared structurally.
/// The documented invariant on `Integer` — a bit width of at least 1 — is not
/// imposed on direct construction; `Type::integer` checks it.
#[derive(Debug)]
pub enum Type {
    /// The void type does not represent any value and has no size.
    Void,
    /// A function signature: a return type and the ordered parameter types.
    FunctionType(Box<Type>, Vec<Type>),
    /// An integer type of the given bit width (well-formed widths are >= 1).
    Integer(i32),
    /// 16-bit floating-point value (IEEE-754 binary16).
    Float16,
    /// 16-bit "brain" floating-point value (8 exponent bits, 7-bit significand).
    BFloat16,
    /// 32-bit floating-point value (IEEE-754 binary32).
    Float32,
    /// 64-bit floating-point value (IEEE-754 binary64).
    Float64,
    /// 80-bit floating-point value (x87).
    X86Float80,
    /// 128-bit floating-point value (IEEE-754 binary128).
    Float128,
    /// 128-bit floating-point value (two 64-bit halves).
    PPCFloat128,
    /// A value held in an AMX tile register on an x86 machine.
    X86AMX,
    /// The opaque pointer type: a memory location, with no pointee type.
    Ptr,
    /// A target extension type, opaque to the compiler.
    Target,
    /// A vector of `size` elements of type `ty`, operated on in parallel.
    Vector { ty: Box<Type>, size: i32 },
    /// The type of code labels.
    Label,
    /// A value associated with an instruction that must not be introspected.
    Token,
    /// The type of embedded metadata.
    Metadata,
    /// An array of elements of the given type (the element count is not part
    /// of this model; a documented simplification of the textual form).
    Array(Box<Type>),
    /// A structure: an ordered collection of member types.
    Struct(Vec<Type>),
    /// An opaque structure type, with no body specified.
    Opaque,
}

/// The exact textual form of a type: `Integer(32)` is `i32`, `Ptr` is `ptr`,
/// `Vector { ty, size }` is `[size x ty]`, `Array(t)` is `[t]`,
/// `Struct(ms)` is `struct m1, m2, ...`, `FunctionType(r, ps)` is
/// `r(p1, p2, ...)`, and each scalar kind is its fixed keyword.
pub open spec fn type_ir(t: Type) -> Seq<char>
    decreases t, 0int,
{
    match t {
        Type::Void => "void"@,
        Type::FunctionType(ret, params) => type_ir(*ret) + "("@ + type_list_prefix_ir(
            params@,
            params@.len() as int,
        ) + ")"@,
        Type::Integer(width) => "i"@ + int_text(width as int),
        Type::Float16 => "half"@,
        Type::BFloat16 => "bfloat"@,
        Type::Float32 => "float"@,
        Type::Float64 => "double"@,
        Type::X86Float80 => "x86_fp80"@,
        Type::Float128 => "fp128"@,
        Type::PPCFloat128 => "ppc_fp128"@,
        Type::X86AMX => "x86_amx"@,
        Type::Ptr => "ptr"@,
        Type::Target => "target(\"label\")"@,
        Type::Vector { ty, size } => "["@ + int_text(size as int) + " x "@ + type_ir(*ty) + "]"@,
        Type::Label => "label"@,
        Type::Token => "token"@,
        Type::Metadata => "metadata"@,
        Type::Array(ty) => "["@ + type_ir(*ty) + "]"@,
        Type::Struct(members) => "struct "@ + type_list_prefix_ir(
            members@,
            members@.len() as int,
        ),
        Type::Opaque => "opaque"@,
    }
}

/// The renderings of the first `n` types of `ts`, joined with `, `.
pub open spec fn type_list_prefix_ir(ts: Seq<Type>, n: int) -> Seq<char>
    decreases ts, n,
{
    if n <= 0 || n > ts.len() {
        Seq::empty()
    } else if n == 1 {
        type_ir(ts[0])
    } else {
        type_list_prefix_ir(ts, n - 1) + ", "@ + type_ir(ts[n - 1])
    }
}

/// The renderings of all types of `ts`, joined with `, `.
pub open spec fn type_list_ir(ts: Seq<Type>) -> Seq<char> {
    type_list_prefix_ir(ts, ts.len() as int)
}

/// Renders each type of `ts`, joined with `, `.
fn type_list_text(ts: &Vec<Type>) -> (r: String)
    ensures
        r@ == type_list_ir(ts@),
    decreases ts,
{
    let mut out = String::new();
    let n = ts.len();
    let mut i: usize = 0;
    while i < n
        invariant
            n == ts@.len(),
            i <= n,
            out@ == type_list_prefix_ir(ts@, i as int),
        decreases n - i,
    {
        if i > 0 {
            out.append(", ");
        }
        proof {
            assert(decreases_to!(ts => ts@[i as int]));
        }
        out.append(ts[i].ir().as_str());
        i = i + 1;
    }
    out
}

impl Type {
    /// Checked construction of an integer type: widths below 1 are rejected.
    pub fn integer(width: i32) -> (r: Option<Type>)
        ensures
            width >= 1 ==> r == Some(Type::Integer(width)),
            width < 1 ==> r is None,
    {
        if width >= 1 {
            Some(Type::Integer(width))
        } else {
            None
        }
    }

    /// Renders this type into its exact textual form, `type_ir(*self)`.
    pub fn ir(&self) -> (r: String)
        ensures
            r@ == type_ir(*self),
        decreases self,
    {
        match self {
            Type::Void => "void".to_owned(),
            Type::FunctionType(ret, params) => {
                let mut out = ret.ir();
                out.append("(");
                out.append(type_list_text(params).as_str());
                out.append(")");
                out
            },
            Type::Integer(width) => {
                let mut out = String::from_str("i");
                out.append(crate::numeral::i32_text(*width).as_str());
                out
            },
            Type::Float16 => "half".to_owned(),
            Type::BFloat16 => "bfloat".to_owned(),
            Type::Float32 => "float".to_owned(),
            Type::Float64 => "double".to_owned(),
            Type::X86Float80 => "x86_fp80".to_owned(),
            Type::Float128 => "fp128".to_owned(),
            Type::PPCFloat128 => "ppc_fp128".to_owned(),
            Type::X86AMX => "x86_amx".to_owned(),
            Type::Ptr => "ptr".to_owned(),
            Type::Target => "target(\"label\")".to_owned(),
            Type::Vector { ty, size } => {
                let mut out = String::from_str("[");
                out.append(crate::numeral::i32_text(*size).as_str());
                out.append(" x ");
                out.append(ty.ir().as_str());
                out.append("]");
                out
            },
            Type::Label => "label".to_owned(),
            Type::Token => "token".to_owned(),
            Type::Metadata => "metadata".to_owned(),
            Type::Array(ty) => {
                let mut out = String::from_str("[");
                out.append(ty.ir().as_str());
                out.append("]");
                out
            },
            Type::Struct(members) => {
                let mut out = String::from_str("struct ");
                out.append(type_list_text(members).as_str());
                out
            },
            Type::Opaque => "opaque".to_owned(),
        }
    }
}

/// The rendering of the first `n` types of a list depends only on each
/// type's own rendering, in order.
pub proof fn lemma_type_list_prefix_congruent(a: Seq<Type>, b: Seq<Type>, n: int)
    requires
        n <= a.len(),
        n <= b.len(),
        forall|j: int| 0 <= j < n ==> type_ir(a[j]) == type_ir(b[j]),
    ensures
        type_list_prefix_ir(a, n) == type_list_prefix_ir(b, n),
    decreases n,
{
    if n > 1 {
        lemma_type_list_prefix_congruent(a, b, n - 1);
    }
}

/// Clones each type of `ts`; each copy renders exactly as its original.
fn clone_type_list(ts: &Vec<Type>) -> (r: Vec<Type>)
    ensures
        r@.len() == ts@.len(),
        forall|j: int| 0 <= j < ts@.len() ==> type_ir(r@[j]) == type_ir(ts@[j]),
    decreases ts,
{
    let mut out: Vec<Type> = Vec::new();
    let n = ts.len();
    let mut i: usize = 0;
    while i < n
        invariant
            n == ts@.len(),
            i <= n,
            out@.len() == i,
            forall|j: int| 0 <= j < i ==> type_ir(out@[j]) == type_ir(ts@[j]),
        decreases n - i,
    {
        proof {
            assert(decreases_to!(ts => ts@[i as int]));
        }
        out.push(ts[i].clone());
        i = i + 1;
    }
    out
}

impl Clone for Type {
    /// A deep copy that renders exactly as the original type.
    fn clone(&self) -> (r: Self)
        ensures
            type_ir(r) == type_ir(*self),
        decreases self,
    {
        match self {
            Type::Void => Type::Void,
            Type::FunctionType(ret, params) => {
                let cloned = clone_type_list(params);
                proof {
                    lemma_type_list_prefix_congruent(cloned@, params@, params@.len() as int);
                }
                Type::FunctionType(Box::new((**ret).clone()), cloned)
            },
            Type::Integer(width) => Type::Integer(*width),
            Type::Float16 => Type::Float16,
            Type::BFloat16 => Type::BFloat16,
            Type::Float32 => Type::Float32,
            Type::Float64 => Type::Float64,
            Type::X86Float80 => Type::X86Float80,
            Type::Float128 => Type::Float128,
            Type::PPCFloat128 => Type::PPCFloat128,
            Type::X86AMX => Type::X86AMX,
            Type::Ptr => Type::Ptr,
            Type::Target => Type::Target,
            Type::Vector { ty, size } => Type::Vector {
                ty: Box::new((**ty).clone()),
                size: *size,
            },
            Type::Label => Type::Label,
            Type::Token => Type::Token,
            Type::Metadata => Type::Metadata,
            Type::Array(ty) => Type::Array(Box::new((**ty).clone())),
            Type::Struct(members) => {
                let cloned = clone_type_list(members);
                proof {
                    lemma_type_list_prefix_congruent(cloned@, members@, members@.len() as int);
                }
                Type::Struct(cloned)
            },
            Type::Opaque => Type::Opaque,
        }
    }
}

/// A reference to a global value, held by name; two references with the same
/// name denote the same global.
#[derive(Debug)]
pub struct GlobalPtr {
    pub name: String,
}

/// The textual form of a global reference: `@name`.
pub open spec fn global_ir(g: GlobalPtr) -> Seq<char> {
    "@"@ + g.name@
}

impl GlobalPtr {
    /// Renders this reference as `@name`.
    pub fn ir(&self) -> (r: String)
        ensures
            r@ == global_ir(*self),
    {
        let mut out = String::from_str("@");
        out.append(self.name.as_str());
        out
    }
}

/// A reference to a local register, held by name; two references with the
/// same name denote the same SSA value (uniqueness of names within a function
/// is a caller obligation, not checked here).
#[derive(Debug)]
pub struct RegisterData {
    pub name: String,
}

/// The textual form of a register reference: `%name`.
pub open spec fn register_ir(r: RegisterData) -> Seq<char> {
    "%"@ + r.name@
}

impl RegisterData {
    /// Builds a register reference with the given name.
    pub fn new(name: &str) -> (r: RegisterData)
        ensures
            r.name@ == name@,
    {
        RegisterData { name: name.to_owned() }
    }

    /// Renders this reference as `%name`.
    pub fn ir(&self) -> (r: String)
        ensures
            r@ == register_ir(*self),
    {
        let mut out = String::from_str("%");
        out.append(self.name.as_str());
        out
    }
}

/// An IR value: a reference to a global or a register, a raw string, or a
/// constant.
#[derive(Debug)]
pub enum Value {
    /// A global value, e.g. `@main`.
    GlobalVariable(GlobalPtr),
    /// A local register, e.g. `%2`.
    Register(RegisterData),
    /// A raw string, rendered in its quoted, escaped form, e.g. `c"hi"`.
    CString(String),
    /// A constant value.
    Constant(ConstantData),
}

/// A constant value: booleans, integer and floating-point literals, pointer
/// and placeholder constants, and constant aggregates.
///
/// Each aggregate element re-states its own type; the model does not check
/// that the elements of an array or vector share one type.
#[derive(Debug)]
pub enum ConstantData {
    /// The `i1` constant `true`.
    True,
    /// The `i1` constant `false`.
    False,
    /// An integer constant, up to 128 bits signed.
    Integer(i128),
    /// A floating-point constant, held as its decimal text (e.g. `"2.5"`).
    /// The conversion from a native floating-point number to its text is the
    /// caller's concern; the renderer emits the text as given.
    FloatingPoint(String),
    /// The null pointer constant.
    NullPtr,
    /// A structure constant: an ordered sequence of typed elements.
    StructureConstant(Vec<(Type, Value)>),
    /// An array constant: an ordered sequence of typed elements.
    ArrayConstant(Vec<(Type, Value)>),
    /// A vector constant: an ordered sequence of typed elements.
    VectorConstant(Vec<(Type, Value)>),
    /// The result of an erroneous operation.
    Poison,
    /// A value with an unspecified bit pattern.
    Undef,
    /// The address of a basic block (by function and block name).
    BlockAddress(String, String),
}

/// The quoted, escaped textual form of a string, exactly as std's `Debug`
/// formatting of `str` produces it: surrounding double quotes, with quotes,
/// backslashes and non-printable characters escaped. It is a function of the
/// characters alone; this model gives it no definition of its own.
pub uninterp spec fn quoted_text(s: Seq<char>) -> Seq<char>;

/// Relies on std's `Debug` formatting of `str` (`format!("{:?}", ..)`): the
/// quoted, escaped form of the string, a pure function of its characters.
#[verifier::external_body]
fn quoted(s: &str) -> (r: String)
    ensures
        r@ == quoted_text(s@),
{
    format!("{:?}", s)
}

/// The exact textual form of a value: `@name` for a global, `%name` for a
/// register, `c` followed by the quoted form for a raw string, and the
/// constant's own form for a constant.
pub open spec fn value_ir(v: Value) -> Seq<char>
    decreases v, 0int,
{
    match v {
        Value::GlobalVariable(g) => global_ir(g),
        Value::Register(r) => register_ir(r),
        Value::CString(s) => "c"@ + quoted_text(s@),
        Value::Constant(c) => constant_ir(c),
    }
}

/// The exact textual form of a constant: `true`/`false`, the decimal text of
/// an integer, the given text of a floating-point constant, `null`, `poison`,
/// `undef`, `blockaddress(@fn, %block)`, and aggregates as `{ t v, ... }`,
/// `[ t v, ... ]` or `< t v, ... >`.
pub open spec fn constant_ir(c: ConstantData) -> Seq<char>
    decreases c, 0int,
{
    match c {
        ConstantData::True => "true"@,
        ConstantData::False => "false"@,
        ConstantData::Integer(i) => int_text(i as int),
        ConstantData::FloatingPoint(text) => text@,
        ConstantData::NullPtr => "null"@,
        ConstantData::StructureConstant(elems) => "{ "@ + pair_list_prefix_ir(
            elems@,
            elems@.len() as int,
        ) + " }"@,
        ConstantData::ArrayConstant(elems) => "[ "@ + pair_list_prefix_ir(
            elems@,
            elems@.len() as int,
        ) + " ]"@,
        ConstantData::VectorConstant(elems) => "< "@ + pair_list_prefix_ir(
            elems@,
            elems@.len() as int,
        ) + " >"@,
        ConstantData::Poison => "poison"@,
        ConstantData::Undef => "undef"@,
        ConstantData::BlockAddress(func, block) => "blockaddress(@"@ + func@ + ", %"@ + block@
            + ")"@,
    }
}

/// The renderings of the first `n` typed elements of `ps`, each as
/// `type value`, joined with `, `.
pub open spec fn pair_list_prefix_ir(ps: Seq<(Type, Value)>, n: int) -> Seq<char>
    decreases ps, n,
{
    if n <= 0 || n > ps.len() {
        Seq::empty()
    } else if n == 1 {
        type_ir(ps[0].0) + " "@ + value_ir(ps[0].1)
    } else {
        pair_list_prefix_ir(ps, n - 1) + ", "@ + type_ir(ps[n - 1].0) + " "@ + value_ir(
            ps[n - 1].1,
        )
    }
}

/// The renderings of all typed elements of `ps`, joined with `, `.
pub open spec fn pair_list_ir(ps: Seq<(Type, Value)>) -> Seq<char> {
    pair_list_prefix_ir(ps, ps.len() as int)
}

/// Renders each typed element of `ps` as `type value`, joined with `, `.
fn pair_list_text(ps: &Vec<(Type, Value)>) -> (r: String)
    ensures
        r@ == pair_list_ir(ps@),
    decreases ps,
{
    let mut out = String::new();
    let n = ps.len();
    let mut i: usize = 0;
    while i < n
        invariant
            n == ps@.len(),
            i <= n,
            out@ == pair_list_prefix_ir(ps@, i as int),
        decreases n - i,
    {
        if i > 0 {
            out.append(", ");
        }
        proof {
            assert(decreases_to!(ps => ps@[i as int]));
        }
        out.append(ps[i].0.ir().as_str());
        out.append(" ");
        out.append(ps[i].1.ir().as_str());
        i = i + 1;
    }
    out
}

/// The rendering of the first `n` typed elements depends only on each
/// element's type and on its value's rendering, in order.
pub proof fn lemma_pair_list_prefix_congruent(
    a: Seq<(Type, Value)>,
    b: Seq<(Type, Value)>,
    n: int,
)
    requires
        n <= a.len(),
        n <= b.len(),
        forall|j: int|
            0 <= j < n ==> type_ir(a[j].0) == type_ir(b[j].0) && value_ir(a[j].1) == value_ir(
                b[j].1,
            ),
    ensures
        pair_list_prefix_ir(a, n) == pair_list_prefix_ir(b, n),
    decreases n,
{
    if n > 1 {
        lemma_pair_list_prefix_congruent(a, b, n - 1);
    }
}

/// Clones each typed element of `ps`; each copy's type and value render
/// exactly as the originals.
fn clone_pair_list(ps: &Vec<(Type, Value)>) -> (r: Vec<(Type, Value)>)
    ensures
        r@.len() == ps@.len(),
        forall|j: int|
            0 <= j < ps@.len() ==> type_ir(r@[j].0) == type_ir(ps@[j].0) && value_ir(r@[j].1)
                == value_ir(ps@[j].1),
    decreases ps,
{
    let mut out: Vec<(Type, Value)> = Vec::new();
    let n = ps.len();
    let mut i: usize = 0;
    while i < n
        invariant
            n == ps@.len(),
            i <= n,
            out@.len() == i,
            forall|j: int|
                0 <= j < i ==> type_ir(out@[j].0) == type_ir(ps@[j].0) && value_ir(out@[j].1)
                    == value_ir(ps@[j].1),
        decreases n - i,
    {
        proof {
            assert(decreases_to!(ps => ps@[i as int]));
        }
        out.push((ps[i].0.clone(), ps[i].1.clone()));
        i = i + 1;
    }
    out
}

impl Clone for Value {
    /// A deep copy that renders exactly as the original value.
    fn clone(&self) -> (r: Self)
        ensures
            value_ir(r) == value_ir(*self),
        decreases self,
    {
        match self {
            Value::GlobalVariable(g) => Value::GlobalVariable(g.clone()),
            Value::Register(reg) => Value::Register(reg.clone()),
            Value::CString(s) => Value::CString(s.clone()),
            Value::Constant(c) => Value::Constant(c.clone()),
        }
    }
}

impl Clone for ConstantData {
    /// A deep copy that renders exactly as the original constant.
    fn clone(&self) -> (r: Self)
        ensures
            constant_ir(r) == constant_ir(*self),
        decreases self,
    {
        match self {
            ConstantData::True => ConstantData::True,
            ConstantData::False => ConstantData::False,
            ConstantData::Integer(i) => ConstantData::Integer(*i),
            ConstantData::FloatingPoint(text) => ConstantData::FloatingPoint(text.clone()),
            ConstantData::NullPtr => ConstantData::NullPtr,
            ConstantData::StructureConstant(elems) => {
                let cloned = clone_pair_list(elems);
                proof {
                    lemma_pair_list_prefix_congruent(cloned@, elems@, elems@.len() as int);
                }
                ConstantData::StructureConstant(cloned)
            },
            ConstantData::ArrayConstant(elems) => {
                let cloned = clone_pair_list(elems);
                proof {
                    lemma_pair_list_prefix_congruent(cloned@, elems@, elems@.len() as int);
                }
                ConstantData::ArrayConstant(cloned)
            },
            ConstantData::VectorConstant(elems) => {
                let cloned = clone_pair_list(elems);
                proof {
                    lemma_pair_list_prefix_congruent(cloned@, elems@, elems@.len() as int);
                }
                ConstantData::VectorConstant(cloned)
            },
            ConstantData::Poison => ConstantData::Poison,
            ConstantData::Undef => ConstantData::Undef,
            ConstantData::BlockAddress(func, block) => ConstantData::BlockAddress(
                func.clone(),
                block.clone(),
            ),
        }
    }
}

impl Clone for GlobalPtr {
    /// A copy holding the same name.
    fn clone(&self) -> (r: Self)
        ensures
            r.name@ == self.name@,
    {
        GlobalPtr { name: self.name.clone() }
    }
}

impl Clone for RegisterData {
    /// A copy holding the same name.
    fn clone(&self) -> (r: Self)
        ensures
            r.name@ == self.name@,
    {
        RegisterData { name: self.name.clone() }
    }
}

impl Value {
    /// Renders this value into its exact textual form, `value_ir(*self)`.
    pub fn ir(&self) -> (r: String)
        ensures
            r@ == value_ir(*self),
        decreases self,
    {
        match self {
            Value::GlobalVariable(g) => g.ir(),
            Value::Register(r) => r.ir(),
            Value::CString(s) => {
                let mut out = String::from_str("c");
                out.append(quoted(s.as_str()).as_str());
                out
            },
            Value::Constant(c) => c.ir(),
        }
    }
}

impl ConstantData {
    /// Renders this constant into its exact textual form, `constant_ir(*self)`.
    pub fn ir(&self) -> (r: String)
        ensures
            r@ == constant_ir(*self),
        decreases self,
    {
        match self {
            ConstantData::True => "true".to_owned(),
            ConstantData::False => "false".to_owned(),
            ConstantData::Integer(i) => crate::numeral::i128_text(*i),
            ConstantData::FloatingPoint(text) => text.clone(),
            ConstantData::NullPtr => "null".to_owned(),
            ConstantData::StructureConstant(elems) => {
                let mut out = String::from_str("{ ");
                out.append(pair_list_text(elems).as_str());
                out.append(" }");
                out
            },
            ConstantData::ArrayConstant(elems) => {
                let mut out = String::from_str("[ ");
                out.append(pair_list_text(elems).as_str());
                out.append(" ]");
                out
            },
            ConstantData::VectorConstant(elems) => {
                let mut out = String::from_str("< ");
                out.append(pair_list_text(elems).as_str());
                out.append(" >");
                out
            },
            ConstantData::Poison => "poison".to_owned(),
            ConstantData::Undef => "undef".to_owned(),
            ConstantData::BlockAddress(func, block) => {
                let mut out = String::from_str("blockaddress(@");
                out.append(func.as_str());
                out.append(", %");
                out.append(block.as_str());
                out.append(")");
                out
            },
        }
    }
}

} // verus!
