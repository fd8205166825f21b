//! Module-level attributes — linkage and calling convention — and the module
//! itself: the top-level container of functions.

use vstd::prelude::*;

use crate::functions::{Function, function_ir};
use crate::numeral::uint_text;

verus! {

/// The visibility/merging policy of a global symbol across translation
/// units: a closed set of eleven linkage kinds.
#[derive(Eq, Hash, PartialEq, Structural, Debug)]
pub enum LinkageType {
    Private,
    Internal,
    AvailableExternally,
    LinkOnce,
    Weak,
    Common,
    Appending,
    ExternWeak,
    LinkOnceODR,
    WeakODR,
    External,
}

/// The fixed keyword text of each linkage kind.
pub open spec fn linkage_ir(l: LinkageType) -> Seq<char> {
    match l {
        LinkageType::Private => "private"@,
        LinkageType::Internal => "internal"@,
        LinkageType::AvailableExternally => "available_externally"@,
        LinkageType::LinkOnce => "link_once"@,
        LinkageType::Weak => "weak"@,
        LinkageType::Common => "common"@,
        LinkageType::Appending => "appending"@,
        LinkageType::ExternWeak => "extern_weak"@,
        LinkageType::LinkOnceODR => "link_once_odr"@,
        LinkageType::WeakODR => "weak_odr"@,
        LinkageType::External => "external"@,
    }
}

/// An absent linkage renders as nothing; a present one as its keyword
/// followed by a single separating space.
pub open spec fn opt_linkage_ir(l: Option<LinkageType>) -> Seq<char> {
    match l {
        Option::None => Seq::empty(),
        Option::Some(l) => linkage_ir(l) + " "@,
    }
}

impl Clone for LinkageType {
    /// A copy of exactly the same linkage kind.
    fn clone(&self) -> (r: Self)
        ensures
            r == *self,
    {
        match self {
            LinkageType::Private => LinkageType::Private,
            LinkageType::Internal => LinkageType::Internal,
            LinkageType::AvailableExternally => LinkageType::AvailableExternally,
            LinkageType::LinkOnce => LinkageType::LinkOnce,
            LinkageType::Weak => LinkageType::Weak,
            LinkageType::Common => LinkageType::Common,
            LinkageType::Appending => LinkageType::Appending,
            LinkageType::ExternWeak => LinkageType::ExternWeak,
            LinkageType::LinkOnceODR => LinkageType::LinkOnceODR,
            LinkageType::WeakODR => LinkageType::WeakODR,
            LinkageType::External => LinkageType::External,
        }
    }
}

impl LinkageType {
    /// Renders this linkage kind as its fixed keyword, `linkage_ir(*self)`.
    pub fn ir(&self) -> (r: String)
        ensures
            r@ == linkage_ir(*self),
    {
        match self {
            LinkageType::Private => "private".to_owned(),
            LinkageType::Internal => "internal".to_owned(),
            LinkageType::AvailableExternally => "available_externally".to_owned(),
            LinkageType::LinkOnce => "link_once".to_owned(),
            LinkageType::Weak => "weak".to_owned(),
            LinkageType::Common => "common".to_owned(),
            LinkageType::Appending => "appending".to_owned(),
            LinkageType::ExternWeak => "extern_weak".to_owned(),
            LinkageType::LinkOnceODR => "link_once_odr".to_owned(),
            LinkageType::WeakODR => "weak_odr".to_owned(),
            LinkageType::External => "external".to_owned(),
        }
    }
}

/// The ABI contract governing how arguments and results are passed: a closed
/// set of named conventions, plus the generic numbered form `cc <n>`.
///
/// `C11` is a named alias for the numbered form 11: both render to the same
/// text.
#[derive(Eq, Hash, PartialEq, Structural, Debug)]
pub enum CallingConvention {
    C,
    Fast,
    Cold,
    Ghc,
    C11,
    AnyReg,
    PreserveMost,
    PreserveAll,
    PreserveNone,
    CxxFastTLS,
    Tail,
    Swift,
    SwiftTail,
    WindowsControlFlowGuard,
    Numbered(u64),
}

/// The fixed text of each calling convention; `Numbered(n)` is `cc n` in
/// decimal, and the named alias `C11` is exactly the text of `Numbered(11)`.
pub open spec fn cc_ir(c: CallingConvention) -> Seq<char> {
    match c {
        CallingConvention::C => "ccc"@,
        CallingConvention::Fast => "fastcc"@,
        CallingConvention::Cold => "coldcc"@,
        CallingConvention::Ghc => "ghccc"@,
        CallingConvention::C11 => "cc 11"@,
        CallingConvention::AnyReg => "any_regcc"@,
        CallingConvention::PreserveMost => "preserve_mostcc"@,
        CallingConvention::PreserveAll => "preserve_allcc"@,
        CallingConvention::PreserveNone => "preserve_nonecc"@,
        CallingConvention::CxxFastTLS => "cxx_fast_tls_cc"@,
        CallingConvention::Tail => "tailcc"@,
        CallingConvention::Swift => "swiftcc"@,
        CallingConvention::SwiftTail => "swift_tailcc"@,
        CallingConvention::WindowsControlFlowGuard => "cfguard_checkcc"@,
        CallingConvention::Numbered(n) => "cc "@ + uint_text(n as nat),
    }
}

/// An absent calling convention renders as nothing; a present one as its
/// text followed by a single separating space.
pub open spec fn opt_cc_ir(c: Option<CallingConvention>) -> Seq<char> {
    match c {
        Option::None => Seq::empty(),
        Option::Some(c) => cc_ir(c) + " "@,
    }
}

/// The named alias `C11` renders exactly as the generic numbered form for
/// 11: the two variants agree on their text.
pub proof fn lemma_c11_is_numbered_11()
    ensures
        cc_ir(CallingConvention::C11) == cc_ir(CallingConvention::Numbered(11)),
{
    reveal_strlit("cc 11");
    reveal_strlit("cc ");
    reveal_with_fuel(uint_text, 2);
    assert(cc_ir(CallingConvention::C11) =~= cc_ir(CallingConvention::Numbered(11)));
}

impl Clone for CallingConvention {
    /// A copy of exactly the same calling convention.
    fn clone(&self) -> (r: Self)
        ensures
            r == *self,
    {
        match self {
            CallingConvention::C => CallingConvention::C,
            CallingConvention::Fast => CallingConvention::Fast,
            CallingConvention::Cold => CallingConvention::Cold,
            CallingConvention::Ghc => CallingConvention::Ghc,
            CallingConvention::C11 => CallingConvention::C11,
            CallingConvention::AnyReg => CallingConvention::AnyReg,
            CallingConvention::PreserveMost => CallingConvention::PreserveMost,
            CallingConvention::PreserveAll => CallingConvention::PreserveAll,
            CallingConvention::PreserveNone => CallingConvention::PreserveNone,
            CallingConvention::CxxFastTLS => CallingConvention::CxxFastTLS,
            CallingConvention::Tail => CallingConvention::Tail,
            CallingConvention::Swift => CallingConvention::Swift,
            CallingConvention::SwiftTail => CallingConvention::SwiftTail,
            CallingConvention::WindowsControlFlowGuard => {
                CallingConvention::WindowsControlFlowGuard
            },
            CallingConvention::Numbered(n) => CallingConvention::Numbered(*n),
        }
    }
}

impl CallingConvention {
    /// Renders this calling convention as its fixed text, `cc_ir(*self)`.
    pub fn ir(&self) -> (r: String)
        ensures
            r@ == cc_ir(*self),
    {
        match self {
            CallingConvention::C => "ccc".to_owned(),
            CallingConvention::Fast => "fastcc".to_owned(),
            CallingConvention::Cold => "coldcc".to_owned(),
            CallingConvention::Ghc => "ghccc".to_owned(),
            CallingConvention::C11 => "cc 11".to_owned(),
            CallingConvention::AnyReg => "any_regcc".to_owned(),
            CallingConvention::PreserveMost => "preserve_mostcc".to_owned(),
            CallingConvention::PreserveAll => "preserve_allcc".to_owned(),
            CallingConvention::PreserveNone => "preserve_nonecc".to_owned(),
            CallingConvention::CxxFastTLS => "cxx_fast_tls_cc".to_owned(),
            CallingConvention::Tail => "tailcc".to_owned(),
            CallingConvention::Swift => "swiftcc".to_owned(),
            CallingConvention::SwiftTail => "swift_tailcc".to_owned(),
            CallingConvention::WindowsControlFlowGuard => "cfguard_checkcc".to_owned(),
            CallingConvention::Numbered(n) => {
                let mut out = String::from_str("cc ");
                out.append(crate::numeral::u64_text(*n).as_str());
                out
            },
        }
    }
}

/// The top-level container: an ordered sequence of functions. A pure
/// aggregation root; that function names are unique is a caller obligation,
/// not checked here.
#[derive(Debug)]
pub struct Module {
    pub functions: Vec<Function>,
}

/// The renderings of the first `n` functions of `fs`, joined with newlines.
pub open spec fn function_list_prefix_ir(fs: Seq<Function>, n: int) -> Seq<char>
    decreases n,
{
    if n <= 0 || n > fs.len() {
        Seq::empty()
    } else if n == 1 {
        function_ir(fs[0])
    } else {
        function_list_prefix_ir(fs, n - 1) + "\n"@ + function_ir(fs[n - 1])
    }
}

/// The exact textual form of a module: its functions' texts in order,
/// newline-joined, with no header or footer of its own.
pub open spec fn module_ir(m: Module) -> Seq<char> {
    function_list_prefix_ir(m.functions@, m.functions@.len() as int)
}

/// The rendering of the first `n` functions depends only on each function's
/// own rendering, in order.
pub proof fn lemma_function_list_prefix_congruent(a: Seq<Function>, b: Seq<Function>, n: int)
    requires
        n <= a.len(),
        n <= b.len(),
        forall|j: int| 0 <= j < n ==> function_ir(a[j]) == function_ir(b[j]),
    ensures
        function_list_prefix_ir(a, n) == function_list_prefix_ir(b, n),
    decreases n,
{
    if n > 1 {
        lemma_function_list_prefix_congruent(a, b, n - 1);
    }
}

/// Clones each function of `fs`; each copy renders exactly as its original.
fn clone_function_list(fs: &Vec<Function>) -> (r: Vec<Function>)
    ensures
        r@.len() == fs@.len(),
        forall|j: int| 0 <= j < fs@.len() ==> function_ir(r@[j]) == function_ir(fs@[j]),
{
    let mut out: Vec<Function> = Vec::new();
    let n = fs.len();
    let mut i: usize = 0;
    while i < n
        invariant
            n == fs@.len(),
            i <= n,
            out@.len() == i,
            forall|j: int| 0 <= j < i ==> function_ir(out@[j]) == function_ir(fs@[j]),
        decreases n - i,
    {
        out.push(fs[i].clone());
        i = i + 1;
    }
    out
}

impl Clone for Module {
    /// A deep copy that renders exactly as the original module.
    fn clone(&self) -> (r: Self)
        ensures
            module_ir(r) == module_ir(*self),
    {
        let cloned = clone_function_list(&self.functions);
        proof {
            lemma_function_list_prefix_congruent(
                cloned@,
                self.functions@,
                self.functions@.len() as int,
            );
        }
        Module { functions: cloned }
    }
}

/// Rendering a module is a pure function of its value: equal trees render
/// to exactly the same text, however often they are rendered.
pub proof fn lemma_module_render_pure(a: Module, b: Module)
    requires
        a == b,
    ensures
        module_ir(a) == module_ir(b),
{
}

impl Module {
    /// Renders this module into its exact textual form, `module_ir(*self)`:
    /// one function after another, in order, separated by newlines.
    pub fn ir(&self) -> (r: String)
        ensures
            r@ == module_ir(*self),
    {
        let mut out = String::new();
        let n = self.functions.len();
        let mut i: usize = 0;
        while i < n
            invariant
                n == self.functions@.len(),
                i <= n,
                out@ == function_list_prefix_ir(self.functions@, i as int),
            decreases n - i,
        {
            if i > 0 {
                out.append("\n");
            }
            out.append(self.functions[i].ir().as_str());
            i = i + 1;
        }
        out
    }
}

} // verus!
