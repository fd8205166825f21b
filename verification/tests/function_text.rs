use irtext::blocks::{BasicBlock, Label};
use irtext::functions::Function;
use irtext::inst::Instruction;
use irtext::module::{CallingConvention, LinkageType, Module};
use irtext::values::{ConstantData, RegisterData, Type, Value};

fn main_function() -> Function {
    Function {
        name: "main".to_string(),
        return_type: Type::Integer(32),
        parameters: vec![],
        linkage: Some(LinkageType::Private),
        calling_convention: None,
        blocks: vec![BasicBlock {
            name: Label { name: "entry".to_string() },
            instructions: vec![
                Instruction::Alloca(RegisterData::new("1"), Type::Integer(32)),
                Instruction::Store(
                    Value::Register(RegisterData::new("1")),
                    Type::Integer(32),
                    Value::Constant(ConstantData::Integer(10)),
                ),
                Instruction::Load(RegisterData::new("2"), Value::Register(RegisterData::new("1"))),
                Instruction::Ret(Type::Integer(32), Value::Register(RegisterData::new("2"))),
            ],
        }],
    }
}

#[test]
fn example_func() {
    let func = main_function();
    println!("Function:\n{}", func.ir());
}

#[test]
fn block_text_is_label_line_plus_indented_lines() {
    let block = BasicBlock {
        name: Label { name: "entry".to_string() },
        instructions: vec![
            Instruction::Alloca(RegisterData::new("1"), Type::Integer(32)),
            Instruction::RetVoid,
        ],
    };
    assert_eq!(block.ir(), "entry:\n    %1 = alloca i32\n    ret void");
}

#[test]
fn empty_block_text_is_the_label_line() {
    let block = BasicBlock { name: Label { name: "entry".to_string() }, instructions: vec![] };
    assert_eq!(block.ir(), "entry:\n");
}

#[test]
fn block_keeps_instruction_order_and_repetitions() {
    let block = BasicBlock {
        name: Label { name: "b".to_string() },
        instructions: vec![Instruction::RetVoid, Instruction::RetVoid],
    };
    assert_eq!(block.ir(), "b:\n    ret void\n    ret void");
}

#[test]
fn example_func_text_is_exact() {
    let expected = "define private i32 @main {\n\
                    entry:\n    \
                    %1 = alloca i32\n    \
                    store i32 10, ptr %1\n    \
                    %2 = load ptr %1\n    \
                    ret i32 %2\n\
                    }";
    assert_eq!(main_function().ir(), expected);
}

#[test]
fn rendering_is_deterministic() {
    let func = main_function();
    assert_eq!(func.ir(), func.ir());
    let again = main_function();
    assert_eq!(func.ir(), again.ir());
}

#[test]
fn function_clone_renders_alike() {
    let func = main_function();
    assert_eq!(func.clone().ir(), func.ir());
}

#[test]
fn empty_block_list_renders_a_declaration() {
    let func = Function {
        name: "puts".to_string(),
        return_type: Type::Integer(32),
        parameters: vec![(Type::Ptr, RegisterData::new("s"))],
        blocks: vec![],
        linkage: None,
        calling_convention: None,
    };
    let text = func.ir();
    assert_eq!(text, "declare i32 @puts(ptr %s)");
    assert!(text.starts_with("declare "));
    assert!(!text.contains('{'));
}

#[test]
fn declaration_with_attributes() {
    let func = Function {
        name: "f".to_string(),
        return_type: Type::Void,
        parameters: vec![],
        blocks: vec![],
        linkage: Some(LinkageType::External),
        calling_convention: Some(CallingConvention::C),
    };
    assert_eq!(func.ir(), "declare external ccc void @f()");
}

#[test]
fn non_empty_block_list_renders_a_definition() {
    let func = Function {
        name: "g".to_string(),
        return_type: Type::Void,
        parameters: vec![],
        blocks: vec![BasicBlock {
            name: Label { name: "entry".to_string() },
            instructions: vec![Instruction::RetVoid],
        }],
        linkage: None,
        calling_convention: Some(CallingConvention::Fast),
    };
    let text = func.ir();
    assert_eq!(text, "define fastcc void @g {\nentry:\n    ret void\n}");
    assert!(text.starts_with("define "));
    assert!(text.ends_with('}'));
}

#[test]
fn linkage_texts() {
    assert_eq!(LinkageType::Private.ir(), "private");
    assert_eq!(LinkageType::Internal.ir(), "internal");
    assert_eq!(LinkageType::AvailableExternally.ir(), "available_externally");
    assert_eq!(LinkageType::LinkOnce.ir(), "link_once");
    assert_eq!(LinkageType::Weak.ir(), "weak");
    assert_eq!(LinkageType::Common.ir(), "common");
    assert_eq!(LinkageType::Appending.ir(), "appending");
    assert_eq!(LinkageType::ExternWeak.ir(), "extern_weak");
    assert_eq!(LinkageType::LinkOnceODR.ir(), "link_once_odr");
    assert_eq!(LinkageType::WeakODR.ir(), "weak_odr");
    assert_eq!(LinkageType::External.ir(), "external");
}

#[test]
fn calling_convention_texts() {
    assert_eq!(CallingConvention::C.ir(), "ccc");
    assert_eq!(CallingConvention::Fast.ir(), "fastcc");
    assert_eq!(CallingConvention::Cold.ir(), "coldcc");
    assert_eq!(CallingConvention::Ghc.ir(), "ghccc");
    assert_eq!(CallingConvention::AnyReg.ir(), "any_regcc");
    assert_eq!(CallingConvention::PreserveMost.ir(), "preserve_mostcc");
    assert_eq!(CallingConvention::PreserveAll.ir(), "preserve_allcc");
    assert_eq!(CallingConvention::PreserveNone.ir(), "preserve_nonecc");
    assert_eq!(CallingConvention::CxxFastTLS.ir(), "cxx_fast_tls_cc");
    assert_eq!(CallingConvention::Tail.ir(), "tailcc");
    assert_eq!(CallingConvention::Swift.ir(), "swiftcc");
    assert_eq!(CallingConvention::SwiftTail.ir(), "swift_tailcc");
    assert_eq!(CallingConvention::WindowsControlFlowGuard.ir(), "cfguard_checkcc");
}

#[test]
fn numbered_convention_texts() {
    assert_eq!(CallingConvention::Numbered(0).ir(), "cc 0");
    assert_eq!(CallingConvention::Numbered(64).ir(), "cc 64");
    assert_eq!(CallingConvention::Numbered(u64::MAX).ir(), "cc 18446744073709551615");
}

#[test]
fn c11_and_numbered_11_agree() {
    assert_eq!(CallingConvention::C11.ir(), "cc 11");
    assert_eq!(CallingConvention::C11.ir(), CallingConvention::Numbered(11).ir());
}

#[test]
fn module_joins_functions_with_newlines() {
    let declaration = Function {
        name: "puts".to_string(),
        return_type: Type::Integer(32),
        parameters: vec![(Type::Ptr, RegisterData::new("s"))],
        blocks: vec![],
        linkage: None,
        calling_convention: None,
    };
    let module = Module { functions: vec![declaration, main_function()] };
    let expected = format!("declare i32 @puts(ptr %s)\n{}", main_function().ir());
    assert_eq!(module.ir(), expected);
}

#[test]
fn empty_module_text_is_empty() {
    let module = Module { functions: vec![] };
    assert_eq!(module.ir(), "");
}

#[test]
fn module_clone_renders_alike() {
    let module = Module { functions: vec![main_function()] };
    assert_eq!(module.clone().ir(), module.ir());
}
