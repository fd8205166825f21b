use irtext::values::Type;

#[test]
fn void_text() {
    assert_eq!(Type::Void.ir(), "void");
}

#[test]
fn integer_text() {
    assert_eq!(Type::Integer(32).ir(), "i32");
    assert_eq!(Type::Integer(1).ir(), "i1");
    assert_eq!(Type::Integer(8388608).ir(), "i8388608");
}

#[test]
fn float_texts() {
    assert_eq!(Type::Float16.ir(), "half");
    assert_eq!(Type::BFloat16.ir(), "bfloat");
    assert_eq!(Type::Float32.ir(), "float");
    assert_eq!(Type::Float64.ir(), "double");
    assert_eq!(Type::X86Float80.ir(), "x86_fp80");
    assert_eq!(Type::Float128.ir(), "fp128");
    assert_eq!(Type::PPCFloat128.ir(), "ppc_fp128");
}

#[test]
fn opaque_kind_texts() {
    assert_eq!(Type::X86AMX.ir(), "x86_amx");
    assert_eq!(Type::Ptr.ir(), "ptr");
    assert_eq!(Type::Target.ir(), "target(\"label\")");
    assert_eq!(Type::Label.ir(), "label");
    assert_eq!(Type::Token.ir(), "token");
    assert_eq!(Type::Metadata.ir(), "metadata");
    assert_eq!(Type::Opaque.ir(), "opaque");
}

#[test]
fn vector_text() {
    let v = Type::Vector { ty: Box::new(Type::Integer(32)), size: 4 };
    assert_eq!(v.ir(), "[4 x i32]");
}

#[test]
fn array_text() {
    assert_eq!(Type::Array(Box::new(Type::Float64)).ir(), "[double]");
    let nested = Type::Array(Box::new(Type::Array(Box::new(Type::Integer(8)))));
    assert_eq!(nested.ir(), "[[i8]]");
}

#[test]
fn struct_text() {
    let s = Type::Struct(vec![Type::Integer(8), Type::Ptr]);
    assert_eq!(s.ir(), "struct i8, ptr");
    let lone = Type::Struct(vec![Type::Integer(1)]);
    assert_eq!(lone.ir(), "struct i1");
    let empty = Type::Struct(vec![]);
    assert_eq!(empty.ir(), "struct ");
}

#[test]
fn function_type_text() {
    let f = Type::FunctionType(
        Box::new(Type::Integer(32)),
        vec![Type::Integer(8), Type::Ptr],
    );
    assert_eq!(f.ir(), "i32(i8, ptr)");
    let nullary = Type::FunctionType(Box::new(Type::Void), vec![]);
    assert_eq!(nullary.ir(), "void()");
}

#[test]
fn integer_construction_rejects_non_positive_widths() {
    assert!(matches!(Type::integer(32), Some(Type::Integer(32))));
    assert!(Type::integer(0).is_none());
    assert!(Type::integer(-5).is_none());
}

#[test]
fn type_clone_renders_alike() {
    let f = Type::FunctionType(
        Box::new(Type::Vector { ty: Box::new(Type::Integer(8)), size: 16 }),
        vec![Type::Struct(vec![Type::Ptr, Type::Float32]), Type::Opaque],
    );
    assert_eq!(f.clone().ir(), f.ir());
}
