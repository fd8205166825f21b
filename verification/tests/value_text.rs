use irtext::values::{ConstantData, GlobalPtr, RegisterData, Type, Value};

#[test]
fn global_and_register_texts() {
    let g = Value::GlobalVariable(GlobalPtr { name: "main".to_string() });
    assert_eq!(g.ir(), "@main");
    let r = Value::Register(RegisterData::new("2"));
    assert_eq!(r.ir(), "%2");
}

#[test]
fn register_new_keeps_the_name() {
    let r = RegisterData::new("acc");
    assert_eq!(r.name, "acc");
    assert_eq!(r.ir(), "%acc");
}

#[test]
fn cstring_is_quoted_and_escaped() {
    let v = Value::CString("Hello world!".to_string());
    assert_eq!(v.ir(), "c\"Hello world!\"");
    let escaped = Value::CString("a\nb\"c".to_string());
    assert_eq!(escaped.ir(), "c\"a\\nb\\\"c\"");
    let empty = Value::CString(String::new());
    assert_eq!(empty.ir(), "c\"\"");
}

#[test]
fn boolean_texts() {
    assert_eq!(ConstantData::True.ir(), "true");
    assert_eq!(ConstantData::False.ir(), "false");
}

#[test]
fn integer_constant_texts() {
    assert_eq!(ConstantData::Integer(10).ir(), "10");
    assert_eq!(ConstantData::Integer(0).ir(), "0");
    assert_eq!(ConstantData::Integer(-3).ir(), "-3");
    assert_eq!(
        ConstantData::Integer(i128::MAX).ir(),
        "170141183460469231731687303715884105727"
    );
    assert_eq!(
        ConstantData::Integer(i128::MIN).ir(),
        "-170141183460469231731687303715884105728"
    );
}

#[test]
fn floating_point_text_is_the_given_decimal_text() {
    let c = ConstantData::FloatingPoint(2.5f64.to_string());
    assert_eq!(c.ir(), "2.5");
    let whole = ConstantData::FloatingPoint(3f64.to_string());
    assert_eq!(whole.ir(), "3");
}

#[test]
fn placeholder_texts() {
    assert_eq!(ConstantData::NullPtr.ir(), "null");
    assert_eq!(ConstantData::Poison.ir(), "poison");
    assert_eq!(ConstantData::Undef.ir(), "undef");
}

#[test]
fn block_address_text() {
    let c = ConstantData::BlockAddress("f".to_string(), "b".to_string());
    assert_eq!(c.ir(), "blockaddress(@f, %b)");
}

#[test]
fn structure_constant_text() {
    let c = ConstantData::StructureConstant(vec![
        (Type::Integer(32), Value::Constant(ConstantData::Integer(1))),
        (Type::Integer(1), Value::Constant(ConstantData::True)),
    ]);
    assert_eq!(c.ir(), "{ i32 1, i1 true }");
    let empty = ConstantData::StructureConstant(vec![]);
    assert_eq!(empty.ir(), "{  }");
}

#[test]
fn array_constant_text() {
    let c = ConstantData::ArrayConstant(vec![
        (Type::Integer(8), Value::Constant(ConstantData::Integer(1))),
        (Type::Integer(8), Value::Constant(ConstantData::Integer(2))),
    ]);
    assert_eq!(c.ir(), "[ i8 1, i8 2 ]");
}

#[test]
fn vector_constant_text() {
    let c = ConstantData::VectorConstant(vec![
        (Type::Integer(32), Value::Constant(ConstantData::Integer(4))),
        (Type::Integer(32), Value::Register(RegisterData::new("x"))),
    ]);
    assert_eq!(c.ir(), "< i32 4, i32 %x >");
}

#[test]
fn nested_constant_text() {
    let inner = ConstantData::ArrayConstant(vec![(
        Type::Integer(16),
        Value::Constant(ConstantData::Integer(7)),
    )]);
    let outer = ConstantData::StructureConstant(vec![
        (Type::Array(Box::new(Type::Integer(16))), Value::Constant(inner)),
        (Type::Ptr, Value::Constant(ConstantData::NullPtr)),
    ]);
    assert_eq!(outer.ir(), "{ [i16] [ i16 7 ], ptr null }");
}

#[test]
fn value_clone_renders_alike() {
    let v = Value::Constant(ConstantData::StructureConstant(vec![
        (Type::Integer(32), Value::Constant(ConstantData::Integer(1))),
        (Type::Ptr, Value::GlobalVariable(GlobalPtr { name: "g".to_string() })),
    ]));
    assert_eq!(v.clone().ir(), v.ir());
}
