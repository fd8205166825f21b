use irtext::blocks::Label;
use irtext::inst::{ArithmeticFlags, Instruction, SwitchBranch};
use irtext::values::{ConstantData, RegisterData, Type, Value};

fn reg(name: &str) -> Value {
    Value::Register(RegisterData::new(name))
}

fn int_const(i: i128) -> Value {
    Value::Constant(ConstantData::Integer(i))
}

#[test]
fn ret_texts() {
    let r = Instruction::Ret(Type::Integer(32), reg("2"));
    assert_eq!(r.ir(), "ret i32 %2");
    assert_eq!(Instruction::RetVoid.ir(), "ret void");
}

#[test]
fn unreachable_text() {
    assert_eq!(Instruction::Unreachable.ir(), "unreachable");
}

#[test]
fn br_text() {
    let b = Instruction::Br(
        reg("cond"),
        Label { name: "then".to_string() },
        Label { name: "else".to_string() },
    );
    assert_eq!(b.ir(), "br i1 %cond, label %then, label %else");
}

#[test]
fn switch_text() {
    let s = Instruction::Switch(
        Type::Integer(32),
        reg("x"),
        vec![
            SwitchBranch { ty: Type::Integer(32), condition: int_const(0), label: reg("a") },
            SwitchBranch { ty: Type::Integer(32), condition: int_const(1), label: reg("b") },
        ],
    );
    assert_eq!(s.ir(), "switch i32 %x [ i32 0, label %a i32 1, label %b ]");
}

#[test]
fn switch_with_no_arms_text() {
    let s = Instruction::Switch(Type::Integer(8), reg("x"), vec![]);
    assert_eq!(s.ir(), "switch i8 %x [ ]");
}

#[test]
fn fneg_text() {
    let f = Instruction::FNeg(RegisterData::new("2"), Type::Float64, reg("1"));
    assert_eq!(f.ir(), "%2 = fneg double %1");
}

#[test]
fn arithmetic_flag_texts() {
    let dst = || RegisterData::new("3");
    let plain = Instruction::Add(dst(), Type::Integer(32), reg("1"), reg("2"), ArithmeticFlags::WrapAllowed);
    assert_eq!(plain.ir(), "%3 = add i32 %1, %2");
    let nuw = Instruction::Add(dst(), Type::Integer(32), reg("1"), reg("2"), ArithmeticFlags::NoUnsignedWrap);
    assert_eq!(nuw.ir(), "%3 = add nuw i32 %1, %2");
    let nsw = Instruction::Add(dst(), Type::Integer(32), reg("1"), reg("2"), ArithmeticFlags::NoSignedWrap);
    assert_eq!(nsw.ir(), "%3 = add nsw i32 %1, %2");
    let both = Instruction::Add(dst(), Type::Integer(32), reg("1"), reg("2"), ArithmeticFlags::NoSignedOrUnsignedWrap);
    assert_eq!(both.ir(), "%3 = add nsw nuw i32 %1, %2");
}

#[test]
fn binary_opcode_texts() {
    let line = |i: Instruction| i.ir();
    let d = || RegisterData::new("d");
    let t = || Type::Integer(64);
    let a = || reg("a");
    let b = || reg("b");
    let w = || ArithmeticFlags::WrapAllowed;
    assert_eq!(line(Instruction::Add(d(), t(), a(), b(), w())), "%d = add i64 %a, %b");
    assert_eq!(line(Instruction::FAdd(d(), t(), a(), b(), w())), "%d = fadd i64 %a, %b");
    assert_eq!(line(Instruction::Sub(d(), t(), a(), b(), w())), "%d = sub i64 %a, %b");
    assert_eq!(line(Instruction::FSub(d(), t(), a(), b(), w())), "%d = fsub i64 %a, %b");
    assert_eq!(line(Instruction::Mul(d(), t(), a(), b(), w())), "%d = mul i64 %a, %b");
    assert_eq!(line(Instruction::FMul(d(), t(), a(), b(), w())), "%d = fmul i64 %a, %b");
    assert_eq!(line(Instruction::UDiv(d(), t(), a(), b(), w())), "%d = udiv i64 %a, %b");
    assert_eq!(line(Instruction::SDiv(d(), t(), a(), b(), w())), "%d = sdiv i64 %a, %b");
    assert_eq!(line(Instruction::FDiv(d(), t(), a(), b(), w())), "%d = fdiv i64 %a, %b");
    assert_eq!(line(Instruction::URem(d(), t(), a(), b(), w())), "%d = urem i64 %a, %b");
    assert_eq!(line(Instruction::SRem(d(), t(), a(), b(), w())), "%d = srem i64 %a, %b");
    assert_eq!(line(Instruction::FRem(d(), t(), a(), b(), w())), "%d = frem i64 %a, %b");
    assert_eq!(line(Instruction::Shl(d(), t(), a(), b(), w())), "%d = shl i64 %a, %b");
    assert_eq!(line(Instruction::LShr(d(), t(), a(), b(), w())), "%d = lshr i64 %a, %b");
    assert_eq!(line(Instruction::AShr(d(), t(), a(), b(), w())), "%d = ashr i64 %a, %b");
    assert_eq!(line(Instruction::And(d(), t(), a(), b(), w())), "%d = and i64 %a, %b");
    assert_eq!(line(Instruction::Or(d(), t(), a(), b(), w())), "%d = or i64 %a, %b");
    assert_eq!(line(Instruction::Xor(d(), t(), a(), b(), w())), "%d = xor i64 %a, %b");
}

#[test]
fn vector_op_texts() {
    let vec_ty = || Type::Vector { ty: Box::new(Type::Integer(32)), size: 4 };
    let e = Instruction::ExtractElement(
        RegisterData::new("d"),
        vec_ty(),
        reg("v"),
        Type::Integer(32),
        int_const(0),
    );
    assert_eq!(e.ir(), "%d = extractelement [4 x i32] %v, i32 0");
    let i = Instruction::InsertElement(
        RegisterData::new("d"),
        vec_ty(),
        reg("v"),
        Type::Integer(32),
        reg("e"),
    );
    assert_eq!(i.ir(), "%d = insertelement [4 x i32] %v, i32 %e");
}

#[test]
fn aggregate_op_texts() {
    let e = Instruction::ExtractValue(
        RegisterData::new("d"),
        Type::Array(Box::new(Type::Integer(32))),
        reg("a"),
        1,
    );
    assert_eq!(e.ir(), "%d = extractvalue [i32] %a, 1");
    let i = Instruction::InsertValue(
        RegisterData::new("d"),
        Type::Array(Box::new(Type::Integer(32))),
        reg("a"),
        2,
    );
    assert_eq!(i.ir(), "%d = insertvalue [i32] %a, 2");
}

#[test]
fn memory_op_texts() {
    let a = Instruction::Alloca(RegisterData::new("1"), Type::Integer(32));
    assert_eq!(a.ir(), "%1 = alloca i32");
    let m = Instruction::AllocaMultiple(RegisterData::new("1"), Type::Integer(32), 4);
    assert_eq!(m.ir(), "%1 = alloca i32, i32 4");
    let l = Instruction::Load(RegisterData::new("2"), reg("1"));
    assert_eq!(l.ir(), "%2 = load ptr %1");
    let s = Instruction::Store(reg("1"), Type::Integer(32), int_const(10));
    assert_eq!(s.ir(), "store i32 10, ptr %1");
}

#[test]
fn instruction_clone_renders_alike() {
    let s = Instruction::Switch(
        Type::Integer(32),
        reg("x"),
        vec![SwitchBranch { ty: Type::Integer(32), condition: int_const(0), label: reg("a") }],
    );
    assert_eq!(s.clone().ir(), s.ir());
}
