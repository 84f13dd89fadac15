use wgslsmith::simple_ast::expr::{BinOp, UnOp};
use wgslsmith::simple_ast::gen_builtin_fns;
use wgslsmith::simple_ast::types::{DataType, ScalarType};

#[test]
fn builtin_overloads_without_extras() {
    let fns = gen_builtin_fns(&[]);
    // all/any on 3 bool vectors, select on 3 scalar types (4 + 3 forms each), and
    // clamp/abs/max/min on the 4 shapes of i32 and u32.
    assert_eq!(fns.len(), 6 + 21 + 32);
    assert_eq!(fns[0].0, "all");
    assert_eq!(fns[1].0, "any");
    assert!(fns.iter().all(|f| f.0 != "dot" && f.0 != "extractBits"));
}

#[test]
fn enabled_builtins_are_added() {
    let fns = gen_builtin_fns(&["dot", "countOneBits", "insertBits"]);
    assert_eq!(fns.iter().filter(|f| f.0 == "dot").count(), 6);
    assert_eq!(fns.iter().filter(|f| f.0 == "countOneBits").count(), 8);
    let ins: Vec<_> = fns.iter().filter(|f| f.0 == "insertBits").collect();
    assert_eq!(ins.len(), 8);
    assert_eq!(ins[0].1.len(), 4);
    assert_eq!(fns.len(), 59 + 6 + 8 + 8);
}

#[test]
fn operator_types() {
    let v = DataType::Vector(3, ScalarType::I32);
    assert!(matches!(BinOp::Less.type_eval(&v, &v), DataType::Vector(3, ScalarType::Bool)));
    assert!(matches!(BinOp::Plus.type_eval(&v, &v), DataType::Vector(3, ScalarType::I32)));
    assert!(matches!(BinOp::LogAnd.type_eval(&v, &v), DataType::Scalar(ScalarType::Bool)));
    assert!(matches!(UnOp::Neg.type_eval(&v), DataType::Vector(3, ScalarType::I32)));
    assert!(matches!(v.map(ScalarType::U32), DataType::Vector(3, ScalarType::U32)));
}
