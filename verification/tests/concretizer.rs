use wgslsmith::ast::expr::{BinOp, BinOpExpr, Expr, ExprNode, FnCallExpr, Lit, TypeConsExpr, UnOp, UnOpExpr, VarExpr};
use wgslsmith::ast::func::FnDecl;
use wgslsmith::ast::globals::GlobalConstDecl;
use wgslsmith::ast::module::Module;
use wgslsmith::ast::stmt::{LetDeclStatement, Statement};
use wgslsmith::ast::types::{DataType, ScalarType};
use wgslsmith::concretizer::concretizer::{concretize, concretize_with, Concretizer, ErrorHandling, Options};
use wgslsmith::concretizer::eval::{evaluate_bin_op, eval_unop};
use wgslsmith::concretizer::helper::{is_invalid_bits_call, is_invalid_clamp_bounds, is_zero};
use wgslsmith::concretizer::value::Value;

fn float_op(op: BinOp, l: u32, r: u32) -> Option<u32> {
    let a = f32::from_bits(l);
    let b = f32::from_bits(r);
    let v = match op {
        BinOp::Plus => a + b,
        BinOp::Minus => a - b,
        BinOp::Times => a * b,
        BinOp::Divide => a / b,
        BinOp::Mod => a % b,
        _ => return None,
    };
    if !(0.1_f32..=16777216_f32).contains(&v.abs()) {
        None
    } else {
        Some(v.to_bits())
    }
}

fn no_builtins(_: String, _: Vec<Value>) -> Option<Option<Value>> {
    None
}

fn u32_ty() -> DataType {
    DataType::Scalar(ScalarType::U32)
}

fn lit_u32(v: u32) -> ExprNode {
    ExprNode::from_lit(Lit::U32(v))
}

fn var(name: &str, ty: DataType) -> ExprNode {
    VarExpr::new(name.to_owned()).into_node(ty)
}

fn binop(op: BinOp, l: ExprNode, r: ExprNode, ty: DataType) -> ExprNode {
    ExprNode { data_type: ty, expr: Expr::BinOp(BinOpExpr::new(op, l, r)) }
}

fn module_with_let(init: ExprNode) -> Module {
    Module {
        structs: vec![],
        consts: vec![],
        vars: vec![],
        functions: vec![FnDecl {
            attrs: vec![],
            name: "main".to_owned(),
            inputs: vec![],
            output: None,
            body: vec![Statement::LetDecl(LetDeclStatement::new("x".to_owned(), init))],
        }],
    }
}

fn concretized_init(init: ExprNode) -> ExprNode {
    let module = concretize(module_with_let(init), &float_op, &no_builtins);
    let mut functions = module.functions;
    let f = functions.remove(0);
    let mut body = f.body;
    match body.remove(0) {
        Statement::LetDecl(l) => l.initializer,
        _ => panic!("expected a let declaration"),
    }
}

fn as_u32_lit(node: &ExprNode) -> Option<u32> {
    match node.expr {
        Expr::Lit(Lit::U32(v)) => Some(v),
        _ => None,
    }
}

fn lit_value(v: &Option<Value>) -> Option<Lit> {
    match v {
        Some(Value::Lit(l)) => Some(*l),
        _ => None,
    }
}

#[test]
fn constant_division_by_zero_becomes_default() {
    let out = concretized_init(binop(BinOp::Divide, lit_u32(7), lit_u32(0), u32_ty()));
    assert_eq!(as_u32_lit(&out), Some(1));
}

#[test]
fn valid_constant_expression_is_kept() {
    let out = concretized_init(binop(BinOp::Minus, lit_u32(7), lit_u32(2), u32_ty()));
    match out.expr {
        Expr::BinOp(b) => {
            assert_eq!(b.op, BinOp::Minus);
            assert_eq!(as_u32_lit(&b.left), Some(7));
            assert_eq!(as_u32_lit(&b.right), Some(2));
        }
        _ => panic!("expected the subtraction to stay"),
    }
}

#[test]
fn runtime_division_by_known_zero_drops_the_division() {
    let out = concretized_init(binop(BinOp::Divide, var("a", u32_ty()), lit_u32(0), u32_ty()));
    match out.expr {
        Expr::Var(v) => assert_eq!(v.ident, "a"),
        _ => panic!("expected the dividend alone"),
    }
}

#[test]
fn runtime_remainder_by_known_zero_becomes_default() {
    let out = concretized_init(binop(BinOp::Mod, var("a", u32_ty()), lit_u32(0), u32_ty()));
    assert_eq!(as_u32_lit(&out), Some(1));
}

#[test]
fn nested_invalid_subexpression_is_replaced() {
    // (7u / 0u) + a: the division becomes 1u, the addition stays.
    let inner = binop(BinOp::Divide, lit_u32(7), lit_u32(0), u32_ty());
    let out = concretized_init(binop(BinOp::Plus, inner, var("a", u32_ty()), u32_ty()));
    match out.expr {
        Expr::BinOp(b) => {
            assert_eq!(b.op, BinOp::Plus);
            assert_eq!(as_u32_lit(&b.left), Some(1));
        }
        _ => panic!("expected the addition to stay"),
    }
}

#[test]
fn out_of_range_shift_becomes_default() {
    let out = concretized_init(binop(BinOp::LShift, lit_u32(1), lit_u32(40), u32_ty()));
    assert_eq!(as_u32_lit(&out), Some(1));
}

#[test]
fn overflowing_left_shift_becomes_default() {
    // 0x8000_0000u << 1u loses a set bit.
    let out = concretized_init(binop(BinOp::LShift, lit_u32(0x8000_0000), lit_u32(1), u32_ty()));
    assert_eq!(as_u32_lit(&out), Some(1));
}

#[test]
fn invalid_vector_expression_becomes_default_vector() {
    let ty = DataType::Vector(3, ScalarType::I32);
    let l = TypeConsExpr::new(
        ty.clone(),
        vec![ExprNode::from_lit(Lit::I32(1)), ExprNode::from_lit(Lit::I32(2)), ExprNode::from_lit(Lit::I32(3))],
    )
    .into_node();
    let out = concretized_init(binop(BinOp::Divide, l, ExprNode::from_lit(Lit::I32(0)), ty));
    match out.expr {
        Expr::TypeCons(tc) => {
            assert_eq!(tc.args.len(), 3);
            for a in &tc.args {
                assert!(matches!(a.expr, Expr::Lit(Lit::I32(1))));
            }
        }
        _ => panic!("expected a default vector"),
    }
}

#[test]
fn not_of_constant_becomes_default() {
    let inner = ExprNode::from_lit(Lit::Bool(false));
    let e = UnOpExpr::new(UnOp::Not, inner).into_node();
    let out = concretized_init(e);
    assert!(matches!(out.expr, Expr::Lit(Lit::Bool(true))));
}

#[test]
fn invalid_clamp_call_becomes_default() {
    let args = vec![var("a", u32_ty()), lit_u32(5), lit_u32(2)];
    let call = FnCallExpr::new("clamp".to_owned(), args).into_node(u32_ty());
    let out = concretized_init(call);
    assert_eq!(as_u32_lit(&out), Some(1));
}

#[test]
fn invalid_extract_bits_call_becomes_default() {
    let args = vec![var("a", u32_ty()), lit_u32(20), lit_u32(20)];
    let call = FnCallExpr::new("extractBits".to_owned(), args).into_node(u32_ty());
    let out = concretized_init(call);
    assert_eq!(as_u32_lit(&out), Some(1));
}

#[test]
fn builtin_evaluator_is_consulted() {
    let builtins = |name: String, _vals: Vec<Value>| -> Option<Option<Value>> {
        if name == "bad" {
            Some(None)
        } else {
            None
        }
    };
    let call = FnCallExpr::new("bad".to_owned(), vec![lit_u32(3)]).into_node(u32_ty());
    let module = concretize(module_with_let(call), &float_op, &builtins);
    match &module.functions[0].body[0] {
        Statement::LetDecl(l) => assert_eq!(as_u32_lit(&l.initializer), Some(1)),
        _ => panic!("expected a let declaration"),
    }
}

#[test]
fn float_division_out_of_range_becomes_default() {
    let f = DataType::Scalar(ScalarType::F32);
    let e = binop(
        BinOp::Divide,
        ExprNode::from_lit(Lit::F32(1.0f32.to_bits())),
        ExprNode::from_lit(Lit::F32(0.0f32.to_bits())),
        f,
    );
    let out = concretized_init(e);
    assert!(matches!(out.expr, Expr::Lit(Lit::F32(bits)) if bits == 1.0f32.to_bits()));
}

#[test]
fn error_handling_defaults_to_replacement() {
    let options = Options::default();
    assert_eq!(options.error_handling, ErrorHandling::ReplaceWithDefault);
    let module = concretize_with(
        module_with_let(lit_u32(4)),
        Options { error_handling: ErrorHandling::Panic },
        &float_op,
        &no_builtins,
    );
    assert_eq!(module.functions.len(), 1);
}

#[test]
fn global_constant_values_are_used() {
    let mut c = Concretizer::new(Options::default());
    let decls = vec![GlobalConstDecl {
        name: "zero".to_owned(),
        data_type: u32_ty(),
        initializer: binop(BinOp::Minus, lit_u32(3), lit_u32(3), u32_ty()),
    }];
    c.register_global_consts(&float_op, &no_builtins, &decls);
    let f = FnDecl {
        attrs: vec![],
        name: "main".to_owned(),
        inputs: vec![],
        output: None,
        body: vec![Statement::LetDecl(LetDeclStatement::new(
            "x".to_owned(),
            binop(BinOp::Mod, var("b", u32_ty()), var("zero", u32_ty()), u32_ty()),
        ))],
    };
    let out = c.concretize_fn(&float_op, &no_builtins, f);
    match &out.body[0] {
        Statement::LetDecl(l) => assert_eq!(as_u32_lit(&l.initializer), Some(1)),
        _ => panic!("expected a let declaration"),
    }
}

#[test]
fn integer_arithmetic_wraps() {
    let r = evaluate_bin_op(&float_op, BinOp::Plus, &Value::Lit(Lit::U32(u32::MAX)), &Value::Lit(Lit::U32(2)));
    assert_eq!(lit_value(&r), Some(Lit::U32(1)));
    let r = evaluate_bin_op(&float_op, BinOp::Divide, &Value::Lit(Lit::I32(i32::MIN)), &Value::Lit(Lit::I32(-1)));
    assert_eq!(lit_value(&r), Some(Lit::I32(i32::MIN)));
    let r = evaluate_bin_op(&float_op, BinOp::Mod, &Value::Lit(Lit::I32(-7)), &Value::Lit(Lit::I32(2)));
    assert_eq!(lit_value(&r), Some(Lit::I32(-1)));
    let r = evaluate_bin_op(&float_op, BinOp::Divide, &Value::Lit(Lit::I32(5)), &Value::Lit(Lit::I32(0)));
    assert!(r.is_none());
}

#[test]
fn shifts_follow_width_and_overflow_rules() {
    let r = evaluate_bin_op(&float_op, BinOp::LShift, &Value::Lit(Lit::I32(-1)), &Value::Lit(Lit::U32(31)));
    assert_eq!(lit_value(&r), Some(Lit::I32(i32::MIN)));
    let r = evaluate_bin_op(&float_op, BinOp::LShift, &Value::Lit(Lit::I32(1)), &Value::Lit(Lit::U32(31)));
    assert!(r.is_none());
    let r = evaluate_bin_op(&float_op, BinOp::RShift, &Value::Lit(Lit::I32(-8)), &Value::Lit(Lit::I32(1)));
    assert_eq!(lit_value(&r), Some(Lit::I32(-4)));
    let r = evaluate_bin_op(&float_op, BinOp::RShift, &Value::Lit(Lit::U32(8)), &Value::Lit(Lit::I32(-1)));
    assert!(r.is_none());
}

#[test]
fn scalar_operand_is_broadcast() {
    let v = Value::Vector(vec![Value::Lit(Lit::U32(1)), Value::Lit(Lit::U32(2))]);
    let r = evaluate_bin_op(&float_op, BinOp::Times, &Value::Lit(Lit::U32(3)), &v);
    match r {
        Some(Value::Vector(items)) => {
            assert_eq!(items.len(), 2);
            assert!(matches!(items[0], Value::Lit(Lit::U32(3))));
            assert!(matches!(items[1], Value::Lit(Lit::U32(6))));
        }
        _ => panic!("expected a vector"),
    }
}

#[test]
fn unary_operators_on_constants() {
    let r = eval_unop(UnOp::Neg, &Value::Lit(Lit::I32(i32::MIN)));
    assert_eq!(lit_value(&r), Some(Lit::I32(i32::MIN)));
    let r = eval_unop(UnOp::Neg, &Value::Lit(Lit::F32(2.5f32.to_bits())));
    assert_eq!(lit_value(&r), Some(Lit::F32((-2.5f32).to_bits())));
    let r = eval_unop(UnOp::BitNot, &Value::Lit(Lit::U32(0)));
    assert_eq!(lit_value(&r), Some(Lit::U32(u32::MAX)));
    assert!(eval_unop(UnOp::Not, &Value::Lit(Lit::Bool(true))).is_none());
}

#[test]
fn zero_checks() {
    assert!(is_zero(&Value::Lit(Lit::U32(0))));
    assert!(is_zero(&Value::Lit(Lit::F32((-0.0f32).to_bits()))));
    assert!(!is_zero(&Value::Lit(Lit::F32(1.0f32.to_bits()))));
    assert!(is_zero(&Value::Vector(vec![Value::Lit(Lit::I32(3)), Value::Lit(Lit::I32(0))])));
    assert!(!is_zero(&Value::Lit(Lit::Bool(false))));
}

#[test]
fn clamp_bound_checks() {
    assert!(is_invalid_clamp_bounds(&Value::Lit(Lit::I32(5)), &Value::Lit(Lit::I32(2))));
    assert!(!is_invalid_clamp_bounds(&Value::Lit(Lit::U32(2)), &Value::Lit(Lit::U32(5))));
    assert!(is_invalid_clamp_bounds(&Value::Lit(Lit::F32(1.5f32.to_bits())), &Value::Lit(Lit::F32((-1.0f32).to_bits()))));
    assert!(!is_invalid_clamp_bounds(&Value::Lit(Lit::F32(f32::NAN.to_bits())), &Value::Lit(Lit::F32(0.0f32.to_bits()))));
    assert!(!is_invalid_clamp_bounds(&Value::Lit(Lit::F32(0.0f32.to_bits())), &Value::Lit(Lit::F32((-0.0f32).to_bits()))));
    let low = Value::Lit(Lit::U32(3));
    let high = Value::Vector(vec![Value::Lit(Lit::U32(4)), Value::Lit(Lit::U32(1))]);
    assert!(is_invalid_clamp_bounds(&low, &high));
    let l = Value::Vector(vec![Value::Lit(Lit::U32(4))]);
    let h = Value::Vector(vec![Value::Lit(Lit::U32(1)), Value::Lit(Lit::U32(1))]);
    assert!(!is_invalid_clamp_bounds(&l, &h));
}

#[test]
fn bits_call_checks() {
    let vals = vec![None, Some(Value::Lit(Lit::U32(20))), Some(Value::Lit(Lit::U32(13)))];
    assert!(is_invalid_bits_call("extractBits", &vals));
    let vals = vec![None, Some(Value::Lit(Lit::U32(20))), Some(Value::Lit(Lit::U32(12)))];
    assert!(!is_invalid_bits_call("extractBits", &vals));
    let vals = vec![None, None, Some(Value::Lit(Lit::U32(30))), Some(Value::Lit(Lit::U32(3)))];
    assert!(is_invalid_bits_call("insertBits", &vals));
    assert!(!is_invalid_bits_call("abs", &[]));
}

#[test]
fn value_constructors() {
    assert!(matches!(Value::from_i32(Some(3)), Some(Value::Lit(Lit::I32(3)))));
    assert!(Value::from_u32(None).is_none());
    assert!(matches!(Value::from_bool(Some(true)), Some(Value::Lit(Lit::Bool(true)))));
    assert!(matches!(Value::from_f32(Some(7)), Some(Value::Lit(Lit::F32(7)))));
}
