use wgslsmith::ast::expr::{BinOp, BinOpExpr, Expr, ExprNode, FnCallExpr, Lit, Postfix, PostfixExpr, UnOp, UnOpExpr, VarExpr};
use wgslsmith::ast::func::{FnAttr, FnDecl, FnIOAttr, FnInput, FnOutput, ShaderStage};
use wgslsmith::ast::globals::{GlobalConstDecl, GlobalVarAttr, GlobalVarDecl, VarQualifier};
use wgslsmith::ast::module::Module;
use wgslsmith::ast::stmt::{
    AssignmentLhs, AssignmentOp, AssignmentStatement, Else, ForLoopHeader, ForLoopInit, ForLoopStatement, ForLoopUpdate,
    IfStatement, LhsExpr, LhsExprNode, ReturnStatement, Statement, SwitchCase, SwitchStatement, VarDeclStatement,
};
use wgslsmith::ast::structs::{StructDecl, StructMember, StructMemberAttr};
use wgslsmith::ast::types::{AccessMode, DataType, MemoryViewType, ScalarType, StorageClass};
use wgslsmith::ast::writer::{Options, Writer};
use wgslsmith::ast::builtins::BuiltinValue;
use std::rc::Rc;

fn spell(bits: u32) -> String {
    format!("{}", f32::from_bits(bits))
}

fn i32_node(v: i32) -> ExprNode {
    ExprNode::from_lit(Lit::I32(v))
}

fn var(name: &str, ty: ScalarType) -> ExprNode {
    VarExpr::new(name.to_string()).into_node(DataType::Scalar(ty))
}

fn binop(op: BinOp, l: ExprNode, r: ExprNode) -> ExprNode {
    ExprNode { data_type: l.data_type.clone(), expr: Expr::BinOp(BinOpExpr::new(op, l, r)) }
}

fn unop(op: UnOp, e: ExprNode) -> ExprNode {
    ExprNode { data_type: e.data_type.clone(), expr: Expr::UnOp(UnOpExpr::new(op, e)) }
}

#[test]
fn types_are_written_as_in_source() {
    assert_eq!(DataType::Vector(3, ScalarType::F32).fmt(), "vec3<f32>");
    assert_eq!(DataType::array(DataType::Scalar(ScalarType::I32), Some(4)).fmt(), "array<i32, 4>");
    assert_eq!(DataType::array(DataType::Scalar(ScalarType::U32), None).fmt(), "array<u32>");
    assert_eq!(DataType::Scalar(ScalarType::AU32).fmt(), "atomic<u32>");
    let ptr = DataType::Ptr(MemoryViewType::new(DataType::Scalar(ScalarType::I32), StorageClass::Function));
    assert_eq!(ptr.fmt(), "ptr<function, i32>");
    let view = MemoryViewType {
        inner: Rc::new(DataType::Scalar(ScalarType::U32)),
        storage_class: StorageClass::Storage,
        access_mode: AccessMode::ReadWrite,
    };
    assert_eq!(view.fmt(), "storage, u32, read_write");
    assert_eq!(DataType::Ref(view).fmt(), "ref<storage, u32, read_write>");
    assert_eq!(StorageClass::WorkGroup.fmt(), "workgroup");
    assert_eq!(AccessMode::Write.fmt(), "write");
    assert_eq!(StructMemberAttr::Align(16).fmt(), "align(16)");
}

#[test]
fn literals_carry_their_suffix() {
    assert_eq!(Lit::I32(-5).fmt(&spell), "-5i");
    assert_eq!(Lit::I32(i32::MIN).fmt(&spell), "i32(-2147483648)");
    assert_eq!(Lit::U32(7).fmt(&spell), "7u");
    assert_eq!(Lit::Bool(true).fmt(&spell), "true");
    assert_eq!(Lit::F32(1.5f32.to_bits()).fmt(&spell), "1.5f");
}

#[test]
fn unary_operators_parenthesize_operators_and_negative_literals() {
    assert_eq!(unop(UnOp::Neg, i32_node(0)).fmt(&spell), "0i");
    assert_eq!(unop(UnOp::Neg, i32_node(-3)).fmt(&spell), "-(-3i)");
    let neg_float = ExprNode::from_lit(Lit::F32((-2.0f32).to_bits()));
    assert_eq!(unop(UnOp::Neg, neg_float).fmt(&spell), "-(-2f)");
    let neg_zero = ExprNode::from_lit(Lit::F32((-0.0f32).to_bits()));
    assert_eq!(unop(UnOp::Neg, neg_zero).fmt(&spell), "--0f");
    assert_eq!(unop(UnOp::Not, var("x", ScalarType::Bool)).fmt(&spell), "!x");
    let sum = binop(BinOp::Plus, var("a", ScalarType::I32), var("b", ScalarType::I32));
    assert_eq!(unop(UnOp::Neg, sum).fmt(&spell), "-(a + b)");
    assert_eq!(UnOp::BitNot.fmt(), "~");
}

#[test]
fn binary_operands_that_are_binary_expressions_are_parenthesized() {
    let sum = binop(BinOp::Plus, var("a", ScalarType::I32), var("b", ScalarType::I32));
    let prod = binop(BinOp::Times, sum, var("c", ScalarType::I32));
    assert_eq!(prod.fmt(&spell), "(a + b) * c");
    let shifted = binop(BinOp::LShift, unop(UnOp::Neg, var("a", ScalarType::I32)), i32_node(2));
    assert_eq!(shifted.fmt(&spell), "-a << 2i");
    assert_eq!(BinOp::GreaterEqual.fmt(), ">=");
}

#[test]
fn postfixes_and_calls() {
    let arr = VarExpr::new("arr".to_string()).into_node(DataType::array(DataType::Scalar(ScalarType::I32), Some(2)));
    let index = PostfixExpr::new(arr, Postfix::Index(Box::new(i32_node(1))));
    assert_eq!(index.fmt(&spell), "arr[1i]");
    let v = unop(UnOp::Deref, var("p", ScalarType::I32));
    let member = PostfixExpr::new(v, Postfix::Member("x".to_string()));
    assert_eq!(member.fmt(&spell), "(*p).x");
    let call = FnCallExpr::new("max".to_string(), vec![var("a", ScalarType::I32), i32_node(3)]);
    let node = call.into_node(DataType::Scalar(ScalarType::I32));
    assert_eq!(node.fmt(&spell), "max(a, 3i)");
}

#[test]
fn blocks_are_indented() {
    let body = vec![Statement::Return(ReturnStatement { value: None })];
    let else_ = Else::Else(vec![Statement::Break]);
    let stmt = IfStatement { condition: var("x", ScalarType::Bool), body, else_: Some(Box::new(else_)) };
    assert_eq!(stmt.fmt(&spell), "if (x) {\n    return;\n} else {\n    break;\n}");
    let nested = Statement::Loop(wgslsmith::ast::stmt::LoopStatement::new(vec![Statement::Compound(vec![
        Statement::Continue,
    ])]));
    assert_eq!(nested.fmt(&spell), "loop {\n    {\n        continue;\n    }\n}");
}

#[test]
fn switch_cases_are_indented_twice() {
    let sw = SwitchStatement::new(
        var("x", ScalarType::I32),
        vec![SwitchCase { selector: i32_node(1), body: vec![Statement::Break] }],
        vec![],
    );
    assert_eq!(sw.fmt(&spell), "switch (x) {\n    case 1i: {\n        break;\n    }\n    default: {\n    }\n}");
}

#[test]
fn for_loops_and_assignments() {
    let init = ForLoopInit::VarDecl(VarDeclStatement::new("i".to_string(), None, Some(i32_node(0))));
    let cond = binop(BinOp::Less, var("i", ScalarType::I32), i32_node(4));
    let target = AssignmentLhs::name("i".to_string(), DataType::Scalar(ScalarType::I32));
    let update = ForLoopUpdate::Assignment(AssignmentStatement::new(target, AssignmentOp::Plus, i32_node(1)));
    let header = ForLoopHeader { init: Some(init), condition: Some(cond), update: Some(update) };
    let stmt = ForLoopStatement::new(header, vec![]);
    assert_eq!(stmt.fmt(&spell), "for (var i = 0i; i < 4i; i += 1i) {\n}");
    let empty = ForLoopStatement::new(ForLoopHeader { init: None, condition: None, update: None }, vec![]);
    assert_eq!(empty.fmt(&spell), "for (; ; ) {\n}");
    assert_eq!(AssignmentLhs::Phony.fmt(&spell), "_");
    let deref = LhsExprNode {
        data_type: DataType::Scalar(ScalarType::I32),
        expr: LhsExpr::Deref(Box::new(LhsExprNode::name("p".to_string(), DataType::Scalar(ScalarType::I32)))),
    };
    assert_eq!(deref.fmt(&spell), "*(_0)");
    let member = LhsExprNode {
        data_type: DataType::Scalar(ScalarType::I32),
        expr: LhsExpr::Postfix(
            Box::new(LhsExprNode::name("s".to_string(), DataType::Scalar(ScalarType::I32))),
            Postfix::Member("a".to_string()),
        ),
    };
    assert_eq!(member.fmt(&spell), "(s).a");
}

#[test]
fn module_is_written_declaration_by_declaration() {
    let member = StructMember::new(vec![StructMemberAttr::Align(16)], "a".to_string(), DataType::Scalar(ScalarType::U32));
    let decl = StructDecl::new("S".to_string(), vec![member]);
    let konst = GlobalConstDecl {
        name: "K".to_string(),
        data_type: DataType::Scalar(ScalarType::I32),
        initializer: i32_node(3),
    };
    let global = GlobalVarDecl {
        attrs: vec![GlobalVarAttr::Group(0), GlobalVarAttr::Binding(1)],
        qualifier: Some(VarQualifier { storage_class: StorageClass::Storage, access_mode: Some(AccessMode::ReadWrite) }),
        name: "buf".to_string(),
        data_type: DataType::Scalar(ScalarType::U32),
        initializer: None,
    };
    let input = FnInput {
        attrs: vec![FnIOAttr::Builtin(BuiltinValue::GlobalInvocationId)],
        name: "id".to_string(),
        data_type: DataType::Vector(3, ScalarType::U32),
    };
    let func = FnDecl {
        attrs: vec![FnAttr::Stage(ShaderStage::Compute), FnAttr::WorkgroupSize(vec![ExprNode::from_lit(Lit::U32(1))])],
        name: "main".to_string(),
        inputs: vec![input, FnInput::new("n".to_string(), DataType::Scalar(ScalarType::I32))],
        output: Some(FnOutput::new(DataType::Scalar(ScalarType::I32))),
        body: vec![Statement::Return(ReturnStatement::new(var("n", ScalarType::I32)))],
    };
    let module = Module { structs: vec![decl], consts: vec![konst], vars: vec![global], functions: vec![func] };
    let mut out = String::new();
    Writer::default().write_module(&mut out, &spell, &module);
    let expected = "struct S {\n    @align(16)\n    a: u32,\n}\n\n\
let K: i32 = 3i;\n\n\
@group(0)\n@binding(1)\nvar<storage, read_write> buf: u32;\n\n\
@compute\n@workgroup_size(1u)\nfn main(@builtin(global_invocation_id) id: vec3<u32>, n: i32) -> i32 {\n    return n;\n}\n\n";
    assert_eq!(out, expected);
    let mut consts = String::new();
    Writer::new(Options { module_scope_constants: true, concise_stage_attrs: false }).write_global_const(&mut consts, &spell, &module.consts[0]);
    assert_eq!(consts, "const K: i32 = 3i;\n");
    assert_eq!(FnOutput::new(DataType::Scalar(ScalarType::F32)).fmt(), "f32");
    assert_eq!(FnIOAttr::Location(2).fmt(), "location(2)");
    assert_eq!(FnAttr::MustUse.fmt(&spell), "must_use");
    assert_eq!(ShaderStage::Fragment.fmt(), "fragment");
}
