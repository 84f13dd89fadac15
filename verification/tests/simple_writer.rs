use std::rc::Rc;
use wgslsmith::simple_ast::expr::{BinOp, Expr, ExprNode, Lit, Postfix, UnOp};
use wgslsmith::simple_ast::func::{FnAttr, FnInput, FnOutput, ShaderStage};
use wgslsmith::simple_ast::structs::{StructDecl, StructMember};
use wgslsmith::simple_ast::types::{DataType, ScalarType};
use wgslsmith::simple_ast::AttrList;

fn node(expr: Expr) -> ExprNode {
    ExprNode { data_type: DataType::Scalar(ScalarType::I32), expr }
}

#[test]
fn simple_expressions_parenthesize_every_operand() {
    let sum = node(Expr::BinOp(
        BinOp::Plus,
        Box::new(node(Expr::Var("a".to_string()))),
        Box::new(node(Expr::Lit(Lit::Int(-2)))),
    ));
    assert_eq!(sum.fmt(), "(a) + (-2)");
    let neg = node(Expr::UnOp(UnOp::Neg, Box::new(sum)));
    assert_eq!(neg.fmt(), "-((a) + (-2))");
    let index = node(Expr::Postfix(
        Box::new(node(Expr::Var("xs".to_string()))),
        Postfix::ArrayIndex(Box::new(node(Expr::Lit(Lit::UInt(3))))),
    ));
    assert_eq!(index.fmt(), "xs[3u]");
    let cons = Expr::TypeCons(
        DataType::Vector(2, ScalarType::Bool),
        vec![node(Expr::Lit(Lit::Bool(true))), node(Expr::Lit(Lit::Bool(false)))],
    );
    assert_eq!(cons.fmt(), "vec2<bool>(true, false)");
    let call = Expr::FnCall("f".to_string(), vec![]);
    assert_eq!(call.fmt(), "f()");
    assert_eq!(BinOp::LogOr.fmt(), "||");
    assert_eq!(UnOp::BitNot.fmt(), "~");
}

#[test]
fn simple_declarations() {
    let arr = DataType::Array(Rc::new(DataType::Scalar(ScalarType::U32)));
    assert_eq!(arr.fmt(), "array<u32>");
    assert_eq!(DataType::User(Rc::new("S".to_string())).fmt(), "S");
    let decl = StructDecl {
        name: "S".to_string(),
        members: vec![StructMember { name: "a".to_string(), data_type: DataType::Vector(4, ScalarType::I32) }],
    };
    assert_eq!(decl.fmt(), "struct S {\n    a: vec4<i32>;\n};\n");
    let attrs = AttrList(vec![FnAttr::Stage(ShaderStage::Compute), FnAttr::WorkgroupSize(1)]);
    assert_eq!(attrs.fmt(), "[[stage(compute), workgroup_size(1)]]");
    assert_eq!(AttrList::<FnAttr>(vec![]).fmt(), "");
    let input = FnInput { name: "x".to_string(), data_type: DataType::Scalar(ScalarType::U32) };
    assert_eq!(input.fmt(), "x: u32");
    assert_eq!(FnOutput { data_type: DataType::Scalar(ScalarType::Bool) }.fmt(), "bool");
}
