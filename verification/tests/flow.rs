use wgslsmith::ast::expr::{Expr, ExprNode, Lit, Postfix, UnOp};
use wgslsmith::ast::func::FnDecl;
use wgslsmith::ast::globals::{GlobalVarAttr, GlobalVarDecl};
use wgslsmith::ast::module::Module;
use wgslsmith::ast::stmt::{Else, IfStatement, LoopStatement, Statement};
use wgslsmith::ast::types::{DataType, ScalarType, StorageClass, AccessMode};
use wgslsmith::flow::{flow, flow_with, Options};

fn func(name: &str, body: Vec<Statement>) -> FnDecl {
    FnDecl { attrs: vec![], name: name.to_owned(), inputs: vec![], output: None, body }
}

fn cond() -> ExprNode {
    ExprNode::from_lit(Lit::Bool(true))
}

/// The index of the counter that a statement bumps, if it is a counter call.
fn counter_index(s: &Statement) -> Option<u32> {
    match s {
        Statement::FnCall(c) => {
            assert_eq!(c.ident, "atomicAdd");
            assert_eq!(c.args.len(), 2);
            match &c.args[0].expr {
                Expr::UnOp(u) => {
                    assert_eq!(u.op, UnOp::AddressOf);
                    match &u.inner.expr {
                        Expr::Postfix(p) => match &p.postfix {
                            Postfix::Index(ix) => match ix.expr {
                                Expr::Lit(Lit::U32(k)) => Some(k),
                                _ => None,
                            },
                            _ => None,
                        },
                        _ => None,
                    }
                }
                _ => None,
            }
        }
        _ => None,
    }
}

/// The counter that wraps an instrumented block, and the block's statements.
fn wrapped(body: &[Statement]) -> (u32, &[Statement]) {
    assert_eq!(body.len(), 1);
    match &body[0] {
        Statement::Compound(outer) => {
            assert_eq!(outer.len(), 2);
            let k = counter_index(&outer[0]).unwrap();
            match &outer[1] {
                Statement::Compound(inner) => (k, inner),
                _ => panic!("expected the instrumented block"),
            }
        }
        _ => panic!("expected a wrapped block"),
    }
}

#[test]
fn functions_and_blocks_get_counters_in_order() {
    let if_stmt = Statement::If(IfStatement::new(cond(), vec![Statement::Break]));
    let module = Module {
        structs: vec![],
        consts: vec![],
        vars: vec![],
        functions: vec![func("main", vec![if_stmt, Statement::Loop(LoopStatement::new(vec![]))])],
    };
    let out = flow(module);
    let body = &out.functions[0].body;
    assert_eq!(body.len(), 3);
    assert_eq!(counter_index(&body[0]), Some(0));
    match &body[1] {
        Statement::If(i) => {
            let (k, inner) = wrapped(&i.body);
            assert_eq!(k, 1);
            assert!(matches!(inner[0], Statement::Break));
        }
        _ => panic!("expected the if statement"),
    }
    match &body[2] {
        Statement::Loop(l) => {
            let (k, inner) = wrapped(&l.body);
            assert_eq!(k, 2);
            assert!(inner.is_empty());
        }
        _ => panic!("expected the loop"),
    }
    // One structure with an array of three atomic counters.
    assert_eq!(out.structs.len(), 1);
    let decl = &out.structs[0];
    assert_eq!(decl.name, "_WGSLSmithFlow");
    assert_eq!(decl.members[0].name, "block");
    match &decl.members[0].data_type {
        DataType::Array(elem, Some(3)) => assert!(matches!(**elem, DataType::Scalar(ScalarType::AU32))),
        _ => panic!("expected an array of three counters"),
    }
}

#[test]
fn counter_buffer_is_bound_after_the_largest_binding() {
    let var = GlobalVarDecl {
        attrs: vec![GlobalVarAttr::Group(0), GlobalVarAttr::Binding(4)],
        qualifier: None,
        name: "v".to_owned(),
        data_type: DataType::Scalar(ScalarType::U32),
        initializer: None,
    };
    let other = GlobalVarDecl {
        attrs: vec![GlobalVarAttr::Binding(2)],
        qualifier: None,
        name: "w".to_owned(),
        data_type: DataType::Scalar(ScalarType::U32),
        initializer: None,
    };
    let module = Module { structs: vec![], consts: vec![], vars: vec![var, other], functions: vec![] };
    let out = flow_with(module, Options);
    assert_eq!(out.vars.len(), 3);
    let v = &out.vars[2];
    assert_eq!(v.name, "_wgslsmith_flow");
    assert_eq!(v.attrs, vec![GlobalVarAttr::Group(0), GlobalVarAttr::Binding(5)]);
    let q = v.qualifier.as_ref().unwrap();
    assert_eq!(q.storage_class, StorageClass::Storage);
    assert_eq!(q.access_mode, Some(AccessMode::ReadWrite));
    assert!(v.initializer.is_none());
}

#[test]
fn first_binding_is_zero_without_bindings() {
    let module = Module { structs: vec![], consts: vec![], vars: vec![], functions: vec![] };
    let out = flow(module);
    assert_eq!(out.vars[0].attrs, vec![GlobalVarAttr::Group(0), GlobalVarAttr::Binding(0)]);
    match &out.structs[0].members[0].data_type {
        DataType::Array(_, Some(0)) => {}
        _ => panic!("expected an empty counter array"),
    }
}

#[test]
fn own_functions_get_no_entry_counter() {
    let module = Module {
        structs: vec![],
        consts: vec![],
        vars: vec![],
        functions: vec![func("_wgslsmith_helper", vec![Statement::Continue])],
    };
    let out = flow(module);
    let body = &out.functions[0].body;
    assert_eq!(body.len(), 1);
    assert!(matches!(body[0], Statement::Continue));
}

#[test]
fn else_branch_counter_precedes_its_statements() {
    let i = IfStatement::new(cond(), vec![]).with_else(Some(Else::Else(vec![Statement::Break])));
    let module = Module {
        structs: vec![],
        consts: vec![],
        vars: vec![],
        functions: vec![func("_wgslsmith_f", vec![Statement::If(i)])],
    };
    let out = flow(module);
    match &out.functions[0].body[0] {
        Statement::If(i) => {
            let (k, _) = wrapped(&i.body);
            assert_eq!(k, 0);
            match i.else_.as_deref() {
                Some(Else::Else(ss)) => {
                    assert_eq!(ss.len(), 2);
                    assert_eq!(counter_index(&ss[0]), Some(1));
                    assert!(matches!(ss[1], Statement::Break));
                }
                _ => panic!("expected an else branch"),
            }
        }
        _ => panic!("expected the if statement"),
    }
}
