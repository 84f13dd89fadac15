use wgslsmith::ast::builtins::BuiltinFn;
use wgslsmith::ast::calls::Func;
use wgslsmith::ast::expr::{BinOp, Lit, Postfix, PostfixExpr, UnOp, UnOpExpr, VarExpr};
use wgslsmith::ast::globals::{GlobalVarAttr, GlobalVarDecl};
use wgslsmith::ast::structs::{StructDecl, StructMember};
use wgslsmith::ast::types::{AccessMode, DataType, MemoryViewType, ScalarType, StorageClass};

#[test]
fn builtin_return_types() {
    let v = DataType::Vector(3, ScalarType::F32);
    assert!(matches!(BuiltinFn::Length.return_type(&[v.clone()]), Some(DataType::Scalar(ScalarType::F32))));
    assert!(matches!(BuiltinFn::Abs.return_type(&[v.clone()]), Some(DataType::Vector(3, ScalarType::F32))));
    assert!(matches!(BuiltinFn::All.return_type(&[DataType::Vector(2, ScalarType::Bool)]), Some(DataType::Scalar(ScalarType::Bool))));
    assert!(BuiltinFn::Abs.return_type(&[]).is_none());
    assert_eq!(BuiltinFn::CountOneBits.name(), "countOneBits");
    assert!(BuiltinFn::WorkgroupUniformLoad.requires_uniformity());
    assert!(!BuiltinFn::Abs.requires_uniformity());
}

#[test]
fn user_functions_return_their_declared_type() {
    let f = Func::User(DataType::Scalar(ScalarType::I32));
    assert!(matches!(f.return_type(&[]), Some(DataType::Scalar(ScalarType::I32))));
    let b = Func::Builtin(BuiltinFn::Dot);
    assert!(matches!(b.return_type(&[DataType::Vector(4, ScalarType::U32)]), Some(DataType::Scalar(ScalarType::U32))));
}

#[test]
fn operator_typing() {
    let v = DataType::Vector(2, ScalarType::I32);
    assert!(matches!(BinOp::GreaterEqual.type_eval(&v, &v), DataType::Vector(2, ScalarType::Bool)));
    assert!(matches!(BinOp::LogOr.type_eval(&v, &v), DataType::Scalar(ScalarType::Bool)));
    assert!(BinOp::Times.precedence() > BinOp::Plus.precedence());
    let r = DataType::Ref(MemoryViewType::new(DataType::Scalar(ScalarType::U32), StorageClass::Private));
    let addr = UnOpExpr::new(UnOp::AddressOf, VarExpr::new("x".to_owned()).into_node(r)).into_node();
    match addr.data_type {
        DataType::Ptr(view) => {
            assert_eq!(view.storage_class, StorageClass::Private);
            assert_eq!(view.access_mode, AccessMode::ReadWrite);
        }
        _ => panic!("expected a pointer"),
    }
}

#[test]
fn member_and_swizzle_types() {
    let decl = StructDecl::new(
        "S".to_owned(),
        vec![StructMember::new(vec![], "v".to_owned(), DataType::Vector(4, ScalarType::U32))],
    );
    let s = VarExpr::new("s".to_owned()).into_node(DataType::Struct(decl));
    let m = PostfixExpr::new(s, Postfix::member("v".to_owned())).into_node();
    assert!(matches!(m.data_type, DataType::Vector(4, ScalarType::U32)));
    let sw = PostfixExpr::new(m, Postfix::member("xy".to_owned())).into_node();
    assert!(matches!(sw.data_type, DataType::Vector(2, ScalarType::U32)));
    assert!(matches!(Lit::U32(3).data_type(), DataType::Scalar(ScalarType::U32)));
}

#[test]
fn group_and_binding_indices() {
    let var = GlobalVarDecl {
        attrs: vec![GlobalVarAttr::Binding(3), GlobalVarAttr::Group(1)],
        qualifier: None,
        name: "g".to_owned(),
        data_type: DataType::Scalar(ScalarType::U32),
        initializer: None,
    };
    assert_eq!(var.group_index(), Some(1));
    assert_eq!(var.binding_index(), Some(3));
}

#[test]
fn structure_accessors() {
    let decl = StructDecl::new(
        "S".to_owned(),
        vec![
            StructMember::new(vec![], "a".to_owned(), DataType::Scalar(ScalarType::I32)),
            StructMember::new(vec![], "b".to_owned(), DataType::Scalar(ScalarType::I32)),
        ],
    );
    let types = decl.accessible_types();
    assert_eq!(types.len(), 1);
    assert_eq!(decl.accessors_of(&DataType::Scalar(ScalarType::I32)).len(), 2);
    assert!(decl.accessors_of(&DataType::Scalar(ScalarType::U32)).is_empty());
}

#[test]
fn structure_accessors_reach_array_elements() {
    let decl = StructDecl::new(
        "S".to_owned(),
        vec![
            StructMember::new(vec![], "a".to_owned(), DataType::array(DataType::Scalar(ScalarType::U32), Some(4))),
            StructMember::new(vec![], "b".to_owned(), DataType::Scalar(ScalarType::I32)),
        ],
    );
    let types = decl.accessible_types();
    assert_eq!(types.len(), 3);
    assert!(types.iter().any(|t| t.eq_type(&DataType::Scalar(ScalarType::U32))));
    let through_u32 = decl.accessors_of(&DataType::Scalar(ScalarType::U32));
    assert_eq!(through_u32.len(), 1);
    assert_eq!(through_u32[0].name, "a");
    assert_eq!(decl.accessors_of(&DataType::array(DataType::Scalar(ScalarType::U32), Some(4))).len(), 1);
}

#[test]
fn structure_accessors_reach_vector_elements_of_arrays() {
    let decl = StructDecl::new(
        "S".to_owned(),
        vec![StructMember::new(vec![], "a".to_owned(), DataType::array(DataType::Vector(3, ScalarType::F32), None))],
    );
    let types = decl.accessible_types();
    assert_eq!(types.len(), 4);
    assert_eq!(decl.accessors_of(&DataType::Vector(2, ScalarType::F32)).len(), 1);
    assert_eq!(decl.accessors_of(&DataType::Scalar(ScalarType::F32)).len(), 1);
}

#[test]
fn structure_accessors_list_a_repeated_member_once() {
    let decl = StructDecl::new(
        "S".to_owned(),
        vec![
            StructMember::new(vec![], "a".to_owned(), DataType::Vector(4, ScalarType::U32)),
            StructMember::new(vec![], "a".to_owned(), DataType::Vector(4, ScalarType::U32)),
        ],
    );
    assert_eq!(decl.accessible_types().len(), 4);
    assert_eq!(decl.accessors_of(&DataType::Scalar(ScalarType::U32)).len(), 1);
    assert_eq!(decl.accessors_of(&DataType::Vector(4, ScalarType::U32)).len(), 1);
}
