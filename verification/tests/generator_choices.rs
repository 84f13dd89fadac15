use rand::rngs::StdRng;
use rand::SeedableRng;
use std::rc::Rc;
use wgslsmith::ast::structs::{StructDecl, StructMemberAttr};
use wgslsmith::ast::globals::{GlobalVarAttr, GlobalVarDecl, VarQualifier};
use wgslsmith::ast::types::{DataType, ScalarType, StorageClass};
use wgslsmith::generator::init_data::uniform_buffer_sizes;
use wgslsmith::generator::stmt::{
    allowed_statements, choose_statement_type, statement_at, statement_weight, statement_weights, StatementType,
};
use wgslsmith::generator::structs::{gen_struct_member_count, gen_struct_with};
use wgslsmith::generator::StructKind;

#[test]
fn statements_allowed_outside_loops_and_blocks() {
    let allowed = allowed_statements(false, false, false);
    assert_eq!(allowed, vec![StatementType::LetDecl, StatementType::VarDecl, StatementType::Return]);
    let all = allowed_statements(true, true, true);
    assert_eq!(all.len(), 10);
    assert_eq!(all[3], StatementType::Break);
    assert_eq!(all[5], StatementType::Assignment);
    assert_eq!(all[9], StatementType::ForLoop);
    assert_eq!(statement_weight(StatementType::Return), 1);
    assert_eq!(statement_weight(StatementType::Assignment), 10);
}

#[test]
fn statement_weights_follow_the_kinds() {
    let all = allowed_statements(true, true, true);
    assert_eq!(statement_weights(&all), vec![10, 10, 1, 5, 5, 10, 5, 5, 5, 5]);
    assert_eq!(statement_weights(&allowed_statements(false, false, false)), vec![10, 10, 1]);
    assert!(statement_weights(&vec![]).is_empty());
}

#[test]
fn statement_at_indexes_the_allowed_kinds() {
    assert_eq!(statement_at(false, false, false, 2), StatementType::Return);
    assert_eq!(statement_at(true, false, false, 4), StatementType::Continue);
    assert_eq!(statement_at(false, true, true, 3), StatementType::Assignment);
    assert_eq!(statement_at(false, false, true, 6), StatementType::ForLoop);
}

#[test]
fn chosen_statements_are_allowed() {
    let mut rng = StdRng::seed_from_u64(3);
    for _ in 0..50 {
        let t = choose_statement_type(&mut rng, false, true, false);
        assert!(matches!(t, StatementType::LetDecl | StatementType::VarDecl | StatementType::Return | StatementType::Assignment));
    }
}

#[test]
fn shared_structs_align_nested_structs() {
    let inner = StructDecl::new("Inner".to_string(), vec![]);
    let types = vec![DataType::Scalar(ScalarType::U32), DataType::Struct(inner.clone())];
    let decl = gen_struct_with("Outer".to_string(), StructKind::HostShareable, types);
    assert_eq!(decl.name, "Outer");
    assert_eq!(decl.members.len(), 2);
    assert_eq!(decl.members[0].name, "a");
    assert_eq!(decl.members[1].name, "b");
    assert!(decl.members[0].attrs.is_empty());
    assert_eq!(decl.members[1].attrs, vec![StructMemberAttr::Align(16)]);
    let plain = gen_struct_with("P".to_string(), StructKind::Default, vec![DataType::Struct(Rc::clone(&inner))]);
    assert!(plain.members[0].attrs.is_empty());
}

fn global(group: i32, binding: i32, class: StorageClass, ty: DataType) -> GlobalVarDecl {
    GlobalVarDecl {
        attrs: vec![GlobalVarAttr::Group(group), GlobalVarAttr::Binding(binding)],
        qualifier: Some(VarQualifier { storage_class: class, access_mode: None }),
        name: "v".to_string(),
        data_type: ty,
        initializer: None,
    }
}

#[test]
fn uniform_buffers_are_sized_by_their_layout() {
    let vars = vec![
        global(0, 1, StorageClass::Uniform, DataType::Scalar(ScalarType::U32)),
        global(0, 2, StorageClass::Storage, DataType::Scalar(ScalarType::U32)),
        global(1, 0, StorageClass::Uniform, DataType::Vector(3, ScalarType::F32)),
    ];
    let sizes = uniform_buffer_sizes(&vars).unwrap();
    assert_eq!(sizes, vec![("0:1".to_string(), 4), ("1:0".to_string(), 16)]);
    let bad = vec![global(0, 0, StorageClass::Uniform, DataType::Scalar(ScalarType::Bool))];
    assert_eq!(uniform_buffer_sizes(&bad), Err("bool is not allowed"));
}

#[test]
fn struct_member_counts_stay_within_the_options() {
    let mut rng = StdRng::seed_from_u64(11);
    let mut seen = [false; 6];
    for _ in 0..200 {
        let n = gen_struct_member_count(&mut rng, 1, 5);
        assert!((1..=5).contains(&n));
        seen[n as usize] = true;
    }
    assert!(seen[1..=5].iter().all(|s| *s));
    assert_eq!(gen_struct_member_count(&mut rng, 3, 3), 3);
}
