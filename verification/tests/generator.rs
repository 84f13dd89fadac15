use wgslsmith::ast::builtins::BuiltinFn;
use wgslsmith::ast::stmt::{ReturnStatement, Statement};
use wgslsmith::ast::structs::{StructDecl, StructMember};
use wgslsmith::ast::types::{DataType, MemoryViewType, ScalarType, StorageClass};
use wgslsmith::generator::{accessible_types_of, is_terminal_stmt, scalar_and_vectors_of, vectors_of, Preset, PresetOptions};

#[test]
fn vector_gives_access_to_components_and_smaller_vectors() {
    let types = accessible_types_of(&DataType::Vector(4, ScalarType::F32));
    assert_eq!(types.len(), 3);
    assert!(matches!(types[0], DataType::Scalar(ScalarType::F32)));
    assert!(matches!(types[1], DataType::Vector(2, ScalarType::F32)));
    assert!(matches!(types[2], DataType::Vector(3, ScalarType::F32)));
    assert!(accessible_types_of(&DataType::Scalar(ScalarType::I32)).is_empty());
    assert_eq!(accessible_types_of(&DataType::Vector(2, ScalarType::U32)).len(), 1);
}

#[test]
fn pointer_gives_access_through_its_target() {
    let arr = DataType::array(DataType::Scalar(ScalarType::U32), Some(4));
    let ptr = DataType::Ptr(MemoryViewType::new(arr, StorageClass::Function));
    let types = accessible_types_of(&ptr);
    assert_eq!(types.len(), 1);
    assert!(matches!(types[0], DataType::Scalar(ScalarType::U32)));
}

#[test]
fn structure_gives_access_to_members_and_their_parts() {
    let decl = StructDecl::new(
        "S".to_owned(),
        vec![StructMember::new(vec![], "a".to_owned(), DataType::Vector(3, ScalarType::I32))],
    );
    let types = accessible_types_of(&DataType::Struct(decl));
    assert_eq!(types.len(), 3);
}

#[test]
fn vector_lists() {
    assert_eq!(vectors_of(ScalarType::Bool).len(), 3);
    let all = scalar_and_vectors_of(ScalarType::I32);
    assert_eq!(all.len(), 4);
    assert!(matches!(all[0], DataType::Scalar(ScalarType::I32)));
    assert!(matches!(all[3], DataType::Vector(4, ScalarType::I32)));
}

#[test]
fn terminal_statements() {
    assert!(is_terminal_stmt(Some(&Statement::Break)));
    assert!(is_terminal_stmt(Some(&Statement::Return(ReturnStatement::none()))));
    assert!(is_terminal_stmt(Some(&Statement::Fallthrough)));
    assert!(!is_terminal_stmt(Some(&Statement::Compound(vec![]))));
    assert!(!is_terminal_stmt(None));
}

#[test]
fn presets_by_name() {
    assert_eq!(Preset::parse("tint"), Ok(Preset::Tint));
    assert_eq!(Preset::parse("naga"), Err("invalid preset - must be one of {tint}"));
}

#[test]
fn tint_preset_enables_its_extras_once() {
    let mut options = PresetOptions {
        enabled_fns: vec![BuiltinFn::Refract, BuiltinFn::Abs],
        enable_pointers: false,
        skip_pointer_checks: false,
        recondition: false,
    };
    options.apply_preset(&Preset::Tint);
    assert_eq!(
        options.enabled_fns,
        vec![BuiltinFn::Refract, BuiltinFn::Abs, BuiltinFn::CountLeadingZeros, BuiltinFn::CountTrailingZeros]
    );
    assert!(options.enable_pointers && options.skip_pointer_checks && options.recondition);
}
