use rand::rngs::StdRng;
use rand::SeedableRng;
use wgslsmith::ast::types::{DataType, MemoryViewType, ScalarType, StorageClass};
use wgslsmith::generator::gen_vector_accessor;
use wgslsmith::generator::scope::Scope;

#[test]
fn symbols_are_found_by_the_types_they_reach() {
    let mut scope = Scope::empty();
    assert!(!scope.has_mutables());
    assert!(scope.of_type(&DataType::Scalar(ScalarType::F32)).is_empty());
    scope.insert_readonly("v".to_string(), DataType::Vector(3, ScalarType::F32));
    let scalars = scope.of_type(&DataType::Scalar(ScalarType::F32));
    assert_eq!(scalars.len(), 1);
    assert_eq!(scalars[0].0, "v");
    assert_eq!(scope.of_type(&DataType::Vector(2, ScalarType::F32)).len(), 1);
    assert_eq!(scope.of_type(&DataType::Vector(3, ScalarType::F32)).len(), 1);
    assert!(scope.of_type(&DataType::Vector(4, ScalarType::F32)).is_empty());
    assert!(!scope.has_mutables());
}

#[test]
fn mutable_references_are_listed_as_references() {
    let mut scope = Scope::empty();
    scope.insert_mutable("a".to_string(), DataType::Scalar(ScalarType::I32));
    assert!(scope.has_mutables());
    assert!(!scope.has_references());
    let view = MemoryViewType::new(DataType::Scalar(ScalarType::U32), StorageClass::Function);
    scope.insert_mutable("r".to_string(), DataType::Ref(view));
    assert!(scope.has_references());
    let mut rng = StdRng::seed_from_u64(7);
    let (name, _) = scope.choose_reference(&mut rng);
    assert_eq!(name, "r");
    let (name, _) = scope.choose_mutable(&mut rng);
    assert!(name == "a" || name == "r");
    // a reference is filed under its own type; a u32 gives access to nothing further
    let same = MemoryViewType::new(DataType::Scalar(ScalarType::U32), StorageClass::Function);
    assert_eq!(scope.of_type(&DataType::Ref(same)).len(), 1);
    assert!(scope.of_type(&DataType::Scalar(ScalarType::U32)).is_empty());
}

#[test]
fn fresh_names_count_up() {
    let mut scope = Scope::empty();
    assert_eq!(scope.next_name(), "var_0");
    assert_eq!(scope.next_name(), "var_1");
}

#[test]
fn accessors_name_components_of_the_source() {
    let mut rng = StdRng::seed_from_u64(1);
    assert_eq!(gen_vector_accessor(&mut rng, 4, &DataType::Scalar(ScalarType::I32)), "x");
    for _ in 0..20 {
        let acc = gen_vector_accessor(&mut rng, 2, &DataType::Vector(3, ScalarType::I32));
        assert_eq!(acc.len(), 3);
        assert!(acc.chars().all(|c| c == 'x' || c == 'y'));
    }
}
