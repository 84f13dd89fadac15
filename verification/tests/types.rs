use wgslsmith::ast::types::{AccessMode, DataType, ScalarType, StorageClass};

#[test]
fn default_access_modes() {
    assert_eq!(StorageClass::Function.default_access_mode(), AccessMode::ReadWrite);
    assert_eq!(StorageClass::Uniform.default_access_mode(), AccessMode::Read);
    assert_eq!(StorageClass::Storage.default_access_mode(), AccessMode::Read);
}

#[test]
fn as_scalar_of_vector() {
    let t = DataType::Vector(3, ScalarType::U32);
    assert_eq!(t.as_scalar(), Some(ScalarType::U32));
    assert!(t.is_integer());
    assert!(!t.is_scalar());
}
