use wgslsmith::ast::structs::{StructDecl, StructMember as AstMember};
use wgslsmith::ast::types::{DataType, ScalarType as AstScalar};
use wgslsmith::layout::{aligned, ScalarType, StructMember, Type, VectorSize};

fn vec3_f32() -> Type {
    Type::Vector { size: VectorSize::N3, scalar_type: ScalarType::F32 }
}

#[test]
fn rounding_up_to_alignment() {
    assert_eq!(aligned(13, 4), 16);
    assert_eq!(aligned(16, 16), 16);
    assert_eq!(aligned(0, 8), 0);
}

#[test]
fn vector_sizes_and_alignments() {
    assert_eq!(vec3_f32().size(), 12);
    assert_eq!(vec3_f32().alignment(), 16);
    let v2 = Type::Vector { size: VectorSize::N2, scalar_type: ScalarType::U32 };
    assert_eq!(v2.size(), 8);
    assert_eq!(v2.alignment(), 8);
}

#[test]
fn struct_layout_with_padding() {
    let t = Type::Struct {
        members: vec![
            StructMember { name: "a".to_owned(), type_desc: Type::Scalar { scalar_type: ScalarType::U32 } },
            StructMember { name: "b".to_owned(), type_desc: vec3_f32() },
        ],
    };
    assert_eq!(t.alignment(), 16);
    assert_eq!(t.size(), 32);
    assert_eq!(t.buffer_size(), 32);
    assert_eq!(t.ranges(), vec![(0, 4), (16, 12)]);
}

#[test]
fn array_layout_uses_element_stride() {
    let t = Type::Array { size: 3, element_type: Box::new(vec3_f32()) };
    assert_eq!(t.size(), 48);
    assert_eq!(t.ranges(), vec![(0, 12), (16, 12), (32, 12)]);
}

#[test]
fn shader_types_convert_to_layouts() {
    let decl = StructDecl::new(
        "S".to_owned(),
        vec![
            AstMember::new(vec![], "x".to_owned(), DataType::Scalar(AstScalar::I32)),
            AstMember::new(vec![], "y".to_owned(), DataType::Vector(4, AstScalar::F32)),
        ],
    );
    let t = Type::try_from_data_type(&DataType::Struct(decl)).unwrap();
    assert_eq!(t.size(), 32);
    assert_eq!(Type::try_from_data_type(&DataType::Scalar(AstScalar::Bool)).err(), Some("bool is not allowed"));
    assert_eq!(
        Type::try_from_data_type(&DataType::array(DataType::Scalar(AstScalar::U32), None)).err(),
        Some("struct member runtime sized arrays are not supported")
    );
}
