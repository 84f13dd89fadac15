use wgslsmith::buffer_check::compare;
use wgslsmith::layout::{ScalarType, StructMember, Type, VectorSize};
use wgslsmith::metadata::ResourceKind;

fn padded_struct() -> Type {
    // struct { a: u32, b: vec3<f32> }: bytes 4..16 are padding.
    Type::Struct {
        members: vec![
            StructMember { name: "a".to_owned(), type_desc: Type::Scalar { scalar_type: ScalarType::U32 } },
            StructMember {
                name: "b".to_owned(),
                type_desc: Type::Vector { size: VectorSize::N3, scalar_type: ScalarType::F32 },
            },
        ],
    }
}

#[test]
fn padding_is_ignored() {
    let mut first = vec![0u8; 32];
    first[0] = 7;
    let mut second = first.clone();
    second[5] = 9;
    let buffers = vec![vec![first.clone()], vec![second]];
    let kinds = vec![ResourceKind::StorageBuffer];
    assert!(compare(&buffers, &kinds, &vec![padded_struct()]));
}

#[test]
fn data_differences_are_found() {
    let first = vec![0u8; 32];
    let mut second = first.clone();
    second[16] = 1;
    let buffers = vec![vec![first.clone()], vec![first.clone()], vec![second]];
    let kinds = vec![ResourceKind::StorageBuffer];
    assert!(!compare(&buffers, &kinds, &vec![padded_struct()]));
}

#[test]
fn uniform_buffers_are_not_compared() {
    let u32_ty = || Type::Scalar { scalar_type: ScalarType::U32 };
    let a = vec![vec![1u8, 2, 3, 4]];
    let b = vec![vec![1u8, 2, 3, 4]];
    let kinds = vec![ResourceKind::UniformBuffer, ResourceKind::StorageBuffer];
    assert!(compare(&vec![a, b], &kinds, &vec![u32_ty(), u32_ty()]));
    assert!(compare(&vec![], &kinds, &vec![]));
}

#[test]
fn a_single_execution_needs_no_types() {
    let kinds = vec![ResourceKind::StorageBuffer, ResourceKind::StorageBuffer];
    assert!(compare(&vec![vec![vec![1u8]]], &kinds, &vec![]));
}

#[test]
fn comparison_stops_at_the_first_difference() {
    let u32_ty = || Type::Scalar { scalar_type: ScalarType::U32 };
    let first = vec![vec![1u8, 0, 0, 0]];
    let second = vec![vec![2u8, 0, 0, 0]];
    // The third execution left no buffer at all; it is never read.
    let third: Vec<Vec<u8>> = vec![];
    let kinds = vec![ResourceKind::StorageBuffer];
    assert!(!compare(&vec![first, second, third], &kinds, &vec![u32_ty()]));
}
