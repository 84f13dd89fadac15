//! Structure declarations as the generator writes them.
use crate::ast::structs::{StructDecl, StructMember, StructMemberAttr};
use crate::ast::types::DataType;
use crate::generator::StructKind;
use rand::rngs::StdRng;
use rand::Rng;
use std::rc::Rc;
use vstd::prelude::*;

verus! {

/// Draws a number of `lo..=hi` by `rand::Rng::gen_range`. By the crate's source that
/// call panics on an empty range (kept out here by `lo <= hi`) and otherwise gives a
/// number of the range; which one comes out is left to `rng`.
#[verifier::external_body]
fn gen_range_inclusive(rng: &mut StdRng, lo: u32, hi: u32) -> (r: u32)
    requires
        lo <= hi,
    ensures
        lo <= r <= hi,
{
    rng.gen_range(lo..=hi)
}

/// Picks how many members a generated structure has, between the smallest and the
/// largest number allowed, as `rng` decides.
pub fn gen_struct_member_count(rng: &mut StdRng, min_members: u32, max_members: u32) -> (r: u32)
    requires
        min_members <= max_members,
    ensures
        min_members <= r <= max_members,
{
    gen_range_inclusive(rng, min_members, max_members)
}

/// The name of the `i`th member of a generated structure.
pub open spec fn field_name(i: int) -> Seq<char> {
    if i == 0 {
        "a"@
    } else if i == 1 {
        "b"@
    } else if i == 2 {
        "c"@
    } else if i == 3 {
        "d"@
    } else if i == 4 {
        "e"@
    } else if i == 5 {
        "f"@
    } else if i == 6 {
        "g"@
    } else if i == 7 {
        "h"@
    } else if i == 8 {
        "i"@
    } else {
        "j"@
    }
}

fn field_name_str(i: usize) -> (r: &'static str)
    requires
        i < 10,
    ensures
        r@ == field_name(i as int),
{
    if i == 0 {
        "a"
    } else if i == 1 {
        "b"
    } else if i == 2 {
        "c"
    } else if i == 3 {
        "d"
    } else if i == 4 {
        "e"
    } else if i == 5 {
        "f"
    } else if i == 6 {
        "g"
    } else if i == 7 {
        "h"
    } else if i == 8 {
        "i"
    } else {
        "j"
    }
}

/// The attributes of a generated member of type `ty`: in a structure that is shared
/// with the host, a member that is itself a structure is aligned to 16 bytes.
pub open spec fn member_attrs(kind: StructKind, ty: DataType) -> Seq<StructMemberAttr> {
    if kind != StructKind::Default && ty is Struct {
        seq![StructMemberAttr::Align(16)]
    } else {
        Seq::empty()
    }
}

/// A generated structure named `name` whose members, named `a`, `b`, ... in turn,
/// have the types `member_types`.
pub fn gen_struct_with(name: String, kind: StructKind, member_types: Vec<DataType>) -> (r: Rc<StructDecl>)
    requires
        member_types@.len() <= 10,
    ensures
        r.name == name,
        r.members@.len() == member_types@.len(),
        forall|i: int|
            0 <= i < member_types@.len() ==> {
                &&& (#[trigger] r.members@[i]).name@ == field_name(i)
                &&& r.members@[i].data_type == member_types@[i]
                &&& r.members@[i].attrs@ == member_attrs(kind, member_types@[i])
            },
{
    let mut members: Vec<Rc<StructMember>> = Vec::new();
    let mut i: usize = 0;
    while i < member_types.len()
        invariant
            i <= member_types@.len(),
            member_types@.len() <= 10,
            members@.len() == i,
            forall|j: int|
                0 <= j < i ==> {
                    &&& (#[trigger] members@[j]).name@ == field_name(j)
                    &&& members@[j].data_type == member_types@[j]
                    &&& members@[j].attrs@ == member_attrs(kind, member_types@[j])
                },
        decreases member_types.len() - i,
    {
        let ty = member_types[i].clone();
        let mut attrs: Vec<StructMemberAttr> = Vec::new();
        let shared = match kind {
            StructKind::HostShareable | StructKind::UniformBuffer => true,
            StructKind::Default => false,
        };
        if shared {
            if let DataType::Struct(_) = ty {
                attrs.push(StructMemberAttr::Align(16));
            }
        }
        assert(attrs@ =~= member_attrs(kind, member_types@[i as int]));
        let member = StructMember::new(attrs, String::from_str(field_name_str(i)), ty);
        members.push(member);
        i = i + 1;
    }
    StructDecl::new(name, members)
}

} // verus!
