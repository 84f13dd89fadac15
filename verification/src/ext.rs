//! Sizes of the integer types that shaders exchange with the host.
use crate::ast::structs::StructMember;
use crate::ast::types::{DataType, ScalarType};
use std::rc::Rc;
use vstd::prelude::*;

verus! {

/// The packed size of an integer scalar, vector or structure of those.
pub open spec fn spec_packed_size(ty: DataType) -> int
    decreases ty, 0int,
{
    match ty {
        DataType::Scalar(_) => 4,
        DataType::Vector(n, _) => 4 * n,
        DataType::Struct(decl) => members_packed_size(decl.members@, decl.members@.len() as int),
        _ => 0,
    }
}

/// The sum of the packed sizes of the first `n` members.
pub open spec fn members_packed_size(members: Seq<Rc<StructMember>>, n: int) -> int
    decreases members, if n > 0 { n } else { 0 },
{
    if n <= 0 || n > members.len() {
        0
    } else {
        members_packed_size(members, n - 1) + spec_packed_size(members[n - 1].data_type)
    }
}

/// The type is made of `i32` and `u32` scalars and vectors only.
pub open spec fn packed_size_defined(ty: DataType) -> bool
    decreases ty,
{
    match ty {
        DataType::Scalar(t) => t == ScalarType::I32 || t == ScalarType::U32,
        DataType::Vector(_, t) => t == ScalarType::I32 || t == ScalarType::U32,
        DataType::Struct(decl) => forall|i: int|
            0 <= i < decl.members@.len() ==> packed_size_defined(#[trigger] decl.members@[i].data_type),
        _ => false,
    }
}

/// Every partial sum of the packed sizes fits in a `usize`.
pub open spec fn packed_size_fits(ty: DataType) -> bool
    decreases ty,
{
    match ty {
        DataType::Struct(decl) => (forall|i: int|
            0 <= i < decl.members@.len() ==> packed_size_fits(#[trigger] decl.members@[i].data_type)) && forall|n: int|
            0 <= n <= decl.members@.len() ==> #[trigger] members_packed_size(decl.members@, n) <= usize::MAX,
        _ => true,
    }
}

pub trait DataTypeExt {
    spec fn spec_size(&self) -> int;

    spec fn size_defined(&self) -> bool;

    fn size(&self) -> (r: usize)
        requires
            self.size_defined(),
        ensures
            r == self.spec_size(),
    ;
}

impl DataTypeExt for DataType {
    open spec fn spec_size(&self) -> int {
        spec_packed_size(*self)
    }

    open spec fn size_defined(&self) -> bool {
        packed_size_defined(*self) && packed_size_fits(*self)
    }

    fn size(&self) -> (r: usize)
        decreases self,
    {
        match self {
            DataType::Scalar(_) => 4,
            DataType::Vector(n, _) => 4 * (*n as usize),
            DataType::Struct(decl) => {
                let mut total: usize = 0;
                let mut i: usize = 0;
                while i < decl.members.len()
                    invariant
                        i <= decl.members.len(),
                        *self == DataType::Struct(*decl),
                        forall|k: int|
                            0 <= k < decl.members@.len() ==> packed_size_defined(#[trigger] decl.members@[k].data_type),
                        forall|k: int|
                            0 <= k < decl.members@.len() ==> packed_size_fits(#[trigger] decl.members@[k].data_type),
                        forall|n: int|
                            0 <= n <= decl.members@.len() ==> #[trigger] members_packed_size(decl.members@, n)
                                <= usize::MAX,
                        total == members_packed_size(decl.members@, i as int),
                    decreases decl.members.len() - i,
                {
                    proof {
                        assert(decreases_to!(*self => self->Struct_0));
                        assert(decreases_to!(*decl => decl.members));
                        assert(decreases_to!(decl.members => decl.members@));
                        assert(decreases_to!(decl.members@ => decl.members@[i as int]));
                        assert(decreases_to!(decl.members@[i as int] => decl.members@[i as int].data_type));
                        assert(members_packed_size(decl.members@, i as int + 1) <= usize::MAX);
                    }
                    total = total + decl.members[i].data_type.size();
                    i = i + 1;
                }
                total
            },
            _ => 0,
        }
    }
}

} // verus!
