//! Types of the smaller shader syntax tree: three scalar types, vectors, runtime-sized
//! arrays and named structure types.
use std::rc::Rc;
use vstd::prelude::*;

verus! {

#[derive(Clone, Copy, Debug, Hash, PartialEq, Eq, Structural)]
pub enum ScalarType {
    Bool,
    I32,
    U32,
}

pub enum DataType {
    Scalar(ScalarType),
    Vector(u8, ScalarType),
    Array(Rc<DataType>),
    User(Rc<String>),
}

impl DataType {
    /// The scalar or vector type of the same shape with `scalar` components.
    pub fn map(&self, scalar: ScalarType) -> (r: DataType)
        requires
            self is Scalar || self is Vector,
        ensures
            r == spec_map(*self, scalar),
    {
        match self {
            DataType::Vector(n, _) => DataType::Vector(*n, scalar),
            _ => DataType::Scalar(scalar),
        }
    }
}

/// The scalar or vector type of the same shape as `t` with `scalar` components.
pub open spec fn spec_map(t: DataType, scalar: ScalarType) -> DataType {
    match t {
        DataType::Vector(n, _) => DataType::Vector(n, scalar),
        _ => DataType::Scalar(scalar),
    }
}

impl Clone for DataType {
    fn clone(&self) -> (r: Self)
        ensures
            r == *self,
    {
        match self {
            DataType::Scalar(t) => DataType::Scalar(*t),
            DataType::Vector(n, t) => DataType::Vector(*n, *t),
            DataType::Array(inner) => DataType::Array(crate::rc_spec::rc_clone(inner)),
            DataType::User(name) => DataType::User(crate::rc_spec::rc_clone(name)),
        }
    }
}

} // verus!
