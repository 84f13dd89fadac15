use crate::ast::structs::StructDecl;
use crate::rc_spec::rc_clone;
use std::rc::Rc;
use vstd::prelude::*;

verus! {

/// The scalar types of the shading language.
#[derive(Clone, Copy, Debug, PartialEq, Eq, Hash, Structural)]
pub enum ScalarType {
    Bool,
    I32,
    U32,
    F32,
    AU32,
    AI32,
}

/// The address spaces in which a variable may live.
#[derive(Clone, Copy, Debug, PartialEq, Eq, Hash, Structural)]
pub enum StorageClass {
    Function,
    Private,
    WorkGroup,
    Uniform,
    Storage,
}

/// How memory in an address space may be accessed.
#[derive(Clone, Copy, Debug, PartialEq, Eq, Hash, Structural)]
pub enum AccessMode {
    Read,
    Write,
    ReadWrite,
}

/// The access mode that an address space grants when none is written.
pub open spec fn spec_default_access_mode(sc: StorageClass) -> AccessMode {
    match sc {
        StorageClass::Function | StorageClass::Private | StorageClass::WorkGroup => AccessMode::ReadWrite,
        StorageClass::Uniform | StorageClass::Storage => AccessMode::Read,
    }
}

impl StorageClass {
    pub fn default_access_mode(&self) -> (r: AccessMode)
        ensures
            r == spec_default_access_mode(*self),
    {
        match self {
            StorageClass::Function => AccessMode::ReadWrite,
            StorageClass::Private => AccessMode::ReadWrite,
            StorageClass::WorkGroup => AccessMode::ReadWrite,
            StorageClass::Uniform => AccessMode::Read,
            StorageClass::Storage => AccessMode::Read,
        }
    }
}

/// The type behind a pointer or a reference: what it points to, where, and how it may
/// be accessed.
#[derive(Debug)]
pub struct MemoryViewType {
    pub inner: Rc<DataType>,
    pub storage_class: StorageClass,
    pub access_mode: AccessMode,
}

/// A type of the shading language.
#[derive(Debug)]
pub enum DataType {
    Scalar(ScalarType),
    Vector(u8, ScalarType),
    Array(Rc<DataType>, Option<u32>),
    Struct(Rc<StructDecl>),
    Ptr(MemoryViewType),
    Ref(MemoryViewType),
    Atomic(ScalarType),
    AtomicCompareExchangeResult(ScalarType),
}

impl Clone for MemoryViewType {
    fn clone(&self) -> (r: Self)
        ensures
            r == *self,
    {
        MemoryViewType {
            inner: rc_clone(&self.inner),
            storage_class: self.storage_class,
            access_mode: self.access_mode,
        }
    }
}

impl Clone for DataType {
    fn clone(&self) -> (r: Self)
        ensures
            r == *self,
    {
        match self {
            DataType::Scalar(t) => DataType::Scalar(*t),
            DataType::Vector(n, t) => DataType::Vector(*n, *t),
            DataType::Array(t, n) => DataType::Array(rc_clone(t), *n),
            DataType::Struct(decl) => DataType::Struct(rc_clone(decl)),
            DataType::Ptr(view) => DataType::Ptr(view.clone()),
            DataType::Ref(view) => DataType::Ref(view.clone()),
            DataType::Atomic(t) => DataType::Atomic(*t),
            DataType::AtomicCompareExchangeResult(t) => DataType::AtomicCompareExchangeResult(*t),
        }
    }
}

impl MemoryViewType {
    /// A view of `inner` in `storage_class`, with the address space's default access mode.
    pub fn new(inner: DataType, storage_class: StorageClass) -> (r: MemoryViewType)
        ensures
            *r.inner == inner,
            r.storage_class == storage_class,
            r.access_mode == spec_default_access_mode(storage_class),
    {
        MemoryViewType {
            inner: Rc::new(inner),
            storage_class,
            access_mode: storage_class.default_access_mode(),
        }
    }

    /// The same view (address space and access mode) of another type.
    pub fn clone_with_type(&self, inner: DataType) -> (r: MemoryViewType)
        ensures
            *r.inner == inner,
            r.storage_class == self.storage_class,
            r.access_mode == self.access_mode,
    {
        MemoryViewType { inner: Rc::new(inner), storage_class: self.storage_class, access_mode: self.access_mode }
    }
}

/// Equality of types as the language sees it: structure types are told apart by
/// their names, all other types by their structure.
pub open spec fn type_eq(a: DataType, b: DataType) -> bool
    decreases a,
{
    match a {
        DataType::Scalar(x) => b == DataType::Scalar(x),
        DataType::Vector(n, x) => b == DataType::Vector(n, x),
        DataType::Array(t, n) => match b {
            DataType::Array(u, m) => n == m && type_eq(*t, *u),
            _ => false,
        },
        DataType::Struct(d) => match b {
            DataType::Struct(e) => d.name@ == e.name@,
            _ => false,
        },
        DataType::Ptr(v) => match b {
            DataType::Ptr(w) => v.storage_class == w.storage_class && v.access_mode == w.access_mode
                && type_eq(*v.inner, *w.inner),
            _ => false,
        },
        DataType::Ref(v) => match b {
            DataType::Ref(w) => v.storage_class == w.storage_class && v.access_mode == w.access_mode
                && type_eq(*v.inner, *w.inner),
            _ => false,
        },
        DataType::Atomic(x) => b == DataType::Atomic(x),
        DataType::AtomicCompareExchangeResult(x) => b == DataType::AtomicCompareExchangeResult(x),
    }
}

/// What an `Rc` points to.
pub open spec fn pointee<T>(r: Rc<T>) -> T {
    *r
}

/// Type equality is reflexive.
pub proof fn lemma_type_eq_refl(a: DataType)
    ensures
        type_eq(a, a),
    decreases a,
{
    match a {
        DataType::Array(t, _) => lemma_type_eq_refl(pointee(t)),
        DataType::Ptr(v) => lemma_type_eq_refl(pointee(v.inner)),
        DataType::Ref(v) => lemma_type_eq_refl(pointee(v.inner)),
        _ => {},
    }
}

/// Type equality is symmetric.
pub proof fn lemma_type_eq_symm(a: DataType, b: DataType)
    requires
        type_eq(a, b),
    ensures
        type_eq(b, a),
    decreases a,
{
    match a {
        DataType::Array(t, _) => {
            if let DataType::Array(u, _) = b {
                lemma_type_eq_symm(pointee(t), pointee(u));
            }
        },
        DataType::Ptr(v) => {
            if let DataType::Ptr(w) = b {
                lemma_type_eq_symm(pointee(v.inner), pointee(w.inner));
            }
        },
        DataType::Ref(v) => {
            if let DataType::Ref(w) = b {
                lemma_type_eq_symm(pointee(v.inner), pointee(w.inner));
            }
        },
        _ => {},
    }
}

/// Type equality is transitive.
pub proof fn lemma_type_eq_trans(a: DataType, b: DataType, c: DataType)
    requires
        type_eq(a, b),
        type_eq(b, c),
    ensures
        type_eq(a, c),
    decreases a,
{
    match a {
        DataType::Array(t, _) => {
            if let DataType::Array(u, _) = b {
                if let DataType::Array(w, _) = c {
                    lemma_type_eq_trans(pointee(t), pointee(u), pointee(w));
                }
            }
        },
        DataType::Ptr(v) => {
            if let DataType::Ptr(w) = b {
                if let DataType::Ptr(x) = c {
                    lemma_type_eq_trans(pointee(v.inner), pointee(w.inner), pointee(x.inner));
                }
            }
        },
        DataType::Ref(v) => {
            if let DataType::Ref(w) = b {
                if let DataType::Ref(x) = c {
                    lemma_type_eq_trans(pointee(v.inner), pointee(w.inner), pointee(x.inner));
                }
            }
        },
        _ => {},
    }
}

/// The scalar type of a scalar, of a vector, or of what a reference refers to.
pub open spec fn spec_as_scalar(ty: DataType) -> Option<ScalarType>
    decreases ty,
{
    match ty {
        DataType::Scalar(t) => Some(t),
        DataType::Vector(_, t) => Some(t),
        DataType::Ref(view) => spec_as_scalar(*view.inner),
        _ => None,
    }
}

/// The type a reference refers to; any other type stands for itself.
pub open spec fn spec_dereference(ty: DataType) -> DataType {
    match ty {
        DataType::Ref(view) => *view.inner,
        _ => ty,
    }
}

/// A scalar or vector type with its components replaced by `scalar`.
pub open spec fn spec_map(ty: DataType, scalar: ScalarType) -> DataType {
    match ty {
        DataType::Vector(n, _) => DataType::Vector(n, scalar),
        _ => DataType::Scalar(scalar),
    }
}

impl DataType {
    /// Checks type equality, telling structure types apart by their names.
    pub fn eq_type(&self, other: &DataType) -> (r: bool)
        ensures
            r == type_eq(*self, *other),
        decreases self,
    {
        match self {
            DataType::Scalar(x) => match other {
                DataType::Scalar(y) => *x == *y,
                _ => false,
            },
            DataType::Vector(n, x) => match other {
                DataType::Vector(m, y) => *n == *m && *x == *y,
                _ => false,
            },
            DataType::Array(t, n) => match other {
                DataType::Array(u, m) => {
                    let same_len = match (n, m) {
                        (Some(a), Some(b)) => *a == *b,
                        (None, None) => true,
                        _ => false,
                    };
                    same_len && (**t).eq_type(&**u)
                },
                _ => false,
            },
            DataType::Struct(d) => match other {
                DataType::Struct(e) => d.name == e.name,
                _ => false,
            },
            DataType::Ptr(v) => match other {
                DataType::Ptr(w) => v.storage_class == w.storage_class && v.access_mode == w.access_mode
                    && (*v.inner).eq_type(&*w.inner),
                _ => false,
            },
            DataType::Ref(v) => match other {
                DataType::Ref(w) => v.storage_class == w.storage_class && v.access_mode == w.access_mode
                    && (*v.inner).eq_type(&*w.inner),
                _ => false,
            },
            DataType::Atomic(x) => match other {
                DataType::Atomic(y) => *x == *y,
                _ => false,
            },
            DataType::AtomicCompareExchangeResult(x) => match other {
                DataType::AtomicCompareExchangeResult(y) => *x == *y,
                _ => false,
            },
        }
    }

    /// An array of `element_type`, runtime-sized when `size` is `None`.
    pub fn array(element_type: DataType, size: Option<u32>) -> (r: DataType)
        ensures
            r == DataType::Array(Rc::new(element_type), size),
    {
        DataType::Array(Rc::new(element_type), size)
    }

    /// The scalar or vector type of the same shape with `scalar` components.
    pub fn map(&self, scalar: ScalarType) -> (r: DataType)
        requires
            self is Scalar || self is Vector,
        ensures
            r == spec_map(*self, scalar),
    {
        match self {
            DataType::Vector(n, _) => DataType::Vector(*n, scalar),
            _ => DataType::Scalar(scalar),
        }
    }

    pub fn as_scalar(&self) -> (r: Option<ScalarType>)
        ensures
            r == spec_as_scalar(*self),
        decreases self,
    {
        match self {
            DataType::Scalar(ty) => Some(*ty),
            DataType::Vector(_, ty) => Some(*ty),
            DataType::Ref(view) => (*view.inner).as_scalar(),
            _ => None,
        }
    }

    pub fn as_memory_view(&self) -> (r: Option<&MemoryViewType>)
        ensures
            match *self {
                DataType::Ptr(view) | DataType::Ref(view) => r == Some(&view),
                _ => r is None,
            },
    {
        match self {
            DataType::Ptr(view) => Some(view),
            DataType::Ref(view) => Some(view),
            _ => None,
        }
    }

    /// Returns the referenced type if `self` is a reference, otherwise returns `self`.
    ///
    /// Note that this will not dereference a pointer type (only a reference).
    pub fn dereference(&self) -> (r: &DataType)
        ensures
            *r == spec_dereference(*self),
    {
        match self {
            DataType::Ref(view) => &*view.inner,
            _ => self,
        }
    }

    /// Returns `true` if the data type is [`Scalar`].
    pub fn is_scalar(&self) -> (r: bool)
        ensures
            r == (self is Scalar),
    {
        match self {
            DataType::Scalar(_) => true,
            _ => false,
        }
    }

    /// Returns `true` if the data type is [`Vector`].
    pub fn is_vector(&self) -> (r: bool)
        ensures
            r == (self is Vector),
    {
        match self {
            DataType::Vector(..) => true,
            _ => false,
        }
    }

    /// Returns `true` if the data type is a scalar or vector of integers.
    pub fn is_integer(&self) -> (r: bool)
        ensures
            r == (spec_as_scalar(*self) == Some(ScalarType::I32) || spec_as_scalar(*self) == Some(
                ScalarType::U32,
            )),
    {
        match self.as_scalar() {
            Some(ScalarType::I32) => true,
            Some(ScalarType::U32) => true,
            _ => false,
        }
    }
}

} // verus!
