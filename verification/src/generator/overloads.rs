//! The table of builtin overloads the generator may call, as a sequence in the order
//! in which they are filed.
use crate::ast::builtins::{returns_first_param, spec_return_type, BuiltinFn};
use crate::ast::types::{spec_as_scalar, spec_default_access_mode, spec_map, DataType, MemoryViewType, ScalarType, StorageClass};
use std::rc::Rc;
use crate::generator::builtins::OverloadView;
use crate::generator::{scalar_and_vectors_of, spec_vectors_of, vectors_of};
use vstd::prelude::*;

verus! {

/// An overload as the table lists it: function, parameter types, return type.
pub type Entry = (BuiltinFn, Vec<DataType>, DataType);

/// The view of a listed overload.
pub open spec fn entry_view(e: Entry) -> OverloadView {
    (e.0, e.1@, e.2)
}

/// The views of listed overloads.
pub open spec fn entries_view(es: Seq<Entry>) -> Seq<OverloadView> {
    es.map_values(|e: Entry| entry_view(e))
}

fn push_entry(out: &mut Vec<Entry>, b: BuiltinFn, params: Vec<DataType>, ret: DataType)
    ensures
        entries_view(final(out)@) == entries_view(old(out)@).push((b, params@, ret)),
{
    let ghost p = params@;
    out.push((b, params, ret));
    assert(entries_view(out@) =~= entries_view(old(out)@).push((b, p, ret)));
}

fn one(a: &DataType) -> (r: Vec<DataType>)
    ensures
        r@ == seq![*a],
{
    let r = vec![a.clone()];
    assert(r@ =~= seq![*a]);
    r
}

fn two(a: &DataType, b: &DataType) -> (r: Vec<DataType>)
    ensures
        r@ == seq![*a, *b],
{
    let r = vec![a.clone(), b.clone()];
    assert(r@ =~= seq![*a, *b]);
    r
}

fn three(a: &DataType, b: &DataType, c: &DataType) -> (r: Vec<DataType>)
    ensures
        r@ == seq![*a, *b, *c],
{
    let r = vec![a.clone(), b.clone(), c.clone()];
    assert(r@ =~= seq![*a, *b, *c]);
    r
}

fn four(a: &DataType, b: &DataType, c: &DataType, d: &DataType) -> (r: Vec<DataType>)
    ensures
        r@ == seq![*a, *b, *c, *d],
{
    let r = vec![a.clone(), b.clone(), c.clone(), d.clone()];
    assert(r@ =~= seq![*a, *b, *c, *d]);
    r
}

/// A pointer into workgroup memory with the default access mode, to `inner`.
pub open spec fn is_workgroup_ptr_to(t: DataType, inner: DataType) -> bool {
    &&& t matches DataType::Ptr(view)
    &&& *view.inner == inner
    &&& view.storage_class == StorageClass::WorkGroup
    &&& view.access_mode == spec_default_access_mode(StorageClass::WorkGroup)
}

/// The pointer type into workgroup memory to `inner`.
pub open spec fn workgroup_ptr(inner: DataType) -> DataType {
    choose|t: DataType| is_workgroup_ptr_to(t, inner)
}

fn workgroup_ptr_exec(inner: DataType) -> (r: DataType)
    ensures
        r == workgroup_ptr(inner),
{
    let ghost want = inner;
    let r = DataType::Ptr(MemoryViewType::new(inner, StorageClass::WorkGroup));
    proof {
        assert(is_workgroup_ptr_to(r, want));
        let c = workgroup_ptr(want);
        assert(is_workgroup_ptr_to(c, want));
    }
    r
}

/// Overloads of each of `bs`, all with the parameter types `params` and the return
/// type `ret`.
pub open spec fn same_sig(bs: Seq<BuiltinFn>, params: Seq<DataType>, ret: DataType) -> Seq<OverloadView> {
    Seq::new(bs.len(), |i: int| (bs[i], params, ret))
}

/// Lists an overload of each of `bs` that takes `first` and, if given, `second`, and
/// returns `ret`.
fn push_same_sig(out: &mut Vec<Entry>, bs: &Vec<BuiltinFn>, first: &DataType, second: Option<&DataType>, ret: &DataType)
    ensures
        entries_view(final(out)@) == entries_view(old(out)@) + same_sig(
            bs@,
            match second {
                Some(b) => seq![*first, *b],
                None => seq![*first],
            },
            *ret,
        ),
{
    let ghost start = entries_view(out@);
    let ghost params = match second {
        Some(b) => seq![*first, *b],
        None => seq![*first],
    };
    let mut i: usize = 0;
    while i < bs.len()
        invariant
            i <= bs@.len(),
            params == match second {
                Some(b) => seq![*first, *b],
                None => seq![*first],
            },
            entries_view(out@) == start + same_sig(bs@.subrange(0, i as int), params, *ret),
        decreases bs.len() - i,
    {
        let ps = match second {
            Some(b) => two(first, b),
            None => one(first),
        };
        push_entry(out, bs[i], ps, ret.clone());
        assert(start + same_sig(bs@.subrange(0, i + 1), params, *ret) =~= (start + same_sig(
            bs@.subrange(0, i as int),
            params,
            *ret,
        )).push((bs@[i as int], params, *ret)));
        i = i + 1;
    }
    assert(bs@.subrange(0, bs@.len() as int) =~= bs@);
}

/// The bit-manipulating functions of one integer operand.
pub open spec fn bit_fns() -> Seq<BuiltinFn> {
    seq![
        BuiltinFn::CountOneBits,
        BuiltinFn::CountLeadingZeros,
        BuiltinFn::CountTrailingZeros,
        BuiltinFn::ReverseBits,
        BuiltinFn::FirstLeadingBit,
        BuiltinFn::FirstTrailingBit,
    ]
}

fn bit_fns_exec() -> (r: Vec<BuiltinFn>)
    ensures
        r@ == bit_fns(),
{
    let r = vec![
        BuiltinFn::CountOneBits,
        BuiltinFn::CountLeadingZeros,
        BuiltinFn::CountTrailingZeros,
        BuiltinFn::ReverseBits,
        BuiltinFn::FirstLeadingBit,
        BuiltinFn::FirstTrailingBit,
    ];
    assert(r@ =~= bit_fns());
    r
}

/// The float functions of one operand whose results are exact.
pub open spec fn float_fns() -> Seq<BuiltinFn> {
    seq![
        BuiltinFn::Ceil,
        BuiltinFn::Exp,
        BuiltinFn::Exp2,
        BuiltinFn::Floor,
        BuiltinFn::Fract,
        BuiltinFn::Round,
        BuiltinFn::Saturate,
        BuiltinFn::Sign,
        BuiltinFn::Trunc,
    ]
}

fn float_fns_exec() -> (r: Vec<BuiltinFn>)
    ensures
        r@ == float_fns(),
{
    let r = vec![
        BuiltinFn::Ceil,
        BuiltinFn::Exp,
        BuiltinFn::Exp2,
        BuiltinFn::Floor,
        BuiltinFn::Fract,
        BuiltinFn::Round,
        BuiltinFn::Saturate,
        BuiltinFn::Sign,
        BuiltinFn::Trunc,
    ];
    assert(r@ =~= float_fns());
    r
}

/// The float functions of one operand whose results may differ between platforms.
pub open spec fn unstable_float_fns() -> Seq<BuiltinFn> {
    seq![
        BuiltinFn::Acos,
        BuiltinFn::Acosh,
        BuiltinFn::Asin,
        BuiltinFn::Asinh,
        BuiltinFn::Atan,
        BuiltinFn::Atanh,
        BuiltinFn::Cos,
        BuiltinFn::Cosh,
        BuiltinFn::Degrees,
        BuiltinFn::InverseSqrt,
        BuiltinFn::Log,
        BuiltinFn::Log2,
        BuiltinFn::Radians,
        BuiltinFn::Sin,
        BuiltinFn::Sinh,
        BuiltinFn::Sqrt,
        BuiltinFn::Tan,
        BuiltinFn::Tanh,
    ]
}

fn unstable_float_fns_exec() -> (r: Vec<BuiltinFn>)
    ensures
        r@ == unstable_float_fns(),
{
    let r = vec![
        BuiltinFn::Acos,
        BuiltinFn::Acosh,
        BuiltinFn::Asin,
        BuiltinFn::Asinh,
        BuiltinFn::Atan,
        BuiltinFn::Atanh,
        BuiltinFn::Cos,
        BuiltinFn::Cosh,
        BuiltinFn::Degrees,
        BuiltinFn::InverseSqrt,
        BuiltinFn::Log,
        BuiltinFn::Log2,
        BuiltinFn::Radians,
        BuiltinFn::Sin,
        BuiltinFn::Sinh,
        BuiltinFn::Sqrt,
        BuiltinFn::Tan,
        BuiltinFn::Tanh,
    ];
    assert(r@ =~= unstable_float_fns());
    r
}

/// The atomic read-modify-write functions of a pointer and a value.
pub open spec fn atomic_ops() -> Seq<BuiltinFn> {
    seq![
        BuiltinFn::AtomicAdd,
        BuiltinFn::AtomicAnd,
        BuiltinFn::AtomicExchange,
        BuiltinFn::AtomicMax,
        BuiltinFn::AtomicMin,
        BuiltinFn::AtomicOr,
        BuiltinFn::AtomicSub,
        BuiltinFn::AtomicXor,
    ]
}

fn atomic_ops_exec() -> (r: Vec<BuiltinFn>)
    ensures
        r@ == atomic_ops(),
{
    let r = vec![
        BuiltinFn::AtomicAdd,
        BuiltinFn::AtomicAnd,
        BuiltinFn::AtomicExchange,
        BuiltinFn::AtomicMax,
        BuiltinFn::AtomicMin,
        BuiltinFn::AtomicOr,
        BuiltinFn::AtomicSub,
        BuiltinFn::AtomicXor,
    ];
    assert(r@ =~= atomic_ops());
    r
}

/// The arithmetic subgroup operations of one operand.
pub open spec fn subgroup_numeric_fns() -> Seq<BuiltinFn> {
    seq![
        BuiltinFn::SubgroupAdd,
        BuiltinFn::SubgroupExclusiveAdd,
        BuiltinFn::SubgroupInclusiveAdd,
        BuiltinFn::SubgroupMul,
        BuiltinFn::SubgroupExclusiveMul,
        BuiltinFn::SubgroupInclusiveMul,
        BuiltinFn::SubgroupMin,
        BuiltinFn::SubgroupMax,
    ]
}

fn subgroup_numeric_fns_exec() -> (r: Vec<BuiltinFn>)
    ensures
        r@ == subgroup_numeric_fns(),
{
    let r = vec![
        BuiltinFn::SubgroupAdd,
        BuiltinFn::SubgroupExclusiveAdd,
        BuiltinFn::SubgroupInclusiveAdd,
        BuiltinFn::SubgroupMul,
        BuiltinFn::SubgroupExclusiveMul,
        BuiltinFn::SubgroupInclusiveMul,
        BuiltinFn::SubgroupMin,
        BuiltinFn::SubgroupMax,
    ];
    assert(r@ =~= subgroup_numeric_fns());
    r
}

/// The bitwise subgroup operations of one operand.
pub open spec fn subgroup_bit_fns() -> Seq<BuiltinFn> {
    seq![BuiltinFn::SubgroupAnd, BuiltinFn::SubgroupOr, BuiltinFn::SubgroupXor]
}

fn subgroup_bit_fns_exec() -> (r: Vec<BuiltinFn>)
    ensures
        r@ == subgroup_bit_fns(),
{
    let r = vec![BuiltinFn::SubgroupAnd, BuiltinFn::SubgroupOr, BuiltinFn::SubgroupXor];
    assert(r@ =~= subgroup_bit_fns());
    r
}

/// A group of overloads that the table offers for each of several types.
#[derive(Clone, Copy, Debug, PartialEq, Eq, Structural)]
pub enum TypeGroup {
    /// `abs`, `clamp`, `max` and `min`.
    Numeric,
    /// `dot` of two vectors, returning their scalar type.
    Dot(ScalarType),
    /// `sign`.
    Sign,
    /// `all` and `any` of a boolean vector.
    AllAny,
    /// `select` with a scalar condition.
    Select,
    /// The bit-manipulating functions, `extractBits` and `insertBits`.
    Bits,
    /// The component-wise float functions of a float type; the unstable ones only if
    /// the flag is set.
    Float(ScalarType, bool),
    /// The float functions defined on vectors only.
    FloatVector(ScalarType),
    /// The arithmetic subgroup operations, broadcast and shuffle.
    SubgroupNumeric,
    /// The bitwise subgroup operations.
    SubgroupBits,
}

/// The overloads of a group for one type `ty`, in the order they are filed.
pub open spec fn type_group(g: TypeGroup, ty: DataType) -> Seq<OverloadView> {
    let b = DataType::Scalar(ScalarType::Bool);
    let u = DataType::Scalar(ScalarType::U32);
    match g {
        TypeGroup::Numeric => seq![
            (BuiltinFn::Abs, seq![ty], ty),
            (BuiltinFn::Clamp, seq![ty, ty, ty], ty),
            (BuiltinFn::Max, seq![ty, ty], ty),
            (BuiltinFn::Min, seq![ty, ty], ty),
        ],
        TypeGroup::Dot(s) => seq![(BuiltinFn::Dot, seq![ty, ty], DataType::Scalar(s))],
        TypeGroup::Sign => seq![(BuiltinFn::Sign, seq![ty], ty)],
        TypeGroup::AllAny => seq![(BuiltinFn::All, seq![ty], b), (BuiltinFn::Any, seq![ty], b)],
        TypeGroup::Select => seq![(BuiltinFn::Select, seq![ty, ty, b], ty)],
        TypeGroup::Bits => same_sig(bit_fns(), seq![ty], ty) + seq![
            (BuiltinFn::ExtractBits, seq![ty, u, u], ty),
            (BuiltinFn::InsertBits, seq![ty, ty, u, u], ty),
        ],
        TypeGroup::Float(s, unstable) => same_sig(float_fns(), seq![ty], ty) + (if unstable {
            same_sig(unstable_float_fns(), seq![ty], ty) + if s == ScalarType::F32 {
                seq![(BuiltinFn::QuantizeToF16, seq![ty], ty)]
            } else {
                Seq::empty()
            }
        } else {
            Seq::empty()
        }) + seq![(BuiltinFn::Step, seq![ty, ty], ty)] + if unstable {
            seq![
                (BuiltinFn::Pow, seq![ty, ty], ty),
                (BuiltinFn::Atan2, seq![ty, ty], ty),
                (BuiltinFn::Fma, seq![ty, ty, ty], ty),
                (BuiltinFn::Mix, seq![ty, ty, ty], ty),
                (BuiltinFn::Smoothstep, seq![ty, ty, ty], ty),
                (BuiltinFn::Distance, seq![ty, ty], DataType::Scalar(s)),
                (BuiltinFn::Ldexp, seq![ty, spec_map(ty, ScalarType::I32)], ty),
                (BuiltinFn::Length, seq![ty], DataType::Scalar(s)),
            ]
        } else {
            Seq::empty()
        },
        TypeGroup::FloatVector(s) => seq![
            (BuiltinFn::Normalize, seq![ty], ty),
            (BuiltinFn::FaceForward, seq![ty, ty, ty], ty),
            (BuiltinFn::Reflect, seq![ty, ty], ty),
            (BuiltinFn::Refract, seq![ty, ty, DataType::Scalar(s)], ty),
        ],
        TypeGroup::SubgroupNumeric => same_sig(subgroup_numeric_fns(), seq![ty], ty) + seq![
            (BuiltinFn::SubgroupBroadcastFirst, seq![ty], ty),
            (BuiltinFn::SubgroupShuffle, seq![ty, u], ty),
        ],
        TypeGroup::SubgroupBits => same_sig(subgroup_bit_fns(), seq![ty], ty),
    }
}

/// Lists the float functions of one float type or vector type.
#[verifier::spinoff_prover]
fn push_float_group(out: &mut Vec<Entry>, s: ScalarType, unstable: bool, ty: &DataType)
    requires
        ty is Scalar || ty is Vector,
    ensures
        entries_view(final(out)@) == entries_view(old(out)@) + type_group(TypeGroup::Float(s, unstable), *ty),
{
    let ghost start = entries_view(out@);
    push_same_sig(out, &float_fns_exec(), ty, None, ty);
    let ghost mid = entries_view(out@);
    if unstable {
        push_same_sig(out, &unstable_float_fns_exec(), ty, None, ty);
        if s == ScalarType::F32 {
            push_entry(out, BuiltinFn::QuantizeToF16, one(ty), ty.clone());
        }
    }
    let ghost mid2 = entries_view(out@);
    push_entry(out, BuiltinFn::Step, two(ty, ty), ty.clone());
    let ghost mid3 = entries_view(out@);
    if unstable {
        push_entry(out, BuiltinFn::Pow, two(ty, ty), ty.clone());
        push_entry(out, BuiltinFn::Atan2, two(ty, ty), ty.clone());
        push_entry(out, BuiltinFn::Fma, three(ty, ty, ty), ty.clone());
        push_entry(out, BuiltinFn::Mix, three(ty, ty, ty), ty.clone());
        push_entry(out, BuiltinFn::Smoothstep, three(ty, ty, ty), ty.clone());
        push_entry(out, BuiltinFn::Distance, two(ty, ty), DataType::Scalar(s));
        let ints = ty.map(ScalarType::I32);
        push_entry(out, BuiltinFn::Ldexp, two(ty, &ints), ty.clone());
        push_entry(out, BuiltinFn::Length, one(ty), DataType::Scalar(s));
    }
    proof {
        let uf_part: Seq<OverloadView> = if unstable {
            same_sig(unstable_float_fns(), seq![*ty], *ty) + if s == ScalarType::F32 {
                seq![(BuiltinFn::QuantizeToF16, seq![*ty], *ty)]
            } else {
                Seq::empty()
            }
        } else {
            Seq::empty()
        };
        assert(mid2 =~= mid + uf_part);
        let tail: Seq<OverloadView> = if unstable {
            seq![
                (BuiltinFn::Pow, seq![*ty, *ty], *ty),
                (BuiltinFn::Atan2, seq![*ty, *ty], *ty),
                (BuiltinFn::Fma, seq![*ty, *ty, *ty], *ty),
                (BuiltinFn::Mix, seq![*ty, *ty, *ty], *ty),
                (BuiltinFn::Smoothstep, seq![*ty, *ty, *ty], *ty),
                (BuiltinFn::Distance, seq![*ty, *ty], DataType::Scalar(s)),
                (BuiltinFn::Ldexp, seq![*ty, spec_map(*ty, ScalarType::I32)], *ty),
                (BuiltinFn::Length, seq![*ty], DataType::Scalar(s)),
            ]
        } else {
            Seq::empty()
        };
        assert(entries_view(out@) =~= mid3 + tail);
    }
    assert(entries_view(out@) =~= start + type_group(TypeGroup::Float(s, unstable), *ty));
}

/// Lists the overloads of a group for one type.
#[verifier::spinoff_prover]
fn push_type_group(out: &mut Vec<Entry>, g: TypeGroup, ty: &DataType)
    requires
        ty is Scalar || ty is Vector,
    ensures
        entries_view(final(out)@) == entries_view(old(out)@) + type_group(g, *ty),
{
    let ghost start = entries_view(out@);
    let b = DataType::Scalar(ScalarType::Bool);
    let u = DataType::Scalar(ScalarType::U32);
    match g {
        TypeGroup::Numeric => {
            push_entry(out, BuiltinFn::Abs, one(ty), ty.clone());
            push_entry(out, BuiltinFn::Clamp, three(ty, ty, ty), ty.clone());
            push_entry(out, BuiltinFn::Max, two(ty, ty), ty.clone());
            push_entry(out, BuiltinFn::Min, two(ty, ty), ty.clone());
        },
        TypeGroup::Dot(s) => {
            push_entry(out, BuiltinFn::Dot, two(ty, ty), DataType::Scalar(s));
        },
        TypeGroup::Sign => {
            push_entry(out, BuiltinFn::Sign, one(ty), ty.clone());
        },
        TypeGroup::AllAny => {
            push_entry(out, BuiltinFn::All, one(ty), b.clone());
            push_entry(out, BuiltinFn::Any, one(ty), b);
        },
        TypeGroup::Select => {
            push_entry(out, BuiltinFn::Select, three(ty, ty, &b), ty.clone());
        },
        TypeGroup::Bits => {
            push_same_sig(out, &bit_fns_exec(), ty, None, ty);
            push_entry(out, BuiltinFn::ExtractBits, three(ty, &u, &u), ty.clone());
            push_entry(out, BuiltinFn::InsertBits, four(ty, ty, &u, &u), ty.clone());
        },
        TypeGroup::Float(s, unstable) => {
            push_float_group(out, s, unstable, ty);
        },
        TypeGroup::FloatVector(s) => {
            push_entry(out, BuiltinFn::Normalize, one(ty), ty.clone());
            push_entry(out, BuiltinFn::FaceForward, three(ty, ty, ty), ty.clone());
            push_entry(out, BuiltinFn::Reflect, two(ty, ty), ty.clone());
            push_entry(out, BuiltinFn::Refract, three(ty, ty, &DataType::Scalar(s)), ty.clone());
        },
        TypeGroup::SubgroupNumeric => {
            push_same_sig(out, &subgroup_numeric_fns_exec(), ty, None, ty);
            push_entry(out, BuiltinFn::SubgroupBroadcastFirst, one(ty), ty.clone());
            push_entry(out, BuiltinFn::SubgroupShuffle, two(ty, &u), ty.clone());
        },
        TypeGroup::SubgroupBits => {
            push_same_sig(out, &subgroup_bit_fns_exec(), ty, None, ty);
        },
    }
    assert(entries_view(out@) =~= start + type_group(g, *ty));
}

/// The overloads of a group for each of `tys` in turn.
pub open spec fn per_type(g: TypeGroup, tys: Seq<DataType>) -> Seq<OverloadView>
    decreases tys.len(),
{
    if tys.len() == 0 {
        Seq::empty()
    } else {
        per_type(g, tys.drop_last()) + type_group(g, tys.last())
    }
}

/// Lists the overloads of a group for each of `tys` in turn.
fn push_per_type(out: &mut Vec<Entry>, g: TypeGroup, tys: &Vec<DataType>)
    requires
        forall|i: int| 0 <= i < tys@.len() ==> (#[trigger] tys@[i] is Scalar || tys@[i] is Vector),
    ensures
        entries_view(final(out)@) == entries_view(old(out)@) + per_type(g, tys@),
{
    let ghost start = entries_view(out@);
    let mut i: usize = 0;
    while i < tys.len()
        invariant
            i <= tys@.len(),
            forall|j: int| 0 <= j < tys@.len() ==> (#[trigger] tys@[j] is Scalar || tys@[j] is Vector),
            entries_view(out@) == start + per_type(g, tys@.subrange(0, i as int)),
        decreases tys.len() - i,
    {
        let ghost before = entries_view(out@);
        push_type_group(out, g, &tys[i]);
        proof {
            assert(tys@.subrange(0, i + 1).drop_last() =~= tys@.subrange(0, i as int));
            assert(entries_view(out@) =~= start + per_type(g, tys@.subrange(0, i + 1)));
        }
        i = i + 1;
    }
    assert(tys@.subrange(0, tys@.len() as int) =~= tys@);
}

/// A scalar type and its vector types.
pub open spec fn scalar_and_vectors(s: ScalarType) -> Seq<DataType> {
    seq![DataType::Scalar(s)] + spec_vectors_of(s)
}

/// A group of overloads that the table offers for each of several scalar types.
#[derive(Clone, Copy, Debug, PartialEq, Eq, Structural)]
pub enum ScalarGroup {
    /// The numeric functions and `dot`.
    Numeric,
    /// `select`, with a scalar or a vector condition.
    Select,
    /// The atomic and the bit-manipulating functions.
    Integer,
    /// The float functions; the unstable ones only if the flag is set.
    Float(bool),
    /// The arithmetic subgroup operations and the uniform load of a scalar.
    SubgroupNumeric,
    /// The bitwise subgroup operations and the uniform load of an atomic.
    SubgroupBits,
}

/// `select` of two vectors of `n` components of `s` by a boolean vector.
pub open spec fn select_vector(n: u8, s: ScalarType) -> OverloadView {
    (
        BuiltinFn::Select,
        seq![DataType::Vector(n, s), DataType::Vector(n, s), DataType::Vector(n, ScalarType::Bool)],
        DataType::Vector(n, s),
    )
}

/// The overloads of a group for one scalar type `s`, in the order they are filed.
pub open spec fn scalar_group(g: ScalarGroup, s: ScalarType) -> Seq<OverloadView> {
    let sc = DataType::Scalar(s);
    match g {
        ScalarGroup::Numeric => per_type(TypeGroup::Numeric, scalar_and_vectors(s)) + per_type(
            TypeGroup::Dot(s),
            spec_vectors_of(s),
        ),
        ScalarGroup::Select => per_type(TypeGroup::Select, scalar_and_vectors(s)) + seq![
            select_vector(2, s),
            select_vector(3, s),
            select_vector(4, s),
        ],
        ScalarGroup::Integer => {
            let ptr = workgroup_ptr(DataType::Atomic(s));
            same_sig(atomic_ops(), seq![ptr, sc], sc) + seq![
                (BuiltinFn::AtomicLoad, seq![ptr], sc),
                (BuiltinFn::AtomicCompareExchangeWeak, seq![ptr, sc, sc], DataType::AtomicCompareExchangeResult(s)),
            ] + per_type(TypeGroup::Bits, scalar_and_vectors(s))
        },
        ScalarGroup::Float(unstable) => per_type(TypeGroup::Float(s, unstable), scalar_and_vectors(s)) + if unstable {
            let v3 = DataType::Vector(3, s);
            seq![(BuiltinFn::Cross, seq![v3, v3], v3)] + per_type(TypeGroup::FloatVector(s), spec_vectors_of(s))
        } else {
            Seq::empty()
        },
        ScalarGroup::SubgroupNumeric => per_type(TypeGroup::SubgroupNumeric, scalar_and_vectors(s)) + seq![
            (BuiltinFn::WorkgroupUniformLoad, seq![workgroup_ptr(sc)], sc),
        ],
        ScalarGroup::SubgroupBits => per_type(TypeGroup::SubgroupBits, scalar_and_vectors(s)) + seq![
            (BuiltinFn::WorkgroupUniformLoad, seq![workgroup_ptr(DataType::Atomic(s))], sc),
        ],
    }
}

/// Lists the overloads of a group for one scalar type.
fn push_scalar_group(out: &mut Vec<Entry>, g: ScalarGroup, s: ScalarType)
    ensures
        entries_view(final(out)@) == entries_view(old(out)@) + scalar_group(g, s),
{
    let ghost start = entries_view(out@);
    let sc = DataType::Scalar(s);
    let tys = scalar_and_vectors_of(s);
    let vecs = vectors_of(s);
    assert(tys@ == scalar_and_vectors(s));
    assert(forall|i: int| 0 <= i < tys@.len() ==> (#[trigger] tys@[i] is Scalar || tys@[i] is Vector));
    assert(forall|i: int| 0 <= i < vecs@.len() ==> (#[trigger] vecs@[i] is Scalar || vecs@[i] is Vector));
    match g {
        ScalarGroup::Numeric => {
            push_per_type(out, TypeGroup::Numeric, &tys);
            push_per_type(out, TypeGroup::Dot(s), &vecs);
        },
        ScalarGroup::Select => {
            push_per_type(out, TypeGroup::Select, &tys);
            let ghost mid = entries_view(out@);
            let ghost sel = seq![select_vector(2, s), select_vector(3, s), select_vector(4, s)];
            let mut n: u8 = 2;
            while n <= 4
                invariant
                    2 <= n <= 5,
                    sel == seq![select_vector(2, s), select_vector(3, s), select_vector(4, s)],
                    entries_view(out@) == mid + sel.subrange(0, n - 2),
                decreases 5 - n,
            {
                let v = DataType::Vector(n, s);
                let vb = DataType::Vector(n, ScalarType::Bool);
                push_entry(out, BuiltinFn::Select, three(&v, &v, &vb), v.clone());
                assert(mid + sel.subrange(0, n - 1) =~= (mid + sel.subrange(0, n - 2)).push(select_vector(n, s)));
                n = n + 1;
            }
            assert(sel.subrange(0, 3) =~= sel);
        },
        ScalarGroup::Integer => {
            let ptr = workgroup_ptr_exec(DataType::Atomic(s));
            push_same_sig(out, &atomic_ops_exec(), &ptr, Some(&sc), &sc);
            push_entry(out, BuiltinFn::AtomicLoad, one(&ptr), sc.clone());
            push_entry(out, BuiltinFn::AtomicCompareExchangeWeak, three(&ptr, &sc, &sc), DataType::AtomicCompareExchangeResult(s));
            push_per_type(out, TypeGroup::Bits, &tys);
        },
        ScalarGroup::Float(unstable) => {
            push_per_type(out, TypeGroup::Float(s, unstable), &tys);
            let ghost mid = entries_view(out@);
            if unstable {
                let v3 = DataType::Vector(3, s);
                push_entry(out, BuiltinFn::Cross, two(&v3, &v3), v3.clone());
                push_per_type(out, TypeGroup::FloatVector(s), &vecs);
            }
            proof {
                let rest: Seq<OverloadView> = if unstable {
                    let v3 = DataType::Vector(3, s);
                    seq![(BuiltinFn::Cross, seq![v3, v3], v3)] + per_type(TypeGroup::FloatVector(s), spec_vectors_of(s))
                } else {
                    Seq::empty()
                };
                assert(entries_view(out@) =~= mid + rest);
            }
        },
        ScalarGroup::SubgroupNumeric => {
            push_per_type(out, TypeGroup::SubgroupNumeric, &tys);
            let ptr = workgroup_ptr_exec(sc.clone());
            push_entry(out, BuiltinFn::WorkgroupUniformLoad, one(&ptr), sc);
        },
        ScalarGroup::SubgroupBits => {
            push_per_type(out, TypeGroup::SubgroupBits, &tys);
            let ptr = workgroup_ptr_exec(DataType::Atomic(s));
            push_entry(out, BuiltinFn::WorkgroupUniformLoad, one(&ptr), sc);
        },
    }
    assert(entries_view(out@) =~= start + scalar_group(g, s));
}

/// The overloads of a group for each of `ss` in turn.
pub open spec fn per_scalar(g: ScalarGroup, ss: Seq<ScalarType>) -> Seq<OverloadView>
    decreases ss.len(),
{
    if ss.len() == 0 {
        Seq::empty()
    } else {
        per_scalar(g, ss.drop_last()) + scalar_group(g, ss.last())
    }
}

/// Lists the overloads of a group for each of `ss` in turn.
fn push_per_scalar(out: &mut Vec<Entry>, g: ScalarGroup, ss: &Vec<ScalarType>)
    ensures
        entries_view(final(out)@) == entries_view(old(out)@) + per_scalar(g, ss@),
{
    let ghost start = entries_view(out@);
    let mut i: usize = 0;
    while i < ss.len()
        invariant
            i <= ss@.len(),
            entries_view(out@) == start + per_scalar(g, ss@.subrange(0, i as int)),
        decreases ss.len() - i,
    {
        push_scalar_group(out, g, ss[i]);
        proof {
            assert(ss@.subrange(0, i + 1).drop_last() =~= ss@.subrange(0, i as int));
            assert(entries_view(out@) =~= start + per_scalar(g, ss@.subrange(0, i + 1)));
        }
        i = i + 1;
    }
    assert(ss@.subrange(0, ss@.len() as int) =~= ss@);
}

/// Every builtin overload the generator may call, in the order in which they are
/// filed: the numeric functions, `sign` of integers, `all` and `any`, `select`, the
/// atomic and bit functions of integers, the float functions (the unstable ones if
/// `unstable_float`), and the subgroup operations and uniform loads if `collectives`.
pub open spec fn builtin_table(unstable_float: bool, collectives: bool) -> Seq<OverloadView> {
    let b = DataType::Scalar(ScalarType::Bool);
    per_scalar(ScalarGroup::Numeric, seq![ScalarType::I32, ScalarType::U32, ScalarType::F32])
        + per_type(TypeGroup::Sign, scalar_and_vectors(ScalarType::I32))
        + per_type(TypeGroup::AllAny, spec_vectors_of(ScalarType::Bool))
        + per_scalar(ScalarGroup::Select, seq![ScalarType::Bool, ScalarType::I32, ScalarType::U32, ScalarType::F32])
        + per_scalar(ScalarGroup::Integer, seq![ScalarType::I32, ScalarType::U32])
        + per_scalar(ScalarGroup::Float(unstable_float), seq![ScalarType::F32])
        + if collectives {
        per_scalar(ScalarGroup::SubgroupNumeric, seq![ScalarType::I32, ScalarType::U32, ScalarType::F32])
            + per_scalar(ScalarGroup::SubgroupBits, seq![ScalarType::I32, ScalarType::U32]) + seq![
            (BuiltinFn::SubgroupAll, seq![b], b),
            (BuiltinFn::SubgroupAny, seq![b], b),
            (BuiltinFn::SubgroupBallot, seq![b], DataType::Vector(4, ScalarType::U32)),
            (BuiltinFn::WorkgroupUniformLoad, seq![workgroup_ptr(b)], b),
        ]
    } else {
        Seq::empty()
    }
}

/// Lists every builtin overload the generator may call, in the order of
/// `builtin_table`.
pub fn builtin_entries(unstable_float: bool, collectives: bool) -> (r: Vec<Entry>)
    ensures
        entries_view(r@) == builtin_table(unstable_float, collectives),
{
    let numeric = vec![ScalarType::I32, ScalarType::U32, ScalarType::F32];
    let all = vec![ScalarType::Bool, ScalarType::I32, ScalarType::U32, ScalarType::F32];
    let ints = vec![ScalarType::I32, ScalarType::U32];
    let floats = vec![ScalarType::F32];
    assert(numeric@ =~= seq![ScalarType::I32, ScalarType::U32, ScalarType::F32]);
    assert(all@ =~= seq![ScalarType::Bool, ScalarType::I32, ScalarType::U32, ScalarType::F32]);
    assert(ints@ =~= seq![ScalarType::I32, ScalarType::U32]);
    assert(floats@ =~= seq![ScalarType::F32]);
    let mut out: Vec<Entry> = Vec::new();
    assert(entries_view(out@) =~= Seq::<OverloadView>::empty());
    push_per_scalar(&mut out, ScalarGroup::Numeric, &numeric);
    let signed = scalar_and_vectors_of(ScalarType::I32);
    assert(forall|i: int| 0 <= i < signed@.len() ==> (#[trigger] signed@[i] is Scalar || signed@[i] is Vector));
    push_per_type(&mut out, TypeGroup::Sign, &signed);
    let bools = vectors_of(ScalarType::Bool);
    assert(forall|i: int| 0 <= i < bools@.len() ==> (#[trigger] bools@[i] is Scalar || bools@[i] is Vector));
    push_per_type(&mut out, TypeGroup::AllAny, &bools);
    push_per_scalar(&mut out, ScalarGroup::Select, &all);
    push_per_scalar(&mut out, ScalarGroup::Integer, &ints);
    push_per_scalar(&mut out, ScalarGroup::Float(unstable_float), &floats);
    let ghost mid = entries_view(out@);
    if collectives {
        push_per_scalar(&mut out, ScalarGroup::SubgroupNumeric, &numeric);
        push_per_scalar(&mut out, ScalarGroup::SubgroupBits, &ints);
        let b = DataType::Scalar(ScalarType::Bool);
        push_entry(&mut out, BuiltinFn::SubgroupAll, one(&b), b.clone());
        push_entry(&mut out, BuiltinFn::SubgroupAny, one(&b), b.clone());
        push_entry(&mut out, BuiltinFn::SubgroupBallot, one(&b), DataType::Vector(4, ScalarType::U32));
        let ptr = workgroup_ptr_exec(b.clone());
        push_entry(&mut out, BuiltinFn::WorkgroupUniformLoad, one(&ptr), b);
    }
    proof {
        let b = DataType::Scalar(ScalarType::Bool);
        let rest: Seq<OverloadView> = if collectives {
            per_scalar(ScalarGroup::SubgroupNumeric, seq![ScalarType::I32, ScalarType::U32, ScalarType::F32])
                + per_scalar(ScalarGroup::SubgroupBits, seq![ScalarType::I32, ScalarType::U32]) + seq![
                (BuiltinFn::SubgroupAll, seq![b], b),
                (BuiltinFn::SubgroupAny, seq![b], b),
                (BuiltinFn::SubgroupBallot, seq![b], DataType::Vector(4, ScalarType::U32)),
                (BuiltinFn::WorkgroupUniformLoad, seq![workgroup_ptr(b)], b),
            ]
        } else {
            Seq::empty()
        };
        assert(entries_view(out@) =~= mid + rest);
        assert(entries_view(out@) =~= builtin_table(unstable_float, collectives));
    }
    out
}

/// The return type the overload gives is what the builtin typing rule assigns to a
/// call of its function with its parameter types.
pub open spec fn well_typed(o: OverloadView) -> bool {
    spec_return_type(o.0, o.1) == Some(o.2)
}

/// Every overload in `os` is well typed.
pub open spec fn all_well_typed(os: Seq<OverloadView>) -> bool {
    forall|i: int| 0 <= i < os.len() ==> #[trigger] well_typed(os[i])
}

proof fn lemma_concat_well_typed(a: Seq<OverloadView>, b: Seq<OverloadView>)
    requires
        all_well_typed(a),
        all_well_typed(b),
    ensures
        all_well_typed(a + b),
{
    assert forall|i: int| 0 <= i < (a + b).len() implies #[trigger] well_typed((a + b)[i]) by {
        if i < a.len() {
            assert((a + b)[i] == a[i]);
        } else {
            assert((a + b)[i] == b[i - a.len()]);
        }
    }
}

/// Functions of which a call returns the type of its first argument.
proof fn lemma_same_sig_well_typed(bs: Seq<BuiltinFn>, ty: DataType, rest: Seq<DataType>)
    requires
        ty is Scalar || ty is Vector,
        forall|i: int| 0 <= i < bs.len() ==> returns_first_param(#[trigger] bs[i]),
    ensures
        all_well_typed(same_sig(bs, seq![ty] + rest, ty)),
{
    assert forall|i: int| 0 <= i < same_sig(bs, seq![ty] + rest, ty).len() implies #[trigger] well_typed(
        same_sig(bs, seq![ty] + rest, ty)[i],
    ) by {
        assert((seq![ty] + rest)[0] == ty);
        assert(returns_first_param(bs[i]));
    }
}

proof fn lemma_lists_return_first_param()
    ensures
        forall|i: int| 0 <= i < bit_fns().len() ==> returns_first_param(#[trigger] bit_fns()[i]),
        forall|i: int| 0 <= i < float_fns().len() ==> returns_first_param(#[trigger] float_fns()[i]),
        forall|i: int| 0 <= i < unstable_float_fns().len() ==> returns_first_param(#[trigger] unstable_float_fns()[i]),
        forall|i: int| 0 <= i < subgroup_numeric_fns().len() ==> returns_first_param(
            #[trigger] subgroup_numeric_fns()[i],
        ),
        forall|i: int| 0 <= i < subgroup_bit_fns().len() ==> returns_first_param(#[trigger] subgroup_bit_fns()[i]),
{
    assert forall|i: int| 0 <= i < bit_fns().len() implies returns_first_param(#[trigger] bit_fns()[i]) by {
        assert(0 <= i < 6);
    }
    assert forall|i: int| 0 <= i < float_fns().len() implies returns_first_param(#[trigger] float_fns()[i]) by {
        assert(0 <= i < 9);
    }
    assert forall|i: int| 0 <= i < unstable_float_fns().len() implies returns_first_param(
        #[trigger] unstable_float_fns()[i],
    ) by {
        assert(0 <= i < 18);
    }
    assert forall|i: int| 0 <= i < subgroup_numeric_fns().len() implies returns_first_param(
        #[trigger] subgroup_numeric_fns()[i],
    ) by {
        assert(0 <= i < 8);
    }
    assert forall|i: int| 0 <= i < subgroup_bit_fns().len() implies returns_first_param(
        #[trigger] subgroup_bit_fns()[i],
    ) by {
        assert(0 <= i < 3);
    }
}

/// `ty` suits group `g`: it is a scalar or a vector, and of the scalar type the group
/// returns where it returns one.
pub open spec fn suits(g: TypeGroup, ty: DataType) -> bool {
    &&& ty is Scalar || ty is Vector
    &&& match g {
        TypeGroup::Dot(s) | TypeGroup::Float(s, _) => spec_as_scalar(ty) == Some(s),
        _ => true,
    }
}

proof fn lemma_type_group_well_typed(g: TypeGroup, ty: DataType)
    requires
        suits(g, ty),
    ensures
        all_well_typed(type_group(g, ty)),
{
    lemma_lists_return_first_param();
    let u = DataType::Scalar(ScalarType::U32);
    match g {
        TypeGroup::Bits => {
            lemma_same_sig_well_typed(bit_fns(), ty, Seq::empty());
            assert(seq![ty] + Seq::<DataType>::empty() =~= seq![ty]);
            lemma_concat_well_typed(
                same_sig(bit_fns(), seq![ty], ty),
                seq![(BuiltinFn::ExtractBits, seq![ty, u, u], ty), (BuiltinFn::InsertBits, seq![ty, ty, u, u], ty)],
            );
        },
        TypeGroup::Float(s, unstable) => {
            assert(seq![ty] + Seq::<DataType>::empty() =~= seq![ty]);
            lemma_same_sig_well_typed(float_fns(), ty, Seq::empty());
            lemma_same_sig_well_typed(unstable_float_fns(), ty, Seq::empty());
            let q: Seq<OverloadView> = if s == ScalarType::F32 {
                seq![(BuiltinFn::QuantizeToF16, seq![ty], ty)]
            } else {
                Seq::empty()
            };
            lemma_concat_well_typed(same_sig(unstable_float_fns(), seq![ty], ty), q);
            let a: Seq<OverloadView> = if unstable {
                same_sig(unstable_float_fns(), seq![ty], ty) + q
            } else {
                Seq::empty()
            };
            let b: Seq<OverloadView> = if unstable {
                seq![
                    (BuiltinFn::Pow, seq![ty, ty], ty),
                    (BuiltinFn::Atan2, seq![ty, ty], ty),
                    (BuiltinFn::Fma, seq![ty, ty, ty], ty),
                    (BuiltinFn::Mix, seq![ty, ty, ty], ty),
                    (BuiltinFn::Smoothstep, seq![ty, ty, ty], ty),
                    (BuiltinFn::Distance, seq![ty, ty], DataType::Scalar(s)),
                    (BuiltinFn::Ldexp, seq![ty, spec_map(ty, ScalarType::I32)], ty),
                    (BuiltinFn::Length, seq![ty], DataType::Scalar(s)),
                ]
            } else {
                Seq::empty()
            };
            assert(all_well_typed(b)) by {
                if unstable {
                    assert forall|i: int| 0 <= i < b.len() implies #[trigger] well_typed(b[i]) by {
                        assert(0 <= i < 8);
                    }
                }
            }
            lemma_concat_well_typed(same_sig(float_fns(), seq![ty], ty), a);
            lemma_concat_well_typed(same_sig(float_fns(), seq![ty], ty) + a, seq![(BuiltinFn::Step, seq![ty, ty], ty)]);
            lemma_concat_well_typed(same_sig(float_fns(), seq![ty], ty) + a + seq![(BuiltinFn::Step, seq![ty, ty], ty)], b);
        },
        TypeGroup::SubgroupNumeric => {
            assert(seq![ty] + Seq::<DataType>::empty() =~= seq![ty]);
            lemma_same_sig_well_typed(subgroup_numeric_fns(), ty, Seq::empty());
            lemma_concat_well_typed(
                same_sig(subgroup_numeric_fns(), seq![ty], ty),
                seq![(BuiltinFn::SubgroupBroadcastFirst, seq![ty], ty), (BuiltinFn::SubgroupShuffle, seq![ty, u], ty)],
            );
        },
        TypeGroup::SubgroupBits => {
            assert(seq![ty] + Seq::<DataType>::empty() =~= seq![ty]);
            lemma_same_sig_well_typed(subgroup_bit_fns(), ty, Seq::empty());
        },
        _ => {
            assert forall|i: int| 0 <= i < type_group(g, ty).len() implies #[trigger] well_typed(type_group(g, ty)[i]) by {
                assert(0 <= i < 4);
            }
        },
    }
}

proof fn lemma_per_type_well_typed(g: TypeGroup, tys: Seq<DataType>)
    requires
        forall|i: int| 0 <= i < tys.len() ==> suits(g, #[trigger] tys[i]),
    ensures
        all_well_typed(per_type(g, tys)),
    decreases tys.len(),
{
    if tys.len() > 0 {
        lemma_per_type_well_typed(g, tys.drop_last());
        lemma_type_group_well_typed(g, tys.last());
        lemma_concat_well_typed(per_type(g, tys.drop_last()), type_group(g, tys.last()));
    }
}

proof fn lemma_workgroup_ptr(inner: DataType)
    ensures
        is_workgroup_ptr_to(workgroup_ptr(inner), inner),
{
    let w = DataType::Ptr(
        MemoryViewType {
            inner: Rc::new(inner),
            storage_class: StorageClass::WorkGroup,
            access_mode: spec_default_access_mode(StorageClass::WorkGroup),
        },
    );
    assert(is_workgroup_ptr_to(w, inner));
}

proof fn lemma_scalar_group_well_typed(g: ScalarGroup, s: ScalarType)
    ensures
        all_well_typed(scalar_group(g, s)),
{
    let sv = scalar_and_vectors(s);
    let vs = spec_vectors_of(s);
    let sc = DataType::Scalar(s);
    match g {
        ScalarGroup::Numeric => {
            lemma_per_type_well_typed(TypeGroup::Numeric, sv);
            lemma_per_type_well_typed(TypeGroup::Dot(s), vs);
            lemma_concat_well_typed(per_type(TypeGroup::Numeric, sv), per_type(TypeGroup::Dot(s), vs));
        },
        ScalarGroup::Select => {
            lemma_per_type_well_typed(TypeGroup::Select, sv);
            let tail = seq![select_vector(2, s), select_vector(3, s), select_vector(4, s)];
            assert(all_well_typed(tail)) by {
                assert forall|i: int| 0 <= i < tail.len() implies #[trigger] well_typed(tail[i]) by {
                    assert(0 <= i < 3);
                }
            }
            lemma_concat_well_typed(per_type(TypeGroup::Select, sv), tail);
        },
        ScalarGroup::Integer => {
            let ptr = workgroup_ptr(DataType::Atomic(s));
            lemma_workgroup_ptr(DataType::Atomic(s));
            let rmw = same_sig(atomic_ops(), seq![ptr, sc], sc);
            assert(all_well_typed(rmw)) by {
                assert forall|i: int| 0 <= i < rmw.len() implies #[trigger] well_typed(rmw[i]) by {
                    assert(0 <= i < 8);
                }
            }
            let rest = seq![
                (BuiltinFn::AtomicLoad, seq![ptr], sc),
                (BuiltinFn::AtomicCompareExchangeWeak, seq![ptr, sc, sc], DataType::AtomicCompareExchangeResult(s)),
            ];
            assert(all_well_typed(rest)) by {
                assert forall|i: int| 0 <= i < rest.len() implies #[trigger] well_typed(rest[i]) by {
                    assert(0 <= i < 2);
                }
            }
            lemma_per_type_well_typed(TypeGroup::Bits, sv);
            lemma_concat_well_typed(rmw, rest);
            lemma_concat_well_typed(rmw + rest, per_type(TypeGroup::Bits, sv));
        },
        ScalarGroup::Float(unstable) => {
            lemma_per_type_well_typed(TypeGroup::Float(s, unstable), sv);
            lemma_per_type_well_typed(TypeGroup::FloatVector(s), vs);
            let v3 = DataType::Vector(3, s);
            lemma_concat_well_typed(seq![(BuiltinFn::Cross, seq![v3, v3], v3)], per_type(TypeGroup::FloatVector(s), vs));
            let rest: Seq<OverloadView> = if unstable {
                seq![(BuiltinFn::Cross, seq![v3, v3], v3)] + per_type(TypeGroup::FloatVector(s), vs)
            } else {
                Seq::empty()
            };
            lemma_concat_well_typed(per_type(TypeGroup::Float(s, unstable), sv), rest);
        },
        ScalarGroup::SubgroupNumeric => {
            lemma_per_type_well_typed(TypeGroup::SubgroupNumeric, sv);
            lemma_workgroup_ptr(sc);
            lemma_concat_well_typed(
                per_type(TypeGroup::SubgroupNumeric, sv),
                seq![(BuiltinFn::WorkgroupUniformLoad, seq![workgroup_ptr(sc)], sc)],
            );
        },
        ScalarGroup::SubgroupBits => {
            lemma_per_type_well_typed(TypeGroup::SubgroupBits, sv);
            lemma_workgroup_ptr(DataType::Atomic(s));
            lemma_concat_well_typed(
                per_type(TypeGroup::SubgroupBits, sv),
                seq![(BuiltinFn::WorkgroupUniformLoad, seq![workgroup_ptr(DataType::Atomic(s))], sc)],
            );
        },
    }
}

proof fn lemma_per_scalar_well_typed(g: ScalarGroup, ss: Seq<ScalarType>)
    ensures
        all_well_typed(per_scalar(g, ss)),
    decreases ss.len(),
{
    if ss.len() > 0 {
        lemma_per_scalar_well_typed(g, ss.drop_last());
        lemma_scalar_group_well_typed(g, ss.last());
        lemma_concat_well_typed(per_scalar(g, ss.drop_last()), scalar_group(g, ss.last()));
    }
}

/// Every overload the generator may call is well typed: the builtin typing rule gives
/// a call of its function with its parameter types exactly the return type under
/// which the overload is filed.
pub proof fn law_builtin_table_well_typed(unstable_float: bool, collectives: bool)
    ensures
        all_well_typed(builtin_table(unstable_float, collectives)),
{
    let b = DataType::Scalar(ScalarType::Bool);
    let numeric = seq![ScalarType::I32, ScalarType::U32, ScalarType::F32];
    let ints = seq![ScalarType::I32, ScalarType::U32];
    lemma_per_scalar_well_typed(ScalarGroup::Numeric, numeric);
    lemma_per_type_well_typed(TypeGroup::Sign, scalar_and_vectors(ScalarType::I32));
    lemma_per_type_well_typed(TypeGroup::AllAny, spec_vectors_of(ScalarType::Bool));
    lemma_per_scalar_well_typed(ScalarGroup::Select, seq![ScalarType::Bool, ScalarType::I32, ScalarType::U32, ScalarType::F32]);
    lemma_per_scalar_well_typed(ScalarGroup::Integer, ints);
    lemma_per_scalar_well_typed(ScalarGroup::Float(unstable_float), seq![ScalarType::F32]);
    lemma_per_scalar_well_typed(ScalarGroup::SubgroupNumeric, numeric);
    lemma_per_scalar_well_typed(ScalarGroup::SubgroupBits, ints);
    lemma_workgroup_ptr(b);
    let last = seq![
        (BuiltinFn::SubgroupAll, seq![b], b),
        (BuiltinFn::SubgroupAny, seq![b], b),
        (BuiltinFn::SubgroupBallot, seq![b], DataType::Vector(4, ScalarType::U32)),
        (BuiltinFn::WorkgroupUniformLoad, seq![workgroup_ptr(b)], b),
    ];
    assert(all_well_typed(last)) by {
        assert forall|i: int| 0 <= i < last.len() implies #[trigger] well_typed(last[i]) by {
            assert(0 <= i < 4);
        }
    }
    let p1 = per_scalar(ScalarGroup::Numeric, numeric);
    let p2 = per_type(TypeGroup::Sign, scalar_and_vectors(ScalarType::I32));
    let p3 = per_type(TypeGroup::AllAny, spec_vectors_of(ScalarType::Bool));
    let p4 = per_scalar(ScalarGroup::Select, seq![ScalarType::Bool, ScalarType::I32, ScalarType::U32, ScalarType::F32]);
    let p5 = per_scalar(ScalarGroup::Integer, ints);
    let p6 = per_scalar(ScalarGroup::Float(unstable_float), seq![ScalarType::F32]);
    let c1 = per_scalar(ScalarGroup::SubgroupNumeric, numeric);
    let c2 = per_scalar(ScalarGroup::SubgroupBits, ints);
    lemma_concat_well_typed(c1, c2);
    lemma_concat_well_typed(c1 + c2, last);
    let tail: Seq<OverloadView> = if collectives {
        c1 + c2 + last
    } else {
        Seq::empty()
    };
    lemma_concat_well_typed(p1, p2);
    lemma_concat_well_typed(p1 + p2, p3);
    lemma_concat_well_typed(p1 + p2 + p3, p4);
    lemma_concat_well_typed(p1 + p2 + p3 + p4, p5);
    lemma_concat_well_typed(p1 + p2 + p3 + p4 + p5, p6);
    lemma_concat_well_typed(p1 + p2 + p3 + p4 + p5 + p6, tail);
}

} // verus!
