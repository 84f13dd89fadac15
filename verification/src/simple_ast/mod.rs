//! A smaller shader syntax tree, with the builtin functions that it knows.
pub mod expr;
pub mod func;
pub mod structs;
pub mod types;
pub mod writer;

use crate::simple_ast::types::{DataType, ScalarType};
use crate::strings::str_eq;
use vstd::prelude::*;

verus! {

/// A list of attributes.
pub struct AttrList<T>(pub Vec<T>);

/// The vector types of 2, 3 and 4 components of a scalar type.
pub fn vectors_of(ty: ScalarType) -> (r: Vec<DataType>)
    ensures
        r@ == spec_vectors_of(ty),
{
    let mut r: Vec<DataType> = Vec::new();
    r.push(DataType::Vector(2, ty));
    r.push(DataType::Vector(3, ty));
    r.push(DataType::Vector(4, ty));
    assert(r@ =~= spec_vectors_of(ty));
    r
}

/// The scalar type and its vector types.
pub fn scalar_and_vectors_of(ty: ScalarType) -> (r: Vec<DataType>)
    ensures
        r@ == spec_scalar_and_vectors_of(ty),
{
    let mut r: Vec<DataType> = Vec::new();
    r.push(DataType::Scalar(ty));
    r.push(DataType::Vector(2, ty));
    r.push(DataType::Vector(3, ty));
    r.push(DataType::Vector(4, ty));
    assert(r@ =~= spec_scalar_and_vectors_of(ty));
    r
}

/// The vector types of 2, 3 and 4 components of `ty`.
pub open spec fn spec_vectors_of(ty: ScalarType) -> Seq<DataType> {
    seq![DataType::Vector(2, ty), DataType::Vector(3, ty), DataType::Vector(4, ty)]
}

/// `ty` and its vector types.
pub open spec fn spec_scalar_and_vectors_of(ty: ScalarType) -> Seq<DataType> {
    seq![DataType::Scalar(ty)] + spec_vectors_of(ty)
}


/// A builtin function overload, by its views: name, parameter types, return type.
pub type Overload = (Seq<char>, Seq<DataType>, Option<DataType>);

/// The overloads that `f` gives for each element of `s`, in order.
pub open spec fn concat_map<A>(s: Seq<A>, f: spec_fn(A) -> Seq<Overload>) -> Seq<Overload>
    decreases s.len(),
{
    if s.len() == 0 {
        Seq::empty()
    } else {
        concat_map(s.drop_last(), f) + f(s.last())
    }
}

/// `name` is one of the enabled functions.
pub open spec fn is_enabled(enabled: Seq<Seq<char>>, name: Seq<char>) -> bool {
    exists|i: int| 0 <= i < enabled.len() && enabled[i] == name
}

/// The overload of `name` if it is enabled.
pub open spec fn if_enabled(enabled: Seq<Seq<char>>, o: Overload) -> Seq<Overload> {
    if is_enabled(enabled, o.0) {
        seq![o]
    } else {
        Seq::empty()
    }
}

/// The bit-counting functions that are off unless enabled.
pub open spec fn bit_fn_names() -> Seq<Seq<char>> {
    seq![
        "countLeadingZeros"@,
        "countOneBits"@,
        "countTrailingZeros"@,
        "firstBitHigh"@,
        "firstBitLow"@,
        "reverseBits"@,
    ]
}

/// The integer functions on a scalar or vector integer type `ty`.
pub open spec fn int_overloads(enabled: Seq<Seq<char>>, ty: DataType) -> Seq<Overload> {
    let u = DataType::Scalar(ScalarType::U32);
    seq![("clamp"@, seq![ty, ty, ty], Some(ty)), ("abs"@, seq![ty], Some(ty))] + concat_map(
        bit_fn_names(),
        bit_fn(enabled, ty),
    ) + if_enabled(enabled, ("extractBits"@, seq![ty, u, u], Some(ty))) + if_enabled(
        enabled,
        ("insertBits"@, seq![ty, ty, u, u], Some(ty)),
    ) + seq![("max"@, seq![ty, ty], Some(ty)), ("min"@, seq![ty, ty], Some(ty))]
}

/// The overload of the bit-counting function `n` on `ty`, if it is enabled.
pub open spec fn bit_fn(enabled: Seq<Seq<char>>, ty: DataType) -> spec_fn(Seq<char>) -> Seq<Overload> {
    |n: Seq<char>| if_enabled(enabled, (n, seq![ty], Some(ty)))
}

/// `all` and `any` on a bool vector type.
pub open spec fn all_any_fn() -> spec_fn(DataType) -> Seq<Overload> {
    |ty: DataType|
        seq![
            ("all"@, seq![ty], Some(DataType::Scalar(ScalarType::Bool))),
            ("any"@, seq![ty], Some(DataType::Scalar(ScalarType::Bool))),
        ]
}

/// `select` with a scalar condition on a type.
pub open spec fn select_scalar_fn() -> spec_fn(DataType) -> Seq<Overload> {
    |ty: DataType| seq![("select"@, seq![ty, ty, DataType::Scalar(ScalarType::Bool)], Some(ty))]
}

/// `select` with a vector condition on vectors of `n` components of `s`.
pub open spec fn select_vector_fn(s: ScalarType) -> spec_fn(u8) -> Seq<Overload> {
    |n: u8|
        seq![
            (
                "select"@,
                seq![DataType::Vector(n, s), DataType::Vector(n, s), DataType::Vector(n, ScalarType::Bool)],
                Some(DataType::Vector(n, s)),
            ),
        ]
}

/// The `select` overloads of a scalar type: with a scalar condition on it and its
/// vectors, and with a vector condition on its vectors.
pub open spec fn select_overloads(s: ScalarType) -> Seq<Overload> {
    concat_map(spec_scalar_and_vectors_of(s), select_scalar_fn()) + concat_map(seq![2u8, 3u8, 4u8], select_vector_fn(s))
}

/// The integer functions on each type.
pub open spec fn int_fn(enabled: Seq<Seq<char>>) -> spec_fn(DataType) -> Seq<Overload> {
    |ty: DataType| int_overloads(enabled, ty)
}

/// `dot` on vectors of `s`.
pub open spec fn dot_fn(s: ScalarType) -> spec_fn(DataType) -> Seq<Overload> {
    |ty: DataType| seq![("dot"@, seq![ty, ty], Some(DataType::Scalar(s)))]
}

/// The overloads of an integer scalar type and its vectors.
pub open spec fn integer_overloads(enabled: Seq<Seq<char>>, s: ScalarType) -> Seq<Overload> {
    concat_map(spec_scalar_and_vectors_of(s), int_fn(enabled)) + if is_enabled(enabled, "dot"@) {
        concat_map(spec_vectors_of(s), dot_fn(s))
    } else {
        Seq::empty()
    }
}

/// The `select` overloads of each scalar type.
pub open spec fn select_fn() -> spec_fn(ScalarType) -> Seq<Overload> {
    |s: ScalarType| select_overloads(s)
}

/// The integer overloads of each integer scalar type.
pub open spec fn integer_fn(enabled: Seq<Seq<char>>) -> spec_fn(ScalarType) -> Seq<Overload> {
    |s: ScalarType| integer_overloads(enabled, s)
}

/// The builtin function overloads: `all` and `any` on bool vectors, `select` on bool and
/// integer types, and the integer functions, some only if enabled.
pub open spec fn builtin_overloads(enabled: Seq<Seq<char>>) -> Seq<Overload> {
    concat_map(spec_vectors_of(ScalarType::Bool), all_any_fn()) + concat_map(
        seq![ScalarType::Bool, ScalarType::I32, ScalarType::U32],
        select_fn(),
    ) + concat_map(seq![ScalarType::I32, ScalarType::U32], integer_fn(enabled))
}

/// The view of an overload.
pub open spec fn overload_view(o: (String, Vec<DataType>, Option<DataType>)) -> Overload {
    (o.0@, o.1@, o.2)
}

/// The views of a list of overloads.
pub open spec fn overloads_view(v: Seq<(String, Vec<DataType>, Option<DataType>)>) -> Seq<Overload> {
    v.map_values(|o: (String, Vec<DataType>, Option<DataType>)| overload_view(o))
}

/// The views of the names of the enabled functions.
pub open spec fn names_view(v: Seq<&str>) -> Seq<Seq<char>> {
    v.map_values(|s: &str| s@)
}

/// Mapping the first `k + 1` elements is mapping the first `k`, then the next.
proof fn lemma_concat_map_step<A>(s: Seq<A>, f: spec_fn(A) -> Seq<Overload>, k: int)
    requires
        0 <= k < s.len(),
    ensures
        concat_map(s.subrange(0, k + 1), f) == concat_map(s.subrange(0, k), f) + f(s[k]),
{
    assert(s.subrange(0, k + 1).drop_last() =~= s.subrange(0, k));
}

fn is_enabled_exec(enabled: &[&str], name: &str) -> (r: bool)
    ensures
        r == is_enabled(names_view(enabled@), name@),
{
    let mut i: usize = 0;
    while i < enabled.len()
        invariant
            i <= enabled@.len(),
            forall|j: int| 0 <= j < i ==> names_view(enabled@)[j] != name@,
        decreases enabled.len() - i,
    {
        if str_eq(enabled[i], name) {
            assert(names_view(enabled@)[i as int] == name@);
            return true;
        }
        i = i + 1;
    }
    false
}


fn push_overload(
    fns: &mut Vec<(String, Vec<DataType>, Option<DataType>)>,
    name: &str,
    params: Vec<DataType>,
    ret: Option<DataType>,
)
    ensures
        overloads_view(final(fns)@) == overloads_view(old(fns)@).push((name@, params@, ret)),
{
    let ghost p = params@;
    fns.push((name.to_owned(), params, ret));
    assert(overloads_view(fns@) =~= overloads_view(old(fns)@).push((name@, p, ret)));
}

fn add_all_any(fns: &mut Vec<(String, Vec<DataType>, Option<DataType>)>)
    ensures
        overloads_view(final(fns)@) == overloads_view(old(fns)@) + concat_map(spec_vectors_of(ScalarType::Bool), all_any_fn()),
{
    let ghost start = overloads_view(fns@);
    let tys = vectors_of(ScalarType::Bool);
    let mut i: usize = 0;
    while i < tys.len()
        invariant
            i <= tys@.len(),
            tys@ == spec_vectors_of(ScalarType::Bool),
            overloads_view(fns@) == start + concat_map(tys@.subrange(0, i as int), all_any_fn()),
        decreases tys.len() - i,
    {
        proof {
            lemma_concat_map_step(tys@, all_any_fn(), i as int);
        }
        let ty = tys[i].clone();
        let ghost before = overloads_view(fns@);
        let p1 = vec![ty.clone()];
        assert(p1@ =~= seq![ty]);
        push_overload(fns, "all", p1, Some(DataType::Scalar(ScalarType::Bool)));
        assert(ty == tys@[i as int]);
        assert(overloads_view(fns@) =~= before.push(("all"@, seq![ty], Some(DataType::Scalar(ScalarType::Bool)))));
        push_overload(fns, "any", vec![ty], Some(DataType::Scalar(ScalarType::Bool)));
        assert(overloads_view(fns@) =~= before + all_any_fn()(tys@[i as int]));
        i = i + 1;
    }
    assert(tys@.subrange(0, tys@.len() as int) =~= tys@);
}


fn add_select(fns: &mut Vec<(String, Vec<DataType>, Option<DataType>)>, s: ScalarType)
    ensures
        overloads_view(final(fns)@) == overloads_view(old(fns)@) + select_overloads(s),
{
    let ghost start = overloads_view(fns@);
    let tys = scalar_and_vectors_of(s);
    let mut i: usize = 0;
    while i < tys.len()
        invariant
            i <= tys@.len(),
            tys@ == spec_scalar_and_vectors_of(s),
            overloads_view(fns@) == start + concat_map(tys@.subrange(0, i as int), select_scalar_fn()),
        decreases tys.len() - i,
    {
        proof {
            lemma_concat_map_step(tys@, select_scalar_fn(), i as int);
        }
        let ty = tys[i].clone();
        let ghost before = overloads_view(fns@);
        let p = vec![ty.clone(), ty.clone(), DataType::Scalar(ScalarType::Bool)];
        assert(p@ =~= seq![ty, ty, DataType::Scalar(ScalarType::Bool)]);
        push_overload(fns, "select", p, Some(ty));
        assert(overloads_view(fns@) =~= before + select_scalar_fn()(tys@[i as int]));
        i = i + 1;
    }
    assert(tys@.subrange(0, tys@.len() as int) =~= tys@);
    let ghost mid = overloads_view(fns@);
    let sizes: [u8; 3] = [2, 3, 4];
    assert(sizes@ =~= seq![2u8, 3u8, 4u8]);
    let mut k: usize = 0;
    while k < 3
        invariant
            k <= 3,
            sizes@ == seq![2u8, 3u8, 4u8],
            overloads_view(fns@) == mid + concat_map(sizes@.subrange(0, k as int), select_vector_fn(s)),
        decreases 3 - k,
    {
        proof {
            lemma_concat_map_step(sizes@, select_vector_fn(s), k as int);
        }
        let n = sizes[k];
        let ghost before = overloads_view(fns@);
        let p = vec![DataType::Vector(n, s), DataType::Vector(n, s), DataType::Vector(n, ScalarType::Bool)];
        assert(p@ =~= seq![DataType::Vector(n, s), DataType::Vector(n, s), DataType::Vector(n, ScalarType::Bool)]);
        push_overload(fns, "select", p, Some(DataType::Vector(n, s)));
        assert(overloads_view(fns@) =~= before + select_vector_fn(s)(sizes@[k as int]));
        k = k + 1;
    }
    assert(sizes@.subrange(0, 3) =~= sizes@);
    assert(overloads_view(fns@) =~= start + select_overloads(s));
}

fn add_if_enabled(
    fns: &mut Vec<(String, Vec<DataType>, Option<DataType>)>,
    enabled: &[&str],
    name: &str,
    params: Vec<DataType>,
    ret: Option<DataType>,
)
    ensures
        overloads_view(final(fns)@) == overloads_view(old(fns)@) + if_enabled(names_view(enabled@), (name@, params@, ret)),
{
    if is_enabled_exec(enabled, name) {
        push_overload(fns, name, params, ret);
        assert(overloads_view(fns@) =~= overloads_view(old(fns)@) + if_enabled(names_view(enabled@), (name@, params@, ret)));
    } else {
        assert(overloads_view(fns@) =~= overloads_view(old(fns)@) + if_enabled(names_view(enabled@), (name@, params@, ret)));
    }
}

fn add_int(fns: &mut Vec<(String, Vec<DataType>, Option<DataType>)>, enabled: &[&str], ty: &DataType)
    ensures
        overloads_view(final(fns)@) == overloads_view(old(fns)@) + int_overloads(names_view(enabled@), *ty),
{
    let ghost en = names_view(enabled@);
    let ghost start = overloads_view(fns@);
    let u = DataType::Scalar(ScalarType::U32);
    let p = vec![ty.clone(), ty.clone(), ty.clone()];
    assert(p@ =~= seq![*ty, *ty, *ty]);
    push_overload(fns, "clamp", p, Some(ty.clone()));
    let p = vec![ty.clone()];
    assert(p@ =~= seq![*ty]);
    push_overload(fns, "abs", p, Some(ty.clone()));
    let ghost after_abs = overloads_view(fns@);
    assert(after_abs =~= start + seq![("clamp"@, seq![*ty, *ty, *ty], Some(*ty)), ("abs"@, seq![*ty], Some(*ty))]);
    let names: [&str; 6] = [
        "countLeadingZeros",
        "countOneBits",
        "countTrailingZeros",
        "firstBitHigh",
        "firstBitLow",
        "reverseBits",
    ];
    assert(names_view(names@) =~= bit_fn_names());
    let mut k: usize = 0;
    while k < 6
        invariant
            k <= 6,
            names_view(names@) == bit_fn_names(),
            en == names_view(enabled@),
            overloads_view(fns@) == after_abs + concat_map(bit_fn_names().subrange(0, k as int), bit_fn(en, *ty)),
        decreases 6 - k,
    {
        proof {
            lemma_concat_map_step(bit_fn_names(), bit_fn(en, *ty), k as int);
        }
        let p = vec![ty.clone()];
        assert(p@ =~= seq![*ty]);
        assert(names@[k as int]@ == bit_fn_names()[k as int]);
        add_if_enabled(fns, enabled, names[k], p, Some(ty.clone()));
        k = k + 1;
    }
    assert(bit_fn_names().subrange(0, 6) =~= bit_fn_names());
    let ghost after_bits = overloads_view(fns@);
    let p = vec![ty.clone(), u.clone(), u.clone()];
    assert(p@ =~= seq![*ty, u, u]);
    add_if_enabled(fns, enabled, "extractBits", p, Some(ty.clone()));
    let p = vec![ty.clone(), ty.clone(), u.clone(), u.clone()];
    assert(p@ =~= seq![*ty, *ty, u, u]);
    add_if_enabled(fns, enabled, "insertBits", p, Some(ty.clone()));
    let p = vec![ty.clone(), ty.clone()];
    assert(p@ =~= seq![*ty, *ty]);
    push_overload(fns, "max", p, Some(ty.clone()));
    let p = vec![ty.clone(), ty.clone()];
    assert(p@ =~= seq![*ty, *ty]);
    push_overload(fns, "min", p, Some(ty.clone()));
    assert(overloads_view(fns@) =~= start + int_overloads(en, *ty));
}

fn add_integer(fns: &mut Vec<(String, Vec<DataType>, Option<DataType>)>, enabled: &[&str], s: ScalarType)
    ensures
        overloads_view(final(fns)@) == overloads_view(old(fns)@) + integer_overloads(names_view(enabled@), s),
{
    let ghost en = names_view(enabled@);
    let ghost start = overloads_view(fns@);
    let tys = scalar_and_vectors_of(s);
    let mut i: usize = 0;
    while i < tys.len()
        invariant
            i <= tys@.len(),
            tys@ == spec_scalar_and_vectors_of(s),
            en == names_view(enabled@),
            overloads_view(fns@) == start + concat_map(tys@.subrange(0, i as int), int_fn(en)),
        decreases tys.len() - i,
    {
        proof {
            lemma_concat_map_step(tys@, int_fn(en), i as int);
        }
        add_int(fns, enabled, &tys[i]);
        i = i + 1;
    }
    assert(tys@.subrange(0, tys@.len() as int) =~= tys@);
    let ghost mid = overloads_view(fns@);
    if is_enabled_exec(enabled, "dot") {
        let tys = vectors_of(s);
        let mut i: usize = 0;
        while i < tys.len()
            invariant
                i <= tys@.len(),
                tys@ == spec_vectors_of(s),
                overloads_view(fns@) == mid + concat_map(tys@.subrange(0, i as int), dot_fn(s)),
            decreases tys.len() - i,
        {
            proof {
                lemma_concat_map_step(tys@, dot_fn(s), i as int);
            }
            let ty = tys[i].clone();
            let ghost before = overloads_view(fns@);
            let p = vec![ty.clone(), ty.clone()];
            assert(p@ =~= seq![ty, ty]);
            push_overload(fns, "dot", p, Some(DataType::Scalar(s)));
            assert(overloads_view(fns@) =~= before + dot_fn(s)(tys@[i as int]));
            i = i + 1;
        }
        assert(tys@.subrange(0, tys@.len() as int) =~= tys@);
        assert(overloads_view(fns@) =~= start + integer_overloads(en, s));
    } else {
        assert(overloads_view(fns@) =~= start + integer_overloads(en, s));
    }
}

/// The builtin function overloads, with the functions named in `enabled` switched on:
/// each as its name, parameter types and return type.
pub fn gen_builtin_fns(enabled: &[&str]) -> (r: Vec<(String, Vec<DataType>, Option<DataType>)>)
    ensures
        overloads_view(r@) == builtin_overloads(names_view(enabled@)),
{
    let ghost en = names_view(enabled@);
    let mut fns: Vec<(String, Vec<DataType>, Option<DataType>)> = Vec::new();
    assert(overloads_view(fns@) =~= Seq::<Overload>::empty());
    add_all_any(&mut fns);
    let ghost after_all_any = overloads_view(fns@);
    let scalars: [ScalarType; 3] = [ScalarType::Bool, ScalarType::I32, ScalarType::U32];
    assert(scalars@ =~= seq![ScalarType::Bool, ScalarType::I32, ScalarType::U32]);
    let mut k: usize = 0;
    while k < 3
        invariant
            k <= 3,
            scalars@ == seq![ScalarType::Bool, ScalarType::I32, ScalarType::U32],
            overloads_view(fns@) == after_all_any + concat_map(scalars@.subrange(0, k as int), select_fn()),
        decreases 3 - k,
    {
        proof {
            lemma_concat_map_step(scalars@, select_fn(), k as int);
        }
        add_select(&mut fns, scalars[k]);
        k = k + 1;
    }
    assert(scalars@.subrange(0, 3) =~= scalars@);
    let ghost after_select = overloads_view(fns@);
    let ints: [ScalarType; 2] = [ScalarType::I32, ScalarType::U32];
    assert(ints@ =~= seq![ScalarType::I32, ScalarType::U32]);
    let mut k: usize = 0;
    while k < 2
        invariant
            k <= 2,
            ints@ == seq![ScalarType::I32, ScalarType::U32],
            en == names_view(enabled@),
            overloads_view(fns@) == after_select + concat_map(ints@.subrange(0, k as int), integer_fn(en)),
        decreases 2 - k,
    {
        proof {
            lemma_concat_map_step(ints@, integer_fn(en), k as int);
        }
        add_integer(&mut fns, enabled, ints[k]);
        k = k + 1;
    }
    assert(ints@.subrange(0, 2) =~= ints@);
    assert(Seq::<Overload>::empty() + concat_map(spec_vectors_of(ScalarType::Bool), all_any_fn()) =~= concat_map(
        spec_vectors_of(ScalarType::Bool),
        all_any_fn(),
    ));
    fns
}

} // verus!
