//! Memory layout of host-shareable types: sizes, alignments and the byte ranges that
//! hold data (as opposed to padding).
use vstd::arithmetic::div_mod::{lemma_fundamental_div_mod, lemma_fundamental_div_mod_converse, lemma_mod_multiples_basic};
use vstd::arithmetic::mul::lemma_mul_is_commutative;
use crate::ast::structs::StructMember as AstStructMember;
use crate::ast::types::{DataType, ScalarType as AstScalarType};
use std::rc::Rc;
use vstd::prelude::*;

verus! {

#[derive(Clone, Copy, Debug, PartialEq, Eq, Structural)]
pub enum ScalarType {
    I32,
    U32,
    F32,
    AU32,
    AI32,
}

#[derive(Clone, Copy, Debug, PartialEq, Eq, Structural)]
pub enum VectorSize {
    N2,
    N3,
    N4,
}

pub struct StructMember {
    pub name: String,
    pub type_desc: Type,
}

/// A host-shareable type, as laid out in a buffer.
pub enum Type {
    Scalar { scalar_type: ScalarType },
    Vector { size: VectorSize, scalar_type: ScalarType },
    Array { size: u32, element_type: Box<Type> },
    Struct { members: Vec<StructMember> },
}

/// Initial contents of a buffer.
pub struct BufferInit {
    pub data: Vec<u8>,
    pub size: Option<u32>,
}

/// `size` rounded up to a multiple of `alignment`.
pub open spec fn spec_aligned(size: int, alignment: int) -> int {
    ((size + (alignment - 1)) / alignment) * alignment
}

/// Rounding up lands on a multiple of the alignment at most `alignment - 1` past `x`.
pub proof fn lemma_aligned(x: int, a: int)
    requires
        x >= 0,
        a > 0,
    ensures
        x <= spec_aligned(x, a) <= x + a - 1,
        spec_aligned(x, a) % a == 0,
        x % a == 0 ==> spec_aligned(x, a) == x,
{
    let y = x + a - 1;
    lemma_fundamental_div_mod(y, a);
    lemma_mul_is_commutative(a, y / a);
    lemma_mod_multiples_basic(y / a, a);
    if x % a == 0 {
        lemma_fundamental_div_mod(x, a);
        lemma_fundamental_div_mod_converse(y, a, x / a, a - 1);
        lemma_mul_is_commutative(a, x / a);
    }
}

/// Rounding up commutes with adding a multiple of the alignment.
pub proof fn lemma_aligned_shift(b: int, x: int, a: int)
    requires
        x >= 0,
        b >= 0,
        a > 0,
        b % a == 0,
    ensures
        spec_aligned(b + x, a) == b + spec_aligned(x, a),
{
    let y = x + a - 1;
    lemma_fundamental_div_mod(y, a);
    lemma_fundamental_div_mod(b, a);
    let k = b / a;
    let q = y / a;
    assert(b + y == (k + q) * a + y % a) by (nonlinear_arith)
        requires
            y == a * q + y % a,
            b == a * k + b % a,
            b % a == 0,
    ;
    lemma_fundamental_div_mod_converse(b + y, a, k + q, y % a);
    assert((k + q) * a == a * k + q * a) by (nonlinear_arith);
}

pub open spec fn spec_vector_size(n: VectorSize) -> int {
    match n {
        VectorSize::N2 => 8,
        VectorSize::N3 => 12,
        VectorSize::N4 => 16,
    }
}

pub open spec fn spec_vector_alignment(n: VectorSize) -> int {
    match n {
        VectorSize::N2 => 8,
        VectorSize::N3 => 16,
        VectorSize::N4 => 16,
    }
}

/// The alignment of a type: 4 for scalars, 8 or 16 for vectors, that of the element for
/// arrays, and the largest member alignment for structures.
pub open spec fn spec_alignment(t: Type) -> int
    decreases t, 0int,
{
    match t {
        Type::Scalar { .. } => 4,
        Type::Vector { size, .. } => spec_vector_alignment(size),
        Type::Array { element_type, .. } => spec_alignment(*element_type),
        Type::Struct { members } => struct_fold(members@, members@.len() as int).1,
    }
}

/// The size of a type.
pub open spec fn spec_size(t: Type) -> int
    decreases t, 0int,
{
    match t {
        Type::Scalar { .. } => 4,
        Type::Vector { size, .. } => spec_vector_size(size),
        Type::Array { size, element_type } => size * spec_aligned(
            spec_size(*element_type),
            spec_alignment(*element_type),
        ),
        Type::Struct { members } => spec_aligned(
            struct_fold(members@, members@.len() as int).0,
            struct_fold(members@, members@.len() as int).1,
        ),
    }
}

/// Lays out the first `n` members one after the other, each at the next offset aligned to
/// its alignment; gives the end of the last one and the largest alignment seen.
pub open spec fn struct_fold(members: Seq<StructMember>, n: int) -> (int, int)
    decreases members, n,
{
    if n <= 0 || n > members.len() {
        (0, 0)
    } else {
        let prev = struct_fold(members, n - 1);
        let m = members[n - 1];
        (
            spec_aligned(prev.0, spec_alignment(m.type_desc)) + spec_size(m.type_desc),
            if prev.1 >= spec_alignment(m.type_desc) { prev.1 } else { spec_alignment(m.type_desc) },
        )
    }
}

/// Every structure, at any depth, has at least one member.
pub open spec fn type_wf(t: Type) -> bool
    decreases t,
{
    match t {
        Type::Scalar { .. } | Type::Vector { .. } => true,
        Type::Array { element_type, .. } => type_wf(*element_type),
        Type::Struct { members } => members@.len() > 0 && forall|i: int|
            0 <= i < members@.len() ==> type_wf(#[trigger] members@[i].type_desc),
    }
}

/// Every size computed while laying the type out, and its size rounded up to its
/// alignment, fit in 32 bits.
pub open spec fn layout_fits(t: Type) -> bool
    decreases t,
{
    spec_size(t) + 15 <= u32::MAX && match t {
        Type::Scalar { .. } | Type::Vector { .. } => true,
        Type::Array { element_type, .. } => layout_fits(*element_type),
        Type::Struct { members } => forall|i: int|
            0 <= i < members@.len() ==> layout_fits(#[trigger] members@[i].type_desc),
    }
}

/// The alignment of a well-formed type is 4, 8 or 16.
pub proof fn lemma_alignment_values(t: Type)
    requires
        type_wf(t),
    ensures
        spec_alignment(t) == 4 || spec_alignment(t) == 8 || spec_alignment(t) == 16,
    decreases t,
{
    match t {
        Type::Array { element_type, .. } => lemma_alignment_values(*element_type),
        Type::Struct { members } => {
            lemma_struct_fold_alignment(members@, members@.len() as int);
        },
        _ => {},
    }
}

/// The largest alignment of a non-empty run of well-formed members is 4, 8 or 16.
pub proof fn lemma_struct_fold_alignment(members: Seq<StructMember>, n: int)
    requires
        0 <= n <= members.len(),
        forall|i: int| 0 <= i < members.len() ==> type_wf(#[trigger] members[i].type_desc),
    ensures
        n == 0 ==> struct_fold(members, n).1 == 0,
        n > 0 ==> (struct_fold(members, n).1 == 4 || struct_fold(members, n).1 == 8 || struct_fold(members, n).1 == 16),
    decreases members, n,
{
    if n > 0 {
        lemma_struct_fold_alignment(members, n - 1);
        lemma_alignment_values(members[n - 1].type_desc);
    }
}

/// Laying out more members never ends earlier.
pub proof fn lemma_struct_fold_monotone(members: Seq<StructMember>, i: int, j: int)
    requires
        0 <= i <= j <= members.len(),
        forall|k: int| 0 <= k < members.len() ==> type_wf(#[trigger] members[k].type_desc),
    ensures
        0 <= struct_fold(members, i).0 <= struct_fold(members, j).0,
    decreases j - i,
{
    if i < j {
        lemma_struct_fold_monotone(members, i, j - 1);
        lemma_fold_step(members, j);
    } else {
        lemma_fold_nonneg(members, i);
    }
}

proof fn lemma_fold_nonneg(members: Seq<StructMember>, n: int)
    requires
        0 <= n <= members.len(),
        forall|k: int| 0 <= k < members.len() ==> type_wf(#[trigger] members[k].type_desc),
    ensures
        struct_fold(members, n).0 >= 0,
    decreases members, n, 1int,
{
    if n > 0 {
        lemma_fold_nonneg(members, n - 1);
        lemma_fold_step(members, n);
    }
}

/// One more member starts at or after the end of the previous ones.
proof fn lemma_fold_step(members: Seq<StructMember>, n: int)
    requires
        0 < n <= members.len(),
        forall|k: int| 0 <= k < members.len() ==> type_wf(#[trigger] members[k].type_desc),
        struct_fold(members, n - 1).0 >= 0,
    ensures
        struct_fold(members, n - 1).0 <= spec_aligned(
            struct_fold(members, n - 1).0,
            spec_alignment(members[n - 1].type_desc),
        ),
        spec_aligned(struct_fold(members, n - 1).0, spec_alignment(members[n - 1].type_desc))
            <= struct_fold(members, n).0,
    decreases members, n, 0int,
{
    lemma_alignment_values(members[n - 1].type_desc);
    lemma_aligned(struct_fold(members, n - 1).0, spec_alignment(members[n - 1].type_desc));
    lemma_size_nonneg(members[n - 1].type_desc);
}

/// Sizes are never negative.
pub proof fn lemma_size_nonneg(t: Type)
    requires
        type_wf(t),
    ensures
        spec_size(t) >= 0,
    decreases t, 0int, 0int,
{
    match t {
        Type::Array { size, element_type } => {
            lemma_size_nonneg(*element_type);
            lemma_alignment_values(*element_type);
            lemma_aligned(spec_size(*element_type), spec_alignment(*element_type));
            assert(size * spec_aligned(spec_size(*element_type), spec_alignment(*element_type)) >= 0)
                by (nonlinear_arith)
                requires
                    size >= 0,
                    spec_aligned(spec_size(*element_type), spec_alignment(*element_type)) >= 0,
            ;
        },
        Type::Struct { members } => {
            lemma_fold_nonneg(members@, members@.len() as int);
            lemma_struct_fold_alignment(members@, members@.len() as int);
            lemma_aligned(struct_fold(members@, members@.len() as int).0, struct_fold(members@, members@.len() as int).1);
        },
        _ => {},
    }
}

/// Rounds `size` up to a multiple of `alignment`.
pub fn aligned(size: u32, alignment: u32) -> (r: u32)
    requires
        alignment > 0,
        size + alignment - 1 <= u32::MAX,
    ensures
        r == spec_aligned(size as int, alignment as int),
{
    proof {
        lemma_aligned(size as int, alignment as int);
    }
    ((size + (alignment - 1)) / alignment) * alignment
}

impl Type {
    pub fn alignment(&self) -> (r: u32)
        requires
            type_wf(*self),
        ensures
            r == spec_alignment(*self),
        decreases self,
    {
        proof {
            lemma_alignment_values(*self);
        }
        match self {
            Type::Scalar { .. } => 4,
            Type::Vector { size, .. } => match size {
                VectorSize::N2 => 8,
                VectorSize::N3 => 16,
                VectorSize::N4 => 16,
            },
            Type::Array { element_type, .. } => element_type.alignment(),
            Type::Struct { members } => {
                let mut alignment: u32 = 0;
                let mut i: usize = 0;
                while i < members.len()
                    invariant
                        i <= members.len(),
                        *self == (Type::Struct { members: *members }),
                        forall|k: int| 0 <= k < members@.len() ==> type_wf(#[trigger] members@[k].type_desc),
                        alignment == struct_fold(members@, i as int).1,
                    decreases members.len() - i,
                {
                    proof {
                        assert(decreases_to!(*self => self->members));
                        assert(decreases_to!(*members => members@));
                        assert(decreases_to!(members@ => members@[i as int]));
                        assert(decreases_to!(members@[i as int] => members@[i as int].type_desc));
                    }
                    let a = members[i].type_desc.alignment();
                    if a > alignment {
                        alignment = a;
                    }
                    i = i + 1;
                }
                alignment
            },
        }
    }

    pub fn size(&self) -> (r: u32)
        requires
            type_wf(*self),
            layout_fits(*self),
        ensures
            r == spec_size(*self),
        decreases self,
    {
        proof {
            lemma_alignment_values(*self);
            lemma_size_nonneg(*self);
        }
        match self {
            Type::Scalar { .. } => 4,
            Type::Vector { size, .. } => match size {
                VectorSize::N2 => 8,
                VectorSize::N3 => 12,
                VectorSize::N4 => 16,
            },
            Type::Array { size, element_type } => {
                proof {
                    assert(layout_fits(**element_type));
                    assert(type_wf(**element_type));
                    lemma_alignment_values(**element_type);
                    lemma_size_nonneg(**element_type);
                    lemma_aligned(spec_size(**element_type), spec_alignment(**element_type));
                }
                let stride = aligned(element_type.size(), element_type.alignment());
                proof {
                    assert(*size * stride <= u32::MAX);
                }
                *size * stride
            },
            Type::Struct { members } => {
                let ghost n = members@.len() as int;
                proof {
                    lemma_struct_fold_alignment(members@, n);
                    lemma_struct_fold_monotone(members@, 0, n);
                    lemma_aligned(struct_fold(members@, n).0, struct_fold(members@, n).1);
                }
                let mut size: u32 = 0;
                let mut alignment: u32 = 0;
                let mut i: usize = 0;
                while i < members.len()
                    invariant
                        i <= members.len(),
                        n == members@.len(),
                        *self == (Type::Struct { members: *members }),
                        forall|k: int| 0 <= k < members@.len() ==> type_wf(#[trigger] members@[k].type_desc),
                        forall|k: int| 0 <= k < members@.len() ==> layout_fits(#[trigger] members@[k].type_desc),
                        struct_fold(members@, n).0 + 15 <= u32::MAX,
                        size == struct_fold(members@, i as int).0,
                        alignment == struct_fold(members@, i as int).1,
                    decreases members.len() - i,
                {
                    let member_alignment = members[i].type_desc.alignment();
                    proof {
                        lemma_alignment_values(members@[i as int].type_desc);
                        lemma_struct_fold_monotone(members@, i as int + 1, n);
                        lemma_fold_nonneg(members@, i as int);
                        lemma_fold_step(members@, i as int + 1);
                    }
                    proof {
                        assert(decreases_to!(*self => self->members));
                        assert(decreases_to!(*members => members@));
                        assert(decreases_to!(members@ => members@[i as int]));
                        assert(decreases_to!(members@[i as int] => members@[i as int].type_desc));
                    }
                    let member_size = members[i].type_desc.size();
                    if member_alignment > alignment {
                        alignment = member_alignment;
                    }
                    size = aligned(size, member_alignment) + member_size;
                    i = i + 1;
                }
                aligned(size, alignment)
            },
        }
    }

    /// The size of a buffer holding one value of the type: its size rounded up to its
    /// alignment.
    pub fn buffer_size(&self) -> (r: u32)
        requires
            type_wf(*self),
            layout_fits(*self),
        ensures
            r == spec_aligned(spec_size(*self), spec_alignment(*self)),
    {
        proof {
            lemma_alignment_values(*self);
        }
        aligned(self.size(), self.alignment())
    }
}

/// The byte ranges `(offset, size)` that hold the scalars and vectors of a value of type
/// `t` placed at `offset`, in layout order: array elements follow one another at the
/// element size rounded up to the element alignment, structure members each start at the
/// next offset aligned to their alignment.
pub open spec fn spec_ranges(t: Type, offset: int) -> Seq<(int, int)>
    decreases t, 0int,
{
    match t {
        Type::Scalar { .. } | Type::Vector { .. } => seq![(offset, spec_size(t))],
        Type::Array { size, element_type } => array_ranges(*element_type, offset, size as int),
        Type::Struct { members } => struct_ranges(members@, offset, 0),
    }
}

/// The ranges of `count` elements of type `elem`, the first placed at `offset`.
pub open spec fn array_ranges(elem: Type, offset: int, count: int) -> Seq<(int, int)>
    decreases elem, if count > 0 { count } else { 0 },
{
    if count <= 0 {
        seq![]
    } else {
        spec_ranges(elem, offset) + array_ranges(
            elem,
            spec_aligned(offset + spec_size(elem), spec_alignment(elem)),
            count - 1,
        )
    }
}

/// The ranges of the members from index `k` on, the first laid out from `offset`.
pub open spec fn struct_ranges(members: Seq<StructMember>, offset: int, k: int) -> Seq<(int, int)>
    decreases members, if k < members.len() { members.len() - k } else { 0 },
{
    if k < 0 || k >= members.len() {
        seq![]
    } else {
        let start = spec_aligned(offset, spec_alignment(members[k].type_desc));
        spec_ranges(members[k].type_desc, start) + struct_ranges(
            members,
            start + spec_size(members[k].type_desc),
            k + 1,
        )
    }
}

/// Every range lies within `[lo, hi)` and has a non-negative size.
pub open spec fn ranges_within(rs: Seq<(int, int)>, lo: int, hi: int) -> bool {
    forall|i: int| 0 <= i < rs.len() ==> lo <= (#[trigger] rs[i]).0 && rs[i].1 >= 0 && rs[i].0 + rs[i].1 <= hi
}

/// The ranges come in increasing order and do not overlap.
pub open spec fn ranges_sorted(rs: Seq<(int, int)>) -> bool {
    forall|i: int, j: int| 0 <= i < j < rs.len() ==> (#[trigger] rs[i]).0 + rs[i].1 <= (#[trigger] rs[j]).0
}

proof fn lemma_concat_ranges(a: Seq<(int, int)>, b: Seq<(int, int)>, lo: int, mid: int, hi: int)
    requires
        ranges_within(a, lo, mid),
        ranges_within(b, mid, hi),
        ranges_sorted(a),
        ranges_sorted(b),
        lo <= mid <= hi,
    ensures
        ranges_within(a + b, lo, hi),
        ranges_sorted(a + b),
{
    let c = a + b;
    assert forall|i: int| 0 <= i < c.len() implies lo <= (#[trigger] c[i]).0 && c[i].1 >= 0 && c[i].0 + c[i].1 <= hi by {
        if i < a.len() {
            assert(c[i] == a[i]);
        } else {
            assert(c[i] == b[i - a.len()]);
        }
    }
    assert forall|i: int, j: int| 0 <= i < j < c.len() implies (#[trigger] c[i]).0 + c[i].1 <= (#[trigger] c[j]).0 by {
        if j < a.len() {
            assert(c[i] == a[i] && c[j] == a[j]);
        } else if i >= a.len() {
            assert(c[i] == b[i - a.len()] && c[j] == b[j - a.len()]);
        } else {
            assert(c[i] == a[i] && c[j] == b[j - a.len()]);
        }
    }
}

proof fn lemma_mod_divides(x: int, m: int, a: int)
    requires
        x >= 0,
        a > 0,
        m > 0,
        x % m == 0,
        m % a == 0,
    ensures
        x % a == 0,
{
    lemma_fundamental_div_mod(x, m);
    lemma_fundamental_div_mod(m, a);
    let q = x / m;
    let p = m / a;
    assert(x == (p * q) * a) by (nonlinear_arith)
        requires
            x == m * q,
            m == a * p,
    ;
    lemma_mod_multiples_basic(p * q, a);
}

/// The largest member alignment is at least the alignment of every member.
proof fn lemma_fold_alignment_max(members: Seq<StructMember>, n: int, k: int)
    requires
        0 <= k < n <= members.len(),
    ensures
        struct_fold(members, n).1 >= spec_alignment(members[k].type_desc),
    decreases n,
{
    if k < n - 1 {
        lemma_fold_alignment_max(members, n - 1, k);
    }
}

/// Laying out the elements of an array from an aligned offset keeps each range inside
/// its element, one element after the other.
proof fn lemma_array_ranges(elem: Type, offset: int, count: int)
    requires
        type_wf(elem),
        offset >= 0,
        count >= 0,
        offset % spec_alignment(elem) == 0,
    ensures
        ranges_within(
            array_ranges(elem, offset, count),
            offset,
            offset + count * spec_aligned(spec_size(elem), spec_alignment(elem)),
        ),
        ranges_sorted(array_ranges(elem, offset, count)),
    decreases elem, count,
{
    let a = spec_alignment(elem);
    let sz = spec_size(elem);
    lemma_alignment_values(elem);
    lemma_size_nonneg(elem);
    lemma_aligned(sz, a);
    let stride = spec_aligned(sz, a);
    if count > 0 {
        lemma_type_ranges(elem, offset);
        lemma_aligned_shift(offset, sz, a);
        let next = offset + stride;
        assert(spec_aligned(offset + sz, a) == next);
        assert(next % a == 0) by {
            lemma_fundamental_div_mod(offset, a);
            lemma_fundamental_div_mod(stride, a);
            assert(next == a * (offset / a + stride / a)) by (nonlinear_arith)
                requires
                    offset == a * (offset / a),
                    stride == a * (stride / a),
                    next == offset + stride,
            ;
            lemma_mul_is_commutative(a, offset / a + stride / a);
            lemma_mod_multiples_basic(offset / a + stride / a, a);
        }
        lemma_array_ranges(elem, next, count - 1);
        assert(next + (count - 1) * stride == offset + count * stride) by (nonlinear_arith)
            requires
                next == offset + stride,
        ;
        assert(offset + sz <= next);
        assert(ranges_within(spec_ranges(elem, offset), offset, next));
        assert((count - 1) * stride >= 0) by (nonlinear_arith)
            requires
                count >= 1,
                stride >= 0,
        ;
        lemma_concat_ranges(
            spec_ranges(elem, offset),
            array_ranges(elem, next, count - 1),
            offset,
            next,
            offset + count * stride,
        );
    }
}

/// Laying out the members from index `k` on, in a structure placed at `base` (a multiple
/// of the structure's alignment), keeps each range inside its member, one member after
/// the other.
proof fn lemma_struct_ranges(members: Seq<StructMember>, base: int, k: int)
    requires
        members.len() > 0,
        forall|i: int| 0 <= i < members.len() ==> type_wf(#[trigger] members[i].type_desc),
        base >= 0,
        base % struct_fold(members, members.len() as int).1 == 0,
        0 <= k <= members.len(),
    ensures
        ranges_within(
            struct_ranges(members, base + struct_fold(members, k).0, k),
            base + struct_fold(members, k).0,
            base + struct_fold(members, members.len() as int).0,
        ),
        ranges_sorted(struct_ranges(members, base + struct_fold(members, k).0, k)),
    decreases members, members.len() - k,
{
    let n = members.len() as int;
    lemma_struct_fold_monotone(members, k, n);
    if k < n {
        let t = members[k].type_desc;
        let a = spec_alignment(t);
        let m = struct_fold(members, n).1;
        let prev = struct_fold(members, k).0;
        lemma_alignment_values(t);
        lemma_struct_fold_alignment(members, n);
        lemma_fold_alignment_max(members, n, k);
        assert(m % a == 0) by {
            if m == 4 {
                assert(4int % 4 == 0);
            } else if m == 8 {
                assert(8int % 4 == 0 && 8int % 8 == 0);
            } else {
                assert(16int % 4 == 0 && 16int % 8 == 0 && 16int % 16 == 0);
            }
        }
        lemma_mod_divides(base, m, a);
        lemma_fold_nonneg(members, k);
        lemma_aligned_shift(base, prev, a);
        let start = base + spec_aligned(prev, a);
        assert(spec_aligned(base + prev, a) == start);
        lemma_aligned(prev, a);
        assert(start % a == 0) by {
            lemma_fundamental_div_mod(base, a);
            lemma_fundamental_div_mod(spec_aligned(prev, a), a);
            let q = base / a + spec_aligned(prev, a) / a;
            assert(start == a * q) by (nonlinear_arith)
                requires
                    base == a * (base / a),
                    spec_aligned(prev, a) == a * (spec_aligned(prev, a) / a),
                    start == base + spec_aligned(prev, a),
                    q == base / a + spec_aligned(prev, a) / a,
            ;
            lemma_mul_is_commutative(a, q);
            lemma_mod_multiples_basic(q, a);
        }
        lemma_type_ranges(t, start);
        lemma_fold_step(members, k + 1);
        assert(start + spec_size(t) == base + struct_fold(members, k + 1).0);
        lemma_struct_ranges(members, base, k + 1);
        lemma_struct_fold_monotone(members, k + 1, n);
        lemma_struct_fold_monotone(members, k, k + 1);
        lemma_concat_ranges(
            spec_ranges(t, start),
            struct_ranges(members, base + struct_fold(members, k + 1).0, k + 1),
            base + prev,
            base + struct_fold(members, k + 1).0,
            base + struct_fold(members, n).0,
        );
    }
}

/// The data ranges of a value placed at an offset that is a multiple of its alignment lie
/// inside its size, in increasing order and without overlap.
pub proof fn lemma_type_ranges(t: Type, offset: int)
    requires
        type_wf(t),
        offset >= 0,
        offset % spec_alignment(t) == 0,
    ensures
        ranges_within(spec_ranges(t, offset), offset, offset + spec_size(t)),
        ranges_sorted(spec_ranges(t, offset)),
    decreases t, 0int,
{
    lemma_size_nonneg(t);
    match t {
        Type::Array { size, element_type } => {
            lemma_array_ranges(*element_type, offset, size as int);
        },
        Type::Struct { members } => {
            let n = members@.len() as int;
            assert(struct_fold(members@, 0).0 == 0);
            lemma_struct_ranges(members@, offset, 0);
            lemma_struct_fold_alignment(members@, n);
            lemma_struct_fold_monotone(members@, 0, n);
            lemma_aligned(struct_fold(members@, n).0, struct_fold(members@, n).1);
        },
        _ => {},
    }
}

/// The ranges as pairs of integers.
pub open spec fn as_int_pairs(v: Seq<(usize, usize)>) -> Seq<(int, int)> {
    v.map_values(|p: (usize, usize)| (p.0 as int, p.1 as int))
}

/// A multiple of `a` plus a multiple of `a` is a multiple of `a`.
proof fn lemma_mod_add(x: int, y: int, a: int)
    requires
        a > 0,
        x >= 0,
        y >= 0,
        x % a == 0,
        y % a == 0,
    ensures
        (x + y) % a == 0,
{
    lemma_fundamental_div_mod(x, a);
    lemma_fundamental_div_mod(y, a);
    let q = x / a + y / a;
    assert(x + y == a * q) by (nonlinear_arith)
        requires
            x == a * (x / a),
            y == a * (y / a),
            q == x / a + y / a,
    ;
    lemma_mul_is_commutative(a, q);
    lemma_mod_multiples_basic(q, a);
}

/// Appends the ranges of a value of type `t` placed at `offset`.
fn collect_ranges(acc: &mut Vec<(usize, usize)>, offset: u32, t: &Type)
    requires
        type_wf(*t),
        layout_fits(*t),
        (offset as int) % spec_alignment(*t) == 0,
        offset + spec_size(*t) + 15 <= u32::MAX,
    ensures
        as_int_pairs(final(acc)@) == as_int_pairs(old(acc)@) + spec_ranges(*t, offset as int),
    decreases t,
{
    proof {
        lemma_alignment_values(*t);
        lemma_size_nonneg(*t);
    }
    match t {
        Type::Scalar { .. } | Type::Vector { .. } => {
            let size = t.size();
            let ghost before = acc@;
            acc.push((offset as usize, size as usize));
            assert(as_int_pairs(acc@) =~= as_int_pairs(before) + spec_ranges(*t, offset as int));
        },
        Type::Array { size, element_type } => {
            let ghost elem = **element_type;
            let ghost a = spec_alignment(elem);
            let ghost stride = spec_aligned(spec_size(elem), a);
            proof {
                assert(type_wf(elem) && layout_fits(elem));
                lemma_alignment_values(elem);
                lemma_size_nonneg(elem);
                lemma_aligned(spec_size(elem), a);
            }
            let element_size = element_type.size();
            let alignment = element_type.alignment();
            let ghost start = offset as int;
            let ghost goal = as_int_pairs(acc@) + spec_ranges(*t, offset as int);
            let mut off = offset;
            let mut k: u32 = 0;
            while k < *size
                invariant
                    k <= *size,
                    *t == (Type::Array { size: *size, element_type: *element_type }),
                    elem == **element_type,
                    type_wf(elem),
                    layout_fits(elem),
                    a == spec_alignment(elem),
                    a == 4 || a == 8 || a == 16,
                    element_size == spec_size(elem),
                    alignment == a,
                    stride == spec_aligned(spec_size(elem), a),
                    spec_size(elem) <= stride,
                    stride >= 0,
                    off == start + k * stride,
                    (off as int) % a == 0,
                    start + *size * stride + 15 <= u32::MAX,
                    as_int_pairs(acc@) + array_ranges(elem, off as int, *size - k) == goal,
                decreases *size - k,
            {
                proof {
                    assert(k * stride + stride <= *size * stride) by (nonlinear_arith)
                        requires
                            k < *size,
                            stride >= 0,
                    ;
                    assert(decreases_to!(*t => t->element_type));
                }
                let ghost before = acc@;
                collect_ranges(acc, off, element_type);
                proof {
                    lemma_aligned_shift(off as int, spec_size(elem), a);
                    lemma_aligned(spec_size(elem), a);
                    lemma_mod_add(off as int, stride, a);
                    assert(array_ranges(elem, off as int, *size - k) == spec_ranges(elem, off as int) + array_ranges(
                        elem,
                        off + stride,
                        *size - k - 1,
                    ));
                    assert(as_int_pairs(acc@) + array_ranges(elem, off + stride, *size - k - 1) =~= as_int_pairs(
                        before,
                    ) + array_ranges(elem, off as int, *size - k));
                    assert((k + 1) * stride == k * stride + stride) by (nonlinear_arith);
                }
                off = aligned(off + element_size, alignment);
                k = k + 1;
            }
            assert(array_ranges(elem, off as int, 0) =~= Seq::<(int, int)>::empty());
            assert(as_int_pairs(acc@) =~= goal);
        },
        Type::Struct { members } => {
            let ghost n = members@.len() as int;
            let ghost m = struct_fold(members@, n).1;
            let ghost base = offset as int;
            let ghost goal = as_int_pairs(acc@) + spec_ranges(*t, offset as int);
            proof {
                lemma_struct_fold_alignment(members@, n);
                lemma_struct_fold_monotone(members@, 0, n);
                lemma_aligned(struct_fold(members@, n).0, m);
            }
            let mut off = offset;
            let mut i: usize = 0;
            while i < members.len()
                invariant
                    i <= members.len(),
                    n == members@.len(),
                    n > 0,
                    *t == (Type::Struct { members: *members }),
                    forall|k: int| 0 <= k < members@.len() ==> type_wf(#[trigger] members@[k].type_desc),
                    forall|k: int| 0 <= k < members@.len() ==> layout_fits(#[trigger] members@[k].type_desc),
                    m == struct_fold(members@, n).1,
                    m == 4 || m == 8 || m == 16,
                    base % m == 0,
                    base >= 0,
                    off == base + struct_fold(members@, i as int).0,
                    base + struct_fold(members@, n).0 + 15 <= u32::MAX,
                    as_int_pairs(acc@) + struct_ranges(members@, off as int, i as int) == goal,
                decreases members.len() - i,
            {
                let ghost mt = members@[i as int].type_desc;
                let ghost a = spec_alignment(mt);
                let ghost prev = struct_fold(members@, i as int).0;
                proof {
                    lemma_alignment_values(mt);
                    lemma_fold_alignment_max(members@, n, i as int);
                    assert(m % a == 0) by {
                        if m == 4 {
                            assert(4int % 4 == 0);
                        } else if m == 8 {
                            assert(8int % 4 == 0 && 8int % 8 == 0);
                        } else {
                            assert(16int % 4 == 0 && 16int % 8 == 0 && 16int % 16 == 0);
                        }
                    }
                    lemma_mod_divides(base, m, a);
                    lemma_fold_nonneg(members@, i as int);
                    lemma_struct_fold_monotone(members@, i as int + 1, n);
                    lemma_fold_step(members@, i as int + 1);
                    lemma_aligned_shift(base, prev, a);
                    lemma_aligned(prev, a);
                    lemma_mod_add(base, spec_aligned(prev, a), a);
                    lemma_size_nonneg(mt);
                    assert(decreases_to!(*t => t->members));
                    assert(decreases_to!(t->members => t->members@));
                    assert(decreases_to!(members@ => members@[i as int]));
                    assert(decreases_to!(members@[i as int] => members@[i as int].type_desc));
                }
                let alignment = members[i].type_desc.alignment();
                off = aligned(off, alignment);
                let ghost before = acc@;
                collect_ranges(acc, off, &members[i].type_desc);
                let size = members[i].type_desc.size();
                proof {
                    assert(struct_ranges(members@, base + prev, i as int) == spec_ranges(mt, off as int) + struct_ranges(
                        members@,
                        off + size,
                        i as int + 1,
                    ));
                    assert(as_int_pairs(acc@) + struct_ranges(members@, off + size, i as int + 1) =~= as_int_pairs(
                        before,
                    ) + struct_ranges(members@, base + prev, i as int));
                }
                off = off + size;
                i = i + 1;
            }
            assert(struct_ranges(members@, off as int, n) =~= Seq::<(int, int)>::empty());
            assert(as_int_pairs(acc@) =~= goal);
        },
    }
}

impl Type {
    /// The byte ranges `(offset, size)` of a value of this type that hold data, in layout
    /// order.
    pub fn ranges(&self) -> (r: Vec<(usize, usize)>)
        requires
            type_wf(*self),
            layout_fits(*self),
        ensures
            as_int_pairs(r@) == spec_ranges(*self, 0),
    {
        let mut ranges: Vec<(usize, usize)> = Vec::new();
        proof {
            lemma_alignment_values(*self);
            assert(0int % spec_alignment(*self) == 0);
        }
        collect_ranges(&mut ranges, 0, self);
        assert(as_int_pairs(Seq::<(usize, usize)>::empty()) =~= Seq::<(int, int)>::empty());
        assert(Seq::<(int, int)>::empty() + spec_ranges(*self, 0) =~= spec_ranges(*self, 0));
        ranges
    }
}

/// Law of `Type::ranges`: the data of a well-formed type lies inside its size, in
/// increasing order and without overlap.
pub proof fn law_ranges_inside_size(t: Type)
    requires
        type_wf(t),
    ensures
        ranges_within(spec_ranges(t, 0), 0, spec_size(t)),
        ranges_sorted(spec_ranges(t, 0)),
{
    lemma_alignment_values(t);
    assert(0int % spec_alignment(t) == 0);
    lemma_type_ranges(t, 0);
}

/// Law of `Type::buffer_size`: a buffer holds the whole value and is a multiple of the
/// type's alignment.
pub proof fn law_buffer_size(t: Type)
    requires
        type_wf(t),
    ensures
        spec_size(t) <= spec_aligned(spec_size(t), spec_alignment(t)),
        spec_aligned(spec_size(t), spec_alignment(t)) % spec_alignment(t) == 0,
{
    lemma_alignment_values(t);
    lemma_size_nonneg(t);
    lemma_aligned(spec_size(t), spec_alignment(t));
}

/// The largest alignment among the first `n` members bounds each of them and is one of them.
proof fn lemma_fold_alignment_is_max(members: Seq<StructMember>, n: int)
    requires
        0 < n <= members.len(),
    ensures
        forall|i: int| 0 <= i < n ==> spec_alignment(#[trigger] members[i].type_desc) <= struct_fold(members, n).1,
        exists|i: int| 0 <= i < n && struct_fold(members, n).1 == spec_alignment(#[trigger] members[i].type_desc),
    decreases n,
{
    if n > 1 {
        lemma_fold_alignment_is_max(members, n - 1);
        if struct_fold(members, n).1 != spec_alignment(members[n - 1].type_desc) {
            let i = choose|i: int| 0 <= i < n - 1 && struct_fold(members, n - 1).1 == spec_alignment(#[trigger] members[i].type_desc);
            assert(struct_fold(members, n).1 == spec_alignment(members[i].type_desc));
        }
    } else {
        assert(struct_fold(members, 0).1 == 0);
        assert(struct_fold(members, 1).1 == spec_alignment(members[0].type_desc)) by {
            lemma_alignment_nonneg(members[0].type_desc);
        }
    }
}

proof fn lemma_alignment_nonneg(t: Type)
    ensures
        spec_alignment(t) >= 0,
    decreases t,
{
    match t {
        Type::Array { element_type, .. } => lemma_alignment_nonneg(*element_type),
        Type::Struct { members } => {
            if members@.len() > 0 {
                lemma_fold_alignment_nonneg(members@, members@.len() as int);
            }
        },
        _ => {},
    }
}

proof fn lemma_fold_alignment_nonneg(members: Seq<StructMember>, n: int)
    ensures
        struct_fold(members, n).1 >= 0,
    decreases members, n,
{
    if 0 < n <= members.len() {
        lemma_fold_alignment_nonneg(members, n - 1);
    }
}

/// Laying out `n` scalar members one after the other ends at `4 * n`, aligned to 4.
proof fn lemma_fold_scalars(members: Seq<StructMember>, n: int)
    requires
        0 < n <= members.len(),
        forall|i: int| 0 <= i < members.len() ==> (#[trigger] members[i].type_desc) is Scalar,
    ensures
        struct_fold(members, n) == (4 * n, 4int),
    decreases n,
{
    let t = members[n - 1].type_desc;
    assert(t is Scalar);
    assert(spec_alignment(t) == 4 && spec_size(t) == 4);
    if n > 1 {
        lemma_fold_scalars(members, n - 1);
        lemma_mod_multiples_basic(n - 1, 4);
        lemma_aligned(4 * (n - 1), 4);
        assert(spec_aligned(4 * (n - 1), 4) == 4 * (n - 1));
    } else {
        assert(struct_fold(members, 0) == (0int, 0int));
        lemma_aligned(0, 4);
        assert(spec_aligned(0, 4) == 0);
    }
    let prev = struct_fold(members, n - 1);
    assert(struct_fold(members, n) == (spec_aligned(prev.0, 4) + 4, if prev.1 >= 4 { prev.1 } else { 4 }));
}

/// Law of `Type::alignment` and `Type::size`: a scalar is 4 bytes aligned to 4; vectors
/// of two, three and four components take 8, 12 and 16 bytes, aligned to 8, 16 and 16;
/// an array is aligned as its element and takes, per element, the element's size rounded
/// up to a multiple of the element's alignment; a structure is aligned to the largest alignment
/// of its members (so to the alignment of one of them), and its size is a multiple of
/// that alignment. A structure of `n` scalars is aligned to 4 and takes `4 * n` bytes.
pub proof fn law_layout(t: Type)
    requires
        type_wf(t),
    ensures
        t is Scalar ==> spec_alignment(t) == 4 && spec_size(t) == 4,
        t matches Type::Vector { size: VectorSize::N2, .. } ==> spec_alignment(t) == 8 && spec_size(t) == 8,
        t matches Type::Vector { size: VectorSize::N3, .. } ==> spec_alignment(t) == 16 && spec_size(t) == 12,
        t matches Type::Vector { size: VectorSize::N4, .. } ==> spec_alignment(t) == 16 && spec_size(t) == 16,
        t matches Type::Array { element_type, size } ==> spec_alignment(t) == spec_alignment(*element_type) && ({
            let stride = spec_aligned(spec_size(*element_type), spec_alignment(*element_type));
            &&& spec_size(t) == size * stride
            &&& stride % spec_alignment(*element_type) == 0
            &&& spec_size(*element_type) <= stride < spec_size(*element_type) + spec_alignment(*element_type)
        }),
        t matches Type::Struct { members } ==> {
            &&& forall|i: int| 0 <= i < members@.len() ==> spec_alignment(#[trigger] members@[i].type_desc) <= spec_alignment(t)
            &&& exists|i: int| 0 <= i < members@.len() && spec_alignment(t) == spec_alignment(#[trigger] members@[i].type_desc)
            &&& spec_size(t) % spec_alignment(t) == 0
            &&& (forall|i: int| 0 <= i < members@.len() ==> (#[trigger] members@[i].type_desc) is Scalar) ==> spec_alignment(t)
                == 4 && spec_size(t) == 4 * members@.len()
        },
{
    if let Type::Array { element_type, .. } = t {
        lemma_alignment_values(*element_type);
        lemma_size_nonneg(*element_type);
        lemma_aligned(spec_size(*element_type), spec_alignment(*element_type));
    }
    if let Type::Struct { members } = t {
        let n = members@.len() as int;
        lemma_fold_alignment_is_max(members@, n);
        lemma_fold_nonneg(members@, n);
        lemma_struct_fold_alignment(members@, n);
        lemma_aligned(struct_fold(members@, n).0, struct_fold(members@, n).1);
        if forall|i: int| 0 <= i < members@.len() ==> (#[trigger] members@[i].type_desc) is Scalar {
            lemma_fold_scalars(members@, n);
            lemma_mod_multiples_basic(n, 4);
            lemma_aligned(4 * n, 4);
        }
    }
}

/// The layout scalar type of a shader scalar type; booleans have none.
pub open spec fn spec_scalar_from(s: AstScalarType) -> Option<ScalarType> {
    match s {
        AstScalarType::Bool => None,
        AstScalarType::I32 => Some(ScalarType::I32),
        AstScalarType::U32 => Some(ScalarType::U32),
        AstScalarType::F32 => Some(ScalarType::F32),
        AstScalarType::AU32 => Some(ScalarType::AU32),
        AstScalarType::AI32 => Some(ScalarType::AI32),
    }
}

impl ScalarType {
    /// The layout scalar type of a shader scalar type.
    pub fn try_from_ast(value: &AstScalarType) -> (r: Result<ScalarType, &'static str>)
        ensures
            match r {
                Ok(s) => spec_scalar_from(*value) == Some(s),
                Err(e) => spec_scalar_from(*value) is None && e@ == "bool is not allowed"@,
            },
    {
        match value {
            AstScalarType::Bool => {
                proof {
                    reveal_strlit("bool is not allowed");
                }
                Err("bool is not allowed")
            },
            AstScalarType::I32 => Ok(ScalarType::I32),
            AstScalarType::U32 => Ok(ScalarType::U32),
            AstScalarType::F32 => Ok(ScalarType::F32),
            AstScalarType::AU32 => Ok(ScalarType::AU32),
            AstScalarType::AI32 => Ok(ScalarType::AI32),
        }
    }
}

/// The first reason why a shader type has no host-shareable layout, if there is one.
pub open spec fn spec_conversion_error(ty: DataType) -> Option<Seq<char>>
    decreases ty, 0int,
{
    match ty {
        DataType::Scalar(s) => if spec_scalar_from(s) is None {
            Some("bool is not allowed"@)
        } else {
            None
        },
        DataType::Vector(n, s) => if !(n == 2 || n == 3 || n == 4) {
            Some("invalid vector size"@)
        } else if spec_scalar_from(s) is None {
            Some("bool is not allowed"@)
        } else {
            None
        },
        DataType::Array(inner, size) => if size is None {
            Some("struct member runtime sized arrays are not supported"@)
        } else {
            spec_conversion_error(*inner)
        },
        DataType::Struct(decl) => members_conversion_error(decl.members@, 0),
        DataType::Ptr(_) => Some("pointers are not storable"@),
        DataType::Ref(_) => Some("references are not storable"@),
        DataType::Atomic(_) | DataType::AtomicCompareExchangeResult(_) => Some("atomic types are not storable"@),
    }
}

/// The first conversion error among the members from index `k` on.
pub open spec fn members_conversion_error(members: Seq<Rc<AstStructMember>>, k: int) -> Option<Seq<char>>
    decreases members, if k < members.len() { members.len() - k } else { 0 },
{
    if k < 0 || k >= members.len() {
        None
    } else {
        match spec_conversion_error(members[k].data_type) {
            Some(e) => Some(e),
            None => members_conversion_error(members, k + 1),
        }
    }
}

/// `t` is the host-shareable layout of the shader type `ty`.
pub open spec fn converts_to(ty: DataType, t: Type) -> bool
    decreases ty,
{
    match ty {
        DataType::Scalar(s) => t == (Type::Scalar { scalar_type: spec_scalar_from(s).unwrap() }),
        DataType::Vector(n, s) => t == (Type::Vector {
            size: if n == 2 { VectorSize::N2 } else if n == 3 { VectorSize::N3 } else { VectorSize::N4 },
            scalar_type: spec_scalar_from(s).unwrap(),
        }),
        DataType::Array(inner, size) => match t {
            Type::Array { size: n, element_type } => Some(n) == size && converts_to(*inner, *element_type),
            _ => false,
        },
        DataType::Struct(decl) => match t {
            Type::Struct { members } => members@.len() == decl.members@.len() && forall|i: int|
                0 <= i < members@.len() ==> members@[i].name == decl.members@[i].name && converts_to(
                    #[trigger] decl.members@[i].data_type,
                    members@[i].type_desc,
                ),
            _ => false,
        },
        _ => false,
    }
}

impl Type {
    /// The host-shareable layout of a shader type, or why it has none.
    pub fn try_from_data_type(value: &DataType) -> (r: Result<Type, &'static str>)
        ensures
            match r {
                Ok(t) => spec_conversion_error(*value) is None && converts_to(*value, t),
                Err(e) => spec_conversion_error(*value) == Some(e@),
            },
        decreases value,
    {
        match value {
            DataType::Scalar(scalar) => {
                let scalar_type = ScalarType::try_from_ast(scalar)?;
                Ok(Type::Scalar { scalar_type })
            },
            DataType::Vector(n, scalar) => {
                let size = if *n == 2 {
                    VectorSize::N2
                } else if *n == 3 {
                    VectorSize::N3
                } else if *n == 4 {
                    VectorSize::N4
                } else {
                    proof {
                        reveal_strlit("invalid vector size");
                    }
                    return Err("invalid vector size");
                };
                let scalar_type = ScalarType::try_from_ast(scalar)?;
                Ok(Type::Vector { size, scalar_type })
            },
            DataType::Array(inner, size) => {
                let size = match size {
                    Some(n) => *n,
                    None => {
                        proof {
                            reveal_strlit("struct member runtime sized arrays are not supported");
                        }
                        return Err("struct member runtime sized arrays are not supported");
                    },
                };
                let element_type = Type::try_from_data_type(&**inner)?;
                Ok(Type::Array { size, element_type: Box::new(element_type) })
            },
            DataType::Struct(decl) => {
                let mut members: Vec<StructMember> = Vec::new();
                let mut i: usize = 0;
                while i < decl.members.len()
                    invariant
                        i <= decl.members.len(),
                        *value == DataType::Struct(*decl),
                        members@.len() == i,
                        members_conversion_error(decl.members@, 0) == members_conversion_error(decl.members@, i as int),
                        forall|j: int|
                            0 <= j < i ==> members@[j].name == decl.members@[j].name && converts_to(
                                #[trigger] decl.members@[j].data_type,
                                members@[j].type_desc,
                            ),
                    decreases decl.members.len() - i,
                {
                    proof {
                        assert(decreases_to!(*value => value->Struct_0));
                        assert(decreases_to!(*decl => decl.members));
                        assert(decreases_to!(decl.members => decl.members@));
                        assert(decreases_to!(decl.members@ => decl.members@[i as int]));
                        assert(decreases_to!(decl.members@[i as int] => decl.members@[i as int].data_type));
                    }
                    let type_desc = match Type::try_from_data_type(&decl.members[i].data_type) {
                        Ok(t) => t,
                        Err(e) => {
                            return Err(e);
                        },
                    };
                    members.push(StructMember { name: decl.members[i].name.clone(), type_desc });
                    i = i + 1;
                }
                Ok(Type::Struct { members })
            },
            DataType::Ptr(_) => {
                proof {
                    reveal_strlit("pointers are not storable");
                }
                Err("pointers are not storable")
            },
            DataType::Ref(_) => {
                proof {
                    reveal_strlit("references are not storable");
                }
                Err("references are not storable")
            },
            DataType::Atomic(_) | DataType::AtomicCompareExchangeResult(_) => {
                proof {
                    reveal_strlit("atomic types are not storable");
                }
                Err("atomic types are not storable")
            },
        }
    }
}

} // verus!
