//! Checks that tell which constant arguments make an expression invalid.
use crate::ast::expr::Lit;
use crate::concretizer::value::{lemma_values_view, value_view, values_view, Value, ValueView};
use crate::strings::str_eq;
use vstd::prelude::*;

verus! {

/// The bit pattern of a 32-bit float is a NaN.
pub open spec fn f32_is_nan(bits: u32) -> bool {
    (bits & 0x7f80_0000u32) == 0x7f80_0000u32 && (bits & 0x007f_ffffu32) != 0
}

/// The position of a non-NaN float on the number line, by its bit pattern: both zeros
/// sit at 0, and larger magnitudes lie further from it.
pub open spec fn f32_key(bits: u32) -> int {
    if bits & 0x8000_0000u32 != 0 {
        -((bits & 0x7fff_ffffu32) as int)
    } else {
        (bits & 0x7fff_ffffu32) as int
    }
}

/// `a > b` on 32-bit floats given by their bit patterns; false when either is a NaN.
pub open spec fn f32_gt(a: u32, b: u32) -> bool {
    !f32_is_nan(a) && !f32_is_nan(b) && f32_key(a) > f32_key(b)
}

/// A 32-bit float, by its bit pattern, is zero (of either sign).
pub open spec fn f32_is_zero(bits: u32) -> bool {
    bits & 0x7fff_ffffu32 == 0
}

fn f32_bits_gt(a: u32, b: u32) -> (r: bool)
    ensures
        r == f32_gt(a, b),
{
    let a_nan = (a & 0x7f80_0000u32) == 0x7f80_0000u32 && (a & 0x007f_ffffu32) != 0;
    let b_nan = (b & 0x7f80_0000u32) == 0x7f80_0000u32 && (b & 0x007f_ffffu32) != 0;
    if a_nan || b_nan {
        return false;
    }
    let a_mag = (a & 0x7fff_ffffu32) as i64;
    let b_mag = (b & 0x7fff_ffffu32) as i64;
    let a_key: i64 = if a & 0x8000_0000u32 != 0 { -a_mag } else { a_mag };
    let b_key: i64 = if b & 0x8000_0000u32 != 0 { -b_mag } else { b_mag };
    a_key > b_key
}

/// The value is zero, or a vector with a zero component at any depth: a divisor that
/// makes a division invalid.
pub open spec fn spec_is_zero(v: ValueView) -> bool
    decreases v, 0nat,
{
    match v {
        ValueView::Lit(Lit::I32(i)) => i == 0,
        ValueView::Lit(Lit::U32(u)) => u == 0,
        ValueView::Lit(Lit::F32(f)) => f32_is_zero(f),
        ValueView::Lit(Lit::Bool(_)) => false,
        ValueView::Vector(vs) => any_zero(vs, 0),
    }
}

/// Some value of `vs` from index `k` on is zero.
pub open spec fn any_zero(vs: Seq<ValueView>, k: int) -> bool
    decreases vs, if k < vs.len() { vs.len() - k } else { 0 },
{
    if k < 0 || k >= vs.len() {
        false
    } else {
        spec_is_zero(vs[k]) || any_zero(vs, k + 1)
    }
}

/// Whether the value is zero, or a vector with a zero component.
pub fn is_zero(val: &Value) -> (r: bool)
    ensures
        r == spec_is_zero(value_view(*val)),
    decreases *val,
{
    match val {
        Value::Lit(Lit::I32(v)) => *v == 0,
        Value::Lit(Lit::U32(v)) => *v == 0,
        Value::Lit(Lit::F32(v)) => *v & 0x7fff_ffffu32 == 0,
        Value::Lit(Lit::Bool(_)) => false,
        Value::Vector(vec) => {
            let ghost vs = values_view(vec@);
            proof {
                lemma_values_view(vec@);
            }
            let mut i: usize = vec.len();
            let mut found = false;
            while i > 0
                invariant
                    *val == Value::Vector(*vec),
                    vs == values_view(vec@),
                    vs.len() == vec@.len(),
                    forall|j: int| 0 <= j < vec@.len() ==> #[trigger] vs[j] == value_view(vec@[j]),
                    i <= vec.len(),
                    found == any_zero(vs, i as int),
                decreases i,
            {
                i = i - 1;
                assert(decreases_to!(*val => val->Vector_0));
                assert(decreases_to!(val->Vector_0 => val->Vector_0@));
                assert(decreases_to!(val->Vector_0@ => vec@[i as int]));
                let z = is_zero(&vec[i]);
                found = z || found;
            }
            found
        },
    }
}

/// The offset and count of a bit-field call overrun 32 bits, both being known.
pub open spec fn spec_offset_count_overflow(offset_arg: Option<ValueView>, count_arg: Option<ValueView>) -> bool {
    match offset_arg {
        Some(ValueView::Lit(Lit::U32(offset))) => match count_arg {
            Some(ValueView::Lit(Lit::U32(count))) => offset + count > 32,
            _ => false,
        },
        _ => false,
    }
}

/// The view of an optional value.
pub open spec fn opt_view(v: Option<Value>) -> Option<ValueView> {
    match v {
        Some(x) => Some(value_view(x)),
        None => None,
    }
}

fn check_offset_count_overflow(offset_arg: &Option<Value>, count_arg: &Option<Value>) -> (r: bool)
    ensures
        r == spec_offset_count_overflow(opt_view(*offset_arg), opt_view(*count_arg)),
{
    if let Some(Value::Lit(Lit::U32(offset))) = offset_arg {
        if let Some(Value::Lit(Lit::U32(count))) = count_arg {
            return (*offset as u64) + (*count as u64) > 32;
        }
    }
    false
}

/// A call of `extractBits` or `insertBits` whose offset and count are known and overrun
/// 32 bits.
pub open spec fn spec_invalid_bits_call(ident: Seq<char>, vals: Seq<Option<ValueView>>) -> bool {
    if ident == "extractBits"@ {
        spec_offset_count_overflow(vals[1], vals[2])
    } else if ident == "insertBits"@ {
        spec_offset_count_overflow(vals[2], vals[3])
    } else {
        false
    }
}

/// The views of a list of optional values.
pub open spec fn opt_views(vals: Seq<Option<Value>>) -> Seq<Option<ValueView>> {
    vals.map_values(|v: Option<Value>| opt_view(v))
}

/// `extractBits` takes its offset and count as its second and third arguments,
/// `insertBits` as its third and fourth.
pub open spec fn bits_call_args_present(ident: Seq<char>, n: nat) -> bool {
    (ident == "extractBits"@ ==> n >= 3) && (ident == "insertBits"@ ==> n >= 4)
}

/// Whether a bit-field call has a known offset and count that overrun 32 bits.
pub fn is_invalid_bits_call(ident: &str, vals: &[Option<Value>]) -> (r: bool)
    requires
        bits_call_args_present(ident@, vals@.len()),
    ensures
        r == spec_invalid_bits_call(ident@, opt_views(vals@)),
{
    if str_eq(ident, "extractBits") {
        check_offset_count_overflow(&vals[1], &vals[2])
    } else if str_eq(ident, "insertBits") {
        check_offset_count_overflow(&vals[2], &vals[3])
    } else {
        false
    }
}

/// The lower bound of a `clamp` exceeds its upper bound, component by component, a
/// scalar bound standing for every component.
pub open spec fn spec_invalid_clamp_bounds(low: ValueView, high: ValueView) -> bool
    decreases low, high, 0nat,
{
    match low {
        ValueView::Lit(l) => match high {
            ValueView::Lit(h) => match l {
                Lit::I32(lv) => match h {
                    Lit::I32(hv) => lv > hv,
                    _ => false,
                },
                Lit::U32(lv) => match h {
                    Lit::U32(hv) => lv > hv,
                    _ => false,
                },
                Lit::F32(lv) => match h {
                    Lit::F32(hv) => f32_gt(lv, hv),
                    _ => false,
                },
                Lit::Bool(_) => false,
            },
            ValueView::Vector(hs) => any_invalid_lit_vec(low, hs, 0),
        },
        ValueView::Vector(ls) => match high {
            ValueView::Vector(hs) => ls.len() == hs.len() && any_invalid_vec_vec(ls, hs, 0),
            ValueView::Lit(_) => any_invalid_vec_lit(ls, high, 0),
        },
    }
}

/// Some pair of components from index `k` on has invalid bounds.
pub open spec fn any_invalid_vec_vec(ls: Seq<ValueView>, hs: Seq<ValueView>, k: int) -> bool
    decreases ls, hs, if k < ls.len() { ls.len() - k } else { 0 },
{
    if k < 0 || k >= ls.len() || k >= hs.len() {
        false
    } else {
        spec_invalid_clamp_bounds(ls[k], hs[k]) || any_invalid_vec_vec(ls, hs, k + 1)
    }
}

/// The scalar lower bound exceeds some upper component from index `k` on.
pub open spec fn any_invalid_lit_vec(low: ValueView, hs: Seq<ValueView>, k: int) -> bool
    decreases low, hs, if k < hs.len() { hs.len() - k } else { 0 },
{
    if k < 0 || k >= hs.len() {
        false
    } else {
        spec_invalid_clamp_bounds(low, hs[k]) || any_invalid_lit_vec(low, hs, k + 1)
    }
}

/// Some lower component from index `k` on exceeds the scalar upper bound.
pub open spec fn any_invalid_vec_lit(ls: Seq<ValueView>, high: ValueView, k: int) -> bool
    decreases ls, high, if k < ls.len() { ls.len() - k } else { 0 },
{
    if k < 0 || k >= ls.len() {
        false
    } else {
        spec_invalid_clamp_bounds(ls[k], high) || any_invalid_vec_lit(ls, high, k + 1)
    }
}

/// Whether the bounds of a `clamp` are invalid: the lower exceeds the upper.
pub fn is_invalid_clamp_bounds(low: &Value, high: &Value) -> (r: bool)
    ensures
        r == spec_invalid_clamp_bounds(value_view(*low), value_view(*high)),
    decreases *low, *high,
{
    match low {
        Value::Lit(l) => match high {
            Value::Lit(h) => match (l, h) {
                (Lit::I32(lv), Lit::I32(hv)) => lv > hv,
                (Lit::U32(lv), Lit::U32(hv)) => lv > hv,
                (Lit::F32(lv), Lit::F32(hv)) => f32_bits_gt(*lv, *hv),
                _ => false,
            },
            Value::Vector(h_vec) => {
                let ghost hs = values_view(h_vec@);
                proof {
                    lemma_values_view(h_vec@);
                }
                let mut i: usize = h_vec.len();
                let mut found = false;
                while i > 0
                    invariant
                        *high == Value::Vector(*h_vec),
                        *low == Value::Lit(*l),
                        hs == values_view(h_vec@),
                        hs.len() == h_vec@.len(),
                        forall|j: int| 0 <= j < h_vec@.len() ==> #[trigger] hs[j] == value_view(h_vec@[j]),
                        i <= h_vec.len(),
                        found == any_invalid_lit_vec(value_view(*low), hs, i as int),
                    decreases i,
                {
                    i = i - 1;
                    assert(decreases_to!(*high => high->Vector_0));
                    assert(decreases_to!(high->Vector_0 => high->Vector_0@));
                    assert(decreases_to!(high->Vector_0@ => h_vec@[i as int]));
                    let z = is_invalid_clamp_bounds(low, &h_vec[i]);
                    found = z || found;
                }
                found
            },
        },
        Value::Vector(l_vec) => match high {
            Value::Vector(h_vec) => {
                if l_vec.len() != h_vec.len() {
                    proof {
                        lemma_values_view(l_vec@);
                        lemma_values_view(h_vec@);
                    }
                    return false;
                }
                let ghost ls = values_view(l_vec@);
                let ghost hs = values_view(h_vec@);
                proof {
                    lemma_values_view(l_vec@);
                    lemma_values_view(h_vec@);
                }
                let mut i: usize = l_vec.len();
                let mut found = false;
                while i > 0
                    invariant
                        *high == Value::Vector(*h_vec),
                        *low == Value::Vector(*l_vec),
                        ls == values_view(l_vec@),
                        hs == values_view(h_vec@),
                        ls.len() == l_vec@.len(),
                        hs.len() == h_vec@.len(),
                        l_vec@.len() == h_vec@.len(),
                        forall|j: int| 0 <= j < l_vec@.len() ==> #[trigger] ls[j] == value_view(l_vec@[j]),
                        forall|j: int| 0 <= j < h_vec@.len() ==> #[trigger] hs[j] == value_view(h_vec@[j]),
                        i <= l_vec.len(),
                        found == any_invalid_vec_vec(ls, hs, i as int),
                    decreases i,
                {
                    i = i - 1;
                    assert(decreases_to!(*low => low->Vector_0));
                    assert(decreases_to!(low->Vector_0 => low->Vector_0@));
                    assert(decreases_to!(low->Vector_0@ => l_vec@[i as int]));
                    let z = is_invalid_clamp_bounds(&l_vec[i], &h_vec[i]);
                    found = z || found;
                }
                found
            },
            Value::Lit(_) => {
                let ghost ls = values_view(l_vec@);
                proof {
                    lemma_values_view(l_vec@);
                }
                let mut i: usize = l_vec.len();
                let mut found = false;
                while i > 0
                    invariant
                        *low == Value::Vector(*l_vec),
                        ls == values_view(l_vec@),
                        ls.len() == l_vec@.len(),
                        forall|j: int| 0 <= j < l_vec@.len() ==> #[trigger] ls[j] == value_view(l_vec@[j]),
                        i <= l_vec.len(),
                        found == any_invalid_vec_lit(ls, value_view(*high), i as int),
                    decreases i,
                {
                    i = i - 1;
                    assert(decreases_to!(*low => low->Vector_0));
                    assert(decreases_to!(low->Vector_0 => low->Vector_0@));
                    assert(decreases_to!(low->Vector_0@ => l_vec@[i as int]));
                    let z = is_invalid_clamp_bounds(&l_vec[i], high);
                    found = z || found;
                }
                found
            },
        },
    }
}

} // verus!
