//! Evaluation of operators on constant values, by the rules of the shading language:
//! integer arithmetic wraps, division by zero and out-of-range shifts have no value,
//! and a scalar operand stands for a vector of copies of itself.
use crate::ast::expr::{BinOp, Lit, UnOp};
use crate::concretizer::helper::opt_view;
use crate::concretizer::value::{lemma_values_view, lemma_values_view_push, value_view, values_view, Value, ValueView};
use vstd::arithmetic::div_mod::{lemma_fundamental_div_mod, lemma_mod_multiples_basic};
use vstd::prelude::*;

verus! {

/// The float evaluator answers every call, and gives one answer for one question.
pub open spec fn float_ops_deterministic<F: Fn(BinOp, u32, u32) -> Option<u32>>(fl: F) -> bool {
    &&& forall|op: BinOp, l: u32, r: u32| #[trigger] call_requires(fl, (op, l, r))
    &&& forall|op: BinOp, l: u32, r: u32, a: Option<u32>, b: Option<u32>|
        #[trigger] call_ensures(fl, (op, l, r), a) && #[trigger] call_ensures(fl, (op, l, r), b) ==> a == b
}

/// The answer of the float evaluator to `l op r`, operands and result given by their
/// bit patterns (`None` where the result is out of range).
pub open spec fn float_result<F: Fn(BinOp, u32, u32) -> Option<u32>>(fl: F, op: BinOp, l: u32, r: u32) -> Option<u32> {
    choose|res: Option<u32>| call_ensures(fl, (op, l, r), res)
}

/// `i32` division by a nonzero divisor, truncating; the one quotient that does not fit
/// (`i32::MIN / -1`) wraps to `i32::MIN`.
pub open spec fn i32_wrapping_div(l: i32, r: i32) -> i32 {
    match l.checked_div(r) {
        Some(q) => q,
        None => i32::MIN,
    }
}

/// `i32` remainder by a nonzero divisor, of the sign of the dividend; where the
/// quotient does not fit (`i32::MIN % -1`) it is 0.
pub open spec fn i32_wrapping_rem(l: i32, r: i32) -> i32 {
    match l.checked_rem(r) {
        Some(q) => q,
        None => 0,
    }
}

/// Arithmetic on `i32` constants; division or remainder by zero has no value.
pub open spec fn spec_arith_i32(op: BinOp, l: i32, r: i32) -> Option<i32> {
    match op {
        BinOp::Plus => Some(l.wrapping_add(r)),
        BinOp::Minus => Some(l.wrapping_sub(r)),
        BinOp::Times => Some(l.wrapping_mul(r)),
        BinOp::Divide => if r == 0 {
            None
        } else {
            Some(i32_wrapping_div(l, r))
        },
        BinOp::Mod => if r == 0 {
            None
        } else {
            Some(i32_wrapping_rem(l, r))
        },
        _ => None,
    }
}

/// Arithmetic on `u32` constants; division or remainder by zero has no value.
pub open spec fn spec_arith_u32(op: BinOp, l: u32, r: u32) -> Option<u32> {
    match op {
        BinOp::Plus => Some(l.wrapping_add(r)),
        BinOp::Minus => Some(l.wrapping_sub(r)),
        BinOp::Times => Some(l.wrapping_mul(r)),
        BinOp::Divide => if r == 0 {
            None
        } else {
            Some(l / r)
        },
        BinOp::Mod => if r == 0 {
            None
        } else {
            Some(l % r)
        },
        _ => None,
    }
}

fn arith_i32(op: BinOp, l: i32, r: i32) -> (res: Option<i32>)
    ensures
        res == spec_arith_i32(op, l, r),
{
    match op {
        BinOp::Plus => Some(l.wrapping_add(r)),
        BinOp::Minus => Some(l.wrapping_sub(r)),
        BinOp::Times => Some(l.wrapping_mul(r)),
        BinOp::Divide => {
            if r == 0 {
                None
            } else {
                match l.checked_div(r) {
                    Some(q) => Some(q),
                    None => Some(i32::MIN),
                }
            }
        },
        BinOp::Mod => {
            if r == 0 {
                None
            } else {
                match l.checked_rem(r) {
                    Some(q) => Some(q),
                    None => Some(0),
                }
            }
        },
        _ => None,
    }
}

fn arith_u32(op: BinOp, l: u32, r: u32) -> (res: Option<u32>)
    ensures
        res == spec_arith_u32(op, l, r),
{
    match op {
        BinOp::Plus => Some(l.wrapping_add(r)),
        BinOp::Minus => Some(l.wrapping_sub(r)),
        BinOp::Times => Some(l.wrapping_mul(r)),
        BinOp::Divide => if r == 0 {
            None
        } else {
            Some(l / r)
        },
        BinOp::Mod => if r == 0 {
            None
        } else {
            Some(l % r)
        },
        _ => None,
    }
}

/// A shift, by an amount of either integer type, that the type's width admits.
pub open spec fn spec_shift_in_width(op: BinOp, l: Lit, r: Lit) -> Option<Lit> {
    let amount: Option<u32> = match r {
        Lit::U32(b) => Some(b),
        Lit::I32(b) => if b < 0 {
            None
        } else {
            Some(b as u32)
        },
        _ => None,
    };
    match amount {
        None => None,
        Some(b) => if b >= 32 {
            None
        } else {
            match l {
                Lit::I32(a) => match op {
                    BinOp::LShift => Some(Lit::I32(a << b)),
                    BinOp::RShift => Some(Lit::I32(a >> b)),
                    _ => None,
                },
                Lit::U32(a) => match op {
                    BinOp::LShift => Some(Lit::U32(a << b)),
                    BinOp::RShift => Some(Lit::U32(a >> b)),
                    _ => None,
                },
                _ => None,
            }
        },
    }
}

/// A left shift that loses significant bits: for `i32`, more bits than the run of sign
/// bits; for `u32`, more than the run of leading zeros.
pub open spec fn spec_shift_overflows(op: BinOp, l: Lit, r: Lit) -> bool {
    let amount: int = match r {
        Lit::U32(b) => b as int,
        Lit::I32(b) => b as int,
        _ => 0,
    };
    op == BinOp::LShift && match l {
        Lit::I32(a) => ((a as u32).leading_zeros() as int) < amount + 1 && ((a as u32).leading_ones() as int)
            < amount + 1,
        Lit::U32(a) => (a.leading_zeros() as int) < amount,
        _ => false,
    }
}

/// A shift on constants: it has a value only if the amount is below the bit width and,
/// for a left shift, no significant bit is lost.
pub open spec fn spec_shift(op: BinOp, l: Lit, r: Lit) -> Option<Lit> {
    match spec_shift_in_width(op, l, r) {
        None => None,
        Some(v) => if spec_shift_overflows(op, l, r) {
            None
        } else {
            Some(v)
        },
    }
}

fn binop_int_shift(op: BinOp, l: Lit, r: Lit) -> (res: Option<Lit>)
    ensures
        res == spec_shift_in_width(op, l, r),
{
    let amount: u32 = match r {
        Lit::U32(b) => b,
        Lit::I32(b) => {
            if b < 0 {
                return None;
            }
            b as u32
        },
        _ => {
            return None;
        },
    };
    if amount >= 32 {
        return None;
    }
    match l {
        Lit::I32(a) => match op {
            BinOp::LShift => Some(Lit::I32(a << amount)),
            BinOp::RShift => Some(Lit::I32(a >> amount)),
            _ => None,
        },
        Lit::U32(a) => match op {
            BinOp::LShift => Some(Lit::U32(a << amount)),
            BinOp::RShift => Some(Lit::U32(a >> amount)),
            _ => None,
        },
        _ => None,
    }
}

fn eval_bin_op_shift(op: BinOp, l: Lit, r: Lit) -> (res: Option<Lit>)
    ensures
        res == spec_shift(op, l, r),
{
    let result = binop_int_shift(op, l, r);
    if result.is_none() {
        return None;
    }
    let amount: u32 = match r {
        Lit::U32(b) => b,
        Lit::I32(b) => b as u32,
        _ => 0,
    };
    if op == BinOp::LShift {
        match l {
            Lit::I32(a) => {
                let bits = a as u32;
                if bits.leading_zeros() < amount + 1 && bits.leading_ones() < amount + 1 {
                    return None;
                }
            },
            Lit::U32(a) => {
                if a.leading_zeros() < amount {
                    return None;
                }
            },
            _ => {},
        }
    }
    result
}

/// A binary operator on two scalar constants.
pub open spec fn spec_binop_scalar<F: Fn(BinOp, u32, u32) -> Option<u32>>(fl: F, op: BinOp, l: Lit, r: Lit) -> Option<ValueView> {
    match op {
        BinOp::LShift | BinOp::RShift => match spec_shift(op, l, r) {
            Some(x) => Some(ValueView::Lit(x)),
            None => None,
        },
        BinOp::Plus | BinOp::Minus | BinOp::Times | BinOp::Divide | BinOp::Mod => match l {
            Lit::I32(a) => match r {
                Lit::I32(b) => match spec_arith_i32(op, a, b) {
                    Some(x) => Some(ValueView::Lit(Lit::I32(x))),
                    None => None,
                },
                _ => None,
            },
            Lit::U32(a) => match r {
                Lit::U32(b) => match spec_arith_u32(op, a, b) {
                    Some(x) => Some(ValueView::Lit(Lit::U32(x))),
                    None => None,
                },
                _ => None,
            },
            Lit::F32(a) => match r {
                Lit::F32(b) => match float_result(fl, op, a, b) {
                    Some(x) => Some(ValueView::Lit(Lit::F32(x))),
                    None => None,
                },
                _ => None,
            },
            Lit::Bool(_) => None,
        },
        _ => None,
    }
}

/// A binary operator on two constant values, component by component, a scalar operand
/// standing for a vector of copies of itself.
pub open spec fn spec_binop<F: Fn(BinOp, u32, u32) -> Option<u32>>(fl: F, op: BinOp, l: ValueView, r: ValueView) -> Option<ValueView>
    decreases l, r, 0nat,
{
    match l {
        ValueView::Lit(a) => match r {
            ValueView::Lit(b) => spec_binop_scalar(fl, op, a, b),
            ValueView::Vector(rs) => wrap_vector(binop_lit_vec(fl, op, l, rs, 0)),
        },
        ValueView::Vector(ls) => match r {
            ValueView::Vector(rs) => wrap_vector(binop_vec_vec(fl, op, ls, rs, 0)),
            ValueView::Lit(_) => wrap_vector(binop_vec_lit(fl, op, ls, r, 0)),
        },
    }
}

/// The vector of the component results, if every one has a value.
pub open spec fn wrap_vector(s: Option<Seq<ValueView>>) -> Option<ValueView> {
    match s {
        Some(t) => Some(ValueView::Vector(t)),
        None => None,
    }
}

/// Prepends `x` to a list of results, if both have values.
pub open spec fn cons_result(x: Option<ValueView>, rest: Option<Seq<ValueView>>) -> Option<Seq<ValueView>> {
    match x {
        None => None,
        Some(v) => match rest {
            None => None,
            Some(t) => Some(seq![v] + t),
        },
    }
}

/// The operator on pairs of components from index `k` on, as far as the shorter operand.
pub open spec fn binop_vec_vec<F: Fn(BinOp, u32, u32) -> Option<u32>>(
    fl: F,
    op: BinOp,
    ls: Seq<ValueView>,
    rs: Seq<ValueView>,
    k: int,
) -> Option<Seq<ValueView>>
    decreases ls, rs, if k < ls.len() { ls.len() - k } else { 0 },
{
    if k < 0 || k >= ls.len() || k >= rs.len() {
        Some(Seq::empty())
    } else {
        cons_result(spec_binop(fl, op, ls[k], rs[k]), binop_vec_vec(fl, op, ls, rs, k + 1))
    }
}

/// The operator on a scalar left operand and each right component from index `k` on.
pub open spec fn binop_lit_vec<F: Fn(BinOp, u32, u32) -> Option<u32>>(
    fl: F,
    op: BinOp,
    l: ValueView,
    rs: Seq<ValueView>,
    k: int,
) -> Option<Seq<ValueView>>
    decreases l, rs, if k < rs.len() { rs.len() - k } else { 0 },
{
    if k < 0 || k >= rs.len() {
        Some(Seq::empty())
    } else {
        cons_result(spec_binop(fl, op, l, rs[k]), binop_lit_vec(fl, op, l, rs, k + 1))
    }
}

/// The operator on each left component from index `k` on and a scalar right operand.
pub open spec fn binop_vec_lit<F: Fn(BinOp, u32, u32) -> Option<u32>>(
    fl: F,
    op: BinOp,
    ls: Seq<ValueView>,
    r: ValueView,
    k: int,
) -> Option<Seq<ValueView>>
    decreases ls, r, if k < ls.len() { ls.len() - k } else { 0 },
{
    if k < 0 || k >= ls.len() {
        Some(Seq::empty())
    } else {
        cons_result(spec_binop(fl, op, ls[k], r), binop_vec_lit(fl, op, ls, r, k + 1))
    }
}


/// Prepends the results `p` to the rest, if the rest has a value.
pub open spec fn prefix_then(p: Seq<ValueView>, rest: Option<Seq<ValueView>>) -> Option<Seq<ValueView>> {
    match rest {
        None => None,
        Some(t) => Some(p + t),
    }
}

/// The answer of the float evaluator is the one it gives.
proof fn lemma_float_result<F: Fn(BinOp, u32, u32) -> Option<u32>>(fl: F, op: BinOp, l: u32, r: u32, x: Option<u32>)
    requires
        float_ops_deterministic(fl),
        call_ensures(fl, (op, l, r), x),
    ensures
        float_result(fl, op, l, r) == x,
{
    let c = float_result(fl, op, l, r);
    assert(call_ensures(fl, (op, l, r), c));
}

fn eval_bin_op_scalar<F: Fn(BinOp, u32, u32) -> Option<u32>>(fl: &F, op: BinOp, l: Lit, r: Lit) -> (res: Option<Value>)
    requires
        float_ops_deterministic(*fl),
    ensures
        opt_view(res) == spec_binop_scalar(*fl, op, l, r),
{
    match op {
        BinOp::LShift | BinOp::RShift => match eval_bin_op_shift(op, l, r) {
            Some(x) => Some(Value::Lit(x)),
            None => None,
        },
        BinOp::Plus | BinOp::Minus | BinOp::Times | BinOp::Divide | BinOp::Mod => match (l, r) {
            (Lit::I32(a), Lit::I32(b)) => Value::from_i32(arith_i32(op, a, b)),
            (Lit::U32(a), Lit::U32(b)) => Value::from_u32(arith_u32(op, a, b)),
            (Lit::F32(a), Lit::F32(b)) => {
                let x = fl(op, a, b);
                proof {
                    lemma_float_result(*fl, op, a, b, x);
                }
                Value::from_f32(x)
            },
            _ => None,
        },
        _ => None,
    }
}

/// Evaluates a binary operator on two constant values.
pub fn evaluate_bin_op<F: Fn(BinOp, u32, u32) -> Option<u32>>(fl: &F, op: BinOp, l: &Value, r: &Value) -> (res: Option<Value>)
    requires
        float_ops_deterministic(*fl),
    ensures
        opt_view(res) == spec_binop(*fl, op, value_view(*l), value_view(*r)),
    decreases *l, *r, 0nat,
{
    match l {
        Value::Lit(a) => match r {
            Value::Lit(b) => eval_bin_op_scalar(fl, op, *a, *b),
            Value::Vector(rs) => match binop_lit_vec_exec(fl, op, l, rs) {
                Some(t) => Some(Value::Vector(t)),
                None => None,
            },
        },
        Value::Vector(ls) => match r {
            Value::Vector(rs) => match eval_bin_op_vector(fl, op, ls, rs) {
                Some(t) => Some(Value::Vector(t)),
                None => None,
            },
            Value::Lit(_) => match binop_vec_lit_exec(fl, op, ls, r) {
                Some(t) => Some(Value::Vector(t)),
                None => None,
            },
        },
    }
}

fn binop_lit_vec_exec<F: Fn(BinOp, u32, u32) -> Option<u32>>(fl: &F, op: BinOp, l: &Value, rs: &Vec<Value>) -> (res: Option<Vec<Value>>)
    requires
        float_ops_deterministic(*fl),
    ensures
        match res {
            Some(t) => binop_lit_vec(*fl, op, value_view(*l), values_view(rs@), 0) == Some(values_view(t@)),
            None => binop_lit_vec(*fl, op, value_view(*l), values_view(rs@), 0) is None,
        },
    decreases *l, *rs, 1nat,
{
    let ghost lv = value_view(*l);
    let ghost rv = values_view(rs@);
    proof {
        lemma_values_view(rs@);
    }
    let mut out: Vec<Value> = Vec::new();
    let mut i: usize = 0;
    while i < rs.len()
        invariant
            float_ops_deterministic(*fl),
            lv == value_view(*l),
            rv == values_view(rs@),
            rv.len() == rs@.len(),
            forall|j: int| 0 <= j < rs@.len() ==> #[trigger] rv[j] == value_view(rs@[j]),
            i <= rs.len(),
            binop_lit_vec(*fl, op, lv, rv, 0) == prefix_then(values_view(out@), binop_lit_vec(*fl, op, lv, rv, i as int)),
        decreases rs.len() - i,
    {
        assert(decreases_to!(*rs => rs@));
        assert(decreases_to!(rs@ => rs@[i as int]));
        let e = evaluate_bin_op(fl, op, l, &rs[i]);
        match e {
            None => {
                return None;
            },
            Some(x) => {
                proof {
                    lemma_values_view_push(out@, x);
                    assert(values_view(out@) + (seq![value_view(x)] + binop_lit_vec(*fl, op, lv, rv, i + 1)->0)
                        =~= values_view(out@).push(value_view(x)) + binop_lit_vec(*fl, op, lv, rv, i + 1)->0);
                }
                out.push(x);
            },
        }
        i = i + 1;
    }
    assert(values_view(out@) + Seq::<ValueView>::empty() =~= values_view(out@));
    Some(out)
}

fn binop_vec_lit_exec<F: Fn(BinOp, u32, u32) -> Option<u32>>(fl: &F, op: BinOp, ls: &Vec<Value>, r: &Value) -> (res: Option<Vec<Value>>)
    requires
        float_ops_deterministic(*fl),
    ensures
        match res {
            Some(t) => binop_vec_lit(*fl, op, values_view(ls@), value_view(*r), 0) == Some(values_view(t@)),
            None => binop_vec_lit(*fl, op, values_view(ls@), value_view(*r), 0) is None,
        },
    decreases *ls, *r, 1nat,
{
    let ghost lv = values_view(ls@);
    let ghost rv = value_view(*r);
    proof {
        lemma_values_view(ls@);
    }
    let mut out: Vec<Value> = Vec::new();
    let mut i: usize = 0;
    while i < ls.len()
        invariant
            float_ops_deterministic(*fl),
            rv == value_view(*r),
            lv == values_view(ls@),
            lv.len() == ls@.len(),
            forall|j: int| 0 <= j < ls@.len() ==> #[trigger] lv[j] == value_view(ls@[j]),
            i <= ls.len(),
            binop_vec_lit(*fl, op, lv, rv, 0) == prefix_then(values_view(out@), binop_vec_lit(*fl, op, lv, rv, i as int)),
        decreases ls.len() - i,
    {
        assert(decreases_to!(*ls => ls@));
        assert(decreases_to!(ls@ => ls@[i as int]));
        let e = evaluate_bin_op(fl, op, &ls[i], r);
        match e {
            None => {
                return None;
            },
            Some(x) => {
                proof {
                    lemma_values_view_push(out@, x);
                    assert(values_view(out@) + (seq![value_view(x)] + binop_vec_lit(*fl, op, lv, rv, i + 1)->0)
                        =~= values_view(out@).push(value_view(x)) + binop_vec_lit(*fl, op, lv, rv, i + 1)->0);
                }
                out.push(x);
            },
        }
        i = i + 1;
    }
    assert(values_view(out@) + Seq::<ValueView>::empty() =~= values_view(out@));
    Some(out)
}

fn eval_bin_op_vector<F: Fn(BinOp, u32, u32) -> Option<u32>>(fl: &F, op: BinOp, ls: &Vec<Value>, rs: &Vec<Value>) -> (res: Option<Vec<Value>>)
    requires
        float_ops_deterministic(*fl),
    ensures
        match res {
            Some(t) => binop_vec_vec(*fl, op, values_view(ls@), values_view(rs@), 0) == Some(values_view(t@)),
            None => binop_vec_vec(*fl, op, values_view(ls@), values_view(rs@), 0) is None,
        },
    decreases *ls, *rs, 1nat,
{
    let ghost lv = values_view(ls@);
    let ghost rv = values_view(rs@);
    proof {
        lemma_values_view(ls@);
        lemma_values_view(rs@);
    }
    let mut out: Vec<Value> = Vec::new();
    let mut i: usize = 0;
    while i < ls.len() && i < rs.len()
        invariant
            float_ops_deterministic(*fl),
            lv == values_view(ls@),
            rv == values_view(rs@),
            lv.len() == ls@.len(),
            rv.len() == rs@.len(),
            forall|j: int| 0 <= j < ls@.len() ==> #[trigger] lv[j] == value_view(ls@[j]),
            forall|j: int| 0 <= j < rs@.len() ==> #[trigger] rv[j] == value_view(rs@[j]),
            i <= ls.len(),
            i <= rs.len(),
            binop_vec_vec(*fl, op, lv, rv, 0) == prefix_then(values_view(out@), binop_vec_vec(*fl, op, lv, rv, i as int)),
        decreases ls.len() - i,
    {
        assert(decreases_to!(*ls => ls@));
        assert(decreases_to!(ls@ => ls@[i as int]));
        let e = evaluate_bin_op(fl, op, &ls[i], &rs[i]);
        match e {
            None => {
                return None;
            },
            Some(x) => {
                proof {
                    lemma_values_view_push(out@, x);
                    assert(values_view(out@) + (seq![value_view(x)] + binop_vec_vec(*fl, op, lv, rv, i + 1)->0)
                        =~= values_view(out@).push(value_view(x)) + binop_vec_vec(*fl, op, lv, rv, i + 1)->0);
                }
                out.push(x);
            },
        }
        i = i + 1;
    }
    assert(values_view(out@) + Seq::<ValueView>::empty() =~= values_view(out@));
    Some(out)
}


/// A unary operator on a scalar constant: `None` where the operator does not apply to
/// the type at all, `Some(None)` where it has no constant value.
pub open spec fn spec_unop_scalar(op: UnOp, l: Lit) -> Option<Option<Lit>> {
    match op {
        UnOp::Neg => match l {
            Lit::I32(i) => Some(Some(Lit::I32(if i == i32::MIN { i } else { (-i) as i32 }))),
            Lit::F32(f) => Some(Some(Lit::F32(f ^ 0x8000_0000u32))),
            _ => None,
        },
        UnOp::BitNot => match l {
            Lit::I32(i) => Some(Some(Lit::I32(!i))),
            Lit::U32(u) => Some(Some(Lit::U32(!u))),
            _ => None,
        },
        _ => Some(None),
    }
}

/// A unary operator on a constant value, component by component from the first: `None`
/// where it meets a component it does not apply to, `Some(None)` where a component has
/// no constant value before that.
pub open spec fn spec_unop(op: UnOp, v: ValueView) -> Option<Option<ValueView>>
    decreases v, 0nat,
{
    match v {
        ValueView::Lit(l) => match spec_unop_scalar(op, l) {
            None => None,
            Some(None) => Some(None),
            Some(Some(x)) => Some(Some(ValueView::Lit(x))),
        },
        ValueView::Vector(vs) => match unop_seq(op, vs, 0) {
            None => None,
            Some(None) => Some(None),
            Some(Some(t)) => Some(Some(ValueView::Vector(t))),
        },
    }
}

/// The unary operator on the components of `vs` from index `k` on.
pub open spec fn unop_seq(op: UnOp, vs: Seq<ValueView>, k: int) -> Option<Option<Seq<ValueView>>>
    decreases vs, if k < vs.len() { vs.len() - k } else { 0 },
{
    if k < 0 || k >= vs.len() {
        Some(Some(Seq::empty()))
    } else {
        match spec_unop(op, vs[k]) {
            None => None,
            Some(None) => Some(None),
            Some(Some(x)) => match unop_seq(op, vs, k + 1) {
                None => None,
                Some(None) => Some(None),
                Some(Some(t)) => Some(Some(seq![x] + t)),
            },
        }
    }
}

/// Prepends the results `p` to the rest, where the rest has a value.
pub open spec fn prefix_then2(p: Seq<ValueView>, rest: Option<Option<Seq<ValueView>>>) -> Option<Option<Seq<ValueView>>> {
    match rest {
        None => None,
        Some(None) => Some(None),
        Some(Some(t)) => Some(Some(p + t)),
    }
}

fn eval_unop_scalar(op: UnOp, inner: Lit) -> (res: Option<Value>)
    requires
        spec_unop_scalar(op, inner) is Some,
    ensures
        opt_view(res) == (match spec_unop_scalar(op, inner)->0 {
            Some(x) => Some(ValueView::Lit(x)),
            None => None,
        }),
{
    match op {
        UnOp::Neg => match inner {
            Lit::I32(i) => {
                if i == i32::MIN {
                    Value::from_i32(Some(i))
                } else {
                    Value::from_i32(Some(-i))
                }
            },
            Lit::F32(f) => Value::from_f32(Some(f ^ 0x8000_0000u32)),
            _ => None,
        },
        UnOp::BitNot => match inner {
            Lit::I32(i) => Value::from_i32(Some(!i)),
            Lit::U32(u) => Value::from_u32(Some(!u)),
            _ => None,
        },
        _ => None,
    }
}

/// Evaluates a unary operator on a constant value.
pub fn eval_unop(op: UnOp, inner: &Value) -> (res: Option<Value>)
    requires
        spec_unop(op, value_view(*inner)) is Some,
    ensures
        opt_view(res) == spec_unop(op, value_view(*inner))->0,
    decreases *inner, 0nat,
{
    match inner {
        Value::Lit(v) => eval_unop_scalar(op, *v),
        Value::Vector(vs) => eval_unop_vector(op, vs),
    }
}

/// Evaluates a unary operator on each component of a constant vector.
fn eval_unop_vector(op: UnOp, vs: &Vec<Value>) -> (res: Option<Value>)
    requires
        spec_unop(op, value_view(Value::Vector(*vs))) is Some,
    ensures
        opt_view(res) == spec_unop(op, value_view(Value::Vector(*vs)))->0,
    decreases *vs, 1nat,
{
    let ghost sv = values_view(vs@);
    proof {
        lemma_values_view(vs@);
    }
    let mut out: Vec<Value> = Vec::new();
    let mut i: usize = 0;
    while i < vs.len()
        invariant
            sv == values_view(vs@),
            value_view(Value::Vector(*vs)) == ValueView::Vector(sv),
            sv.len() == vs@.len(),
            forall|j: int| 0 <= j < vs@.len() ==> #[trigger] sv[j] == value_view(vs@[j]),
            i <= vs.len(),
            unop_seq(op, sv, 0) is Some,
            unop_seq(op, sv, 0) == prefix_then2(values_view(out@), unop_seq(op, sv, i as int)),
        decreases vs.len() - i,
    {
        assert(decreases_to!(*vs => vs@));
        assert(decreases_to!(vs@ => vs@[i as int]));
        let e = eval_unop(op, &vs[i]);
        match e {
            None => {
                return None;
            },
            Some(x) => {
                proof {
                    lemma_values_view_push(out@, x);
                    let rest = unop_seq(op, sv, i + 1);
                    if let Some(Some(t)) = rest {
                        assert(values_view(out@) + (seq![value_view(x)] + t) =~= values_view(out@).push(value_view(x))
                            + t);
                    }
                }
                out.push(x);
            },
        }
        i = i + 1;
    }
    assert(values_view(out@) + Seq::<ValueView>::empty() =~= values_view(out@));
    Some(Value::Vector(out))
}

/// `x` and `y` are equal modulo 2^32: one wraps to the other in 32 bits.
pub open spec fn same_mod_2_32(x: int, y: int) -> bool {
    (x - y) % 0x1_0000_0000 == 0
}

proof fn lemma_wrapped_by_multiple(x: int, y: int, k: int)
    requires
        x == y + k * 0x1_0000_0000,
    ensures
        same_mod_2_32(x, y),
{
    lemma_mod_multiples_basic(k, 0x1_0000_0000);
}

proof fn lemma_i32_crop(p: int)
    ensures
        same_mod_2_32(vstd::wrapping::i32_specs::signed_crop(p) as int, p),
{
    let m = p % 0x1_0000_0000;
    lemma_fundamental_div_mod(p, 0x1_0000_0000);
    if m > i32::MAX {
        lemma_wrapped_by_multiple(vstd::wrapping::i32_specs::signed_crop(p) as int, p, -(p / 0x1_0000_0000) - 1);
    } else {
        lemma_wrapped_by_multiple(vstd::wrapping::i32_specs::signed_crop(p) as int, p, -(p / 0x1_0000_0000));
    }
}

/// Law of `evaluate_bin_op` on integer constants: `+`, `-` and `*` of two `i32` or two
/// `u32` constants fold to the constant of the same type that equals the mathematical
/// sum, difference or product modulo 2^32 (wrapping arithmetic); `/` and `%` by a zero
/// divisor do not fold. (For example, `2i * 3i` folds to `6i`.)
pub proof fn law_fold_integer_arithmetic<F: Fn(BinOp, u32, u32) -> Option<u32>>(fl: F, l: i32, r: i32, a: u32, b: u32)
    ensures
        spec_binop(fl, BinOp::Plus, ValueView::Lit(Lit::I32(l)), ValueView::Lit(Lit::I32(r))) matches Some(
            ValueView::Lit(Lit::I32(x)),
        ) && same_mod_2_32(x as int, l + r),
        spec_binop(fl, BinOp::Minus, ValueView::Lit(Lit::I32(l)), ValueView::Lit(Lit::I32(r))) matches Some(
            ValueView::Lit(Lit::I32(x)),
        ) && same_mod_2_32(x as int, l - r),
        spec_binop(fl, BinOp::Times, ValueView::Lit(Lit::I32(l)), ValueView::Lit(Lit::I32(r))) matches Some(
            ValueView::Lit(Lit::I32(x)),
        ) && same_mod_2_32(x as int, l * r),
        spec_binop(fl, BinOp::Plus, ValueView::Lit(Lit::U32(a)), ValueView::Lit(Lit::U32(b))) matches Some(
            ValueView::Lit(Lit::U32(x)),
        ) && same_mod_2_32(x as int, a + b),
        spec_binop(fl, BinOp::Minus, ValueView::Lit(Lit::U32(a)), ValueView::Lit(Lit::U32(b))) matches Some(
            ValueView::Lit(Lit::U32(x)),
        ) && same_mod_2_32(x as int, a - b),
        spec_binop(fl, BinOp::Times, ValueView::Lit(Lit::U32(a)), ValueView::Lit(Lit::U32(b))) matches Some(
            ValueView::Lit(Lit::U32(x)),
        ) && same_mod_2_32(x as int, a * b),
        spec_binop(fl, BinOp::Divide, ValueView::Lit(Lit::I32(l)), ValueView::Lit(Lit::I32(0))) is None,
        spec_binop(fl, BinOp::Mod, ValueView::Lit(Lit::I32(l)), ValueView::Lit(Lit::I32(0))) is None,
        spec_binop(fl, BinOp::Divide, ValueView::Lit(Lit::U32(a)), ValueView::Lit(Lit::U32(0))) is None,
        spec_binop(fl, BinOp::Mod, ValueView::Lit(Lit::U32(a)), ValueView::Lit(Lit::U32(0))) is None,
{
    let s = l + r;
    if s > i32::MAX {
        lemma_wrapped_by_multiple(s - 0x1_0000_0000, s, -1);
    } else if s < i32::MIN {
        lemma_wrapped_by_multiple(s + 0x1_0000_0000, s, 1);
    } else {
        lemma_wrapped_by_multiple(s, s, 0);
    }
    let d = l - r;
    if d > i32::MAX {
        lemma_wrapped_by_multiple(d - 0x1_0000_0000, d, -1);
    } else if d < i32::MIN {
        lemma_wrapped_by_multiple(d + 0x1_0000_0000, d, 1);
    } else {
        lemma_wrapped_by_multiple(d, d, 0);
    }
    lemma_i32_crop(l * r);
    let su = a + b;
    if su > u32::MAX {
        lemma_wrapped_by_multiple(su - 0x1_0000_0000, su, -1);
    } else {
        lemma_wrapped_by_multiple(su, su, 0);
    }
    let du = a - b;
    if du < 0 {
        lemma_wrapped_by_multiple(du + 0x1_0000_0000, du, 1);
    } else {
        lemma_wrapped_by_multiple(du, du, 0);
    }
    let pu = a * b;
    lemma_fundamental_div_mod(pu, 0x1_0000_0000);
    lemma_wrapped_by_multiple(pu % 0x1_0000_0000, pu, -(pu / 0x1_0000_0000));
}

/// The absolute value of `x`.
pub open spec fn abs_int(x: int) -> int {
    if x < 0 { -x } else { x }
}

/// Division with remainder of naturals: `n == k * q + rm` with `0 <= rm < k`.
proof fn lemma_nat_div(n: int, k: int)
    requires
        n >= 0,
        k > 0,
    ensures
        n == k * (n / k) + n % k,
        0 <= n % k < k,
        n / k >= 0,
{
    lemma_fundamental_div_mod(n, k);
    assert(n / k >= 0) by (nonlinear_arith)
        requires n >= 0, k > 0, n == k * (n / k) + n % k, 0 <= n % k < k;
}

/// Law of `evaluate_bin_op` on integer division: for a nonzero divisor, `l / r` and
/// `l % r` of two `i32` constants fold to the quotient rounded toward zero and the
/// remainder that goes with it (`q * r + m == l`, `|m| < |r|`, `m` zero or of the sign
/// of `l`); the one quotient that does not fit, `i32::MIN / -1`, wraps to `i32::MIN`
/// with remainder 0. For `u32` constants they fold to the quotient and remainder.
pub proof fn law_fold_integer_division<F: Fn(BinOp, u32, u32) -> Option<u32>>(fl: F, l: i32, r: i32, a: u32, b: u32)
    requires
        r != 0,
        b != 0,
    ensures
        spec_binop(fl, BinOp::Divide, ValueView::Lit(Lit::I32(l)), ValueView::Lit(Lit::I32(r))) matches Some(
            ValueView::Lit(Lit::I32(q)),
        ) && spec_binop(fl, BinOp::Mod, ValueView::Lit(Lit::I32(l)), ValueView::Lit(Lit::I32(r))) matches Some(
            ValueView::Lit(Lit::I32(m)),
        ) && (if l == i32::MIN && r == -1 {
            q == i32::MIN && m == 0
        } else {
            q * r + m == l && abs_int(m as int) < abs_int(r as int) && (m == 0 || (m < 0) == (l < 0))
        }),
        spec_binop(fl, BinOp::Divide, ValueView::Lit(Lit::U32(a)), ValueView::Lit(Lit::U32(b))) matches Some(
            ValueView::Lit(Lit::U32(q)),
        ) && spec_binop(fl, BinOp::Mod, ValueView::Lit(Lit::U32(a)), ValueView::Lit(Lit::U32(b))) matches Some(
            ValueView::Lit(Lit::U32(m)),
        ) && q * b + m == a && m < b,
{
    lemma_nat_div(a as int, b as int);
    assert((a as int / b as int) * b == b * (a as int / b as int)) by (nonlinear_arith);
    let x = l as int;
    let d = r as int;
    if x == 0 {
    } else if x > 0 && d > 0 {
        lemma_nat_div(x, d);
        assert(x / d <= x) by (nonlinear_arith)
            requires x > 0, d > 0, x == d * (x / d) + x % d, 0 <= x % d < d, x / d >= 0;
        assert((x / d) * d == d * (x / d)) by (nonlinear_arith);
    } else if x < 0 && d < 0 {
        lemma_nat_div(-x, -d);
        let q = (-x) / (-d);
        let rm = (-x) % (-d);
        assert(q <= -x) by (nonlinear_arith)
            requires -x > 0, -d > 0, -x == (-d) * q + rm, 0 <= rm < -d, q >= 0;
        assert(q * d + (-rm) == x) by (nonlinear_arith)
            requires -x == (-d) * q + rm;
        if !(l == i32::MIN && r == -1) {
            assert(q <= i32::MAX) by (nonlinear_arith)
                requires -x > 0, -d > 0, -x == (-d) * q + rm, 0 <= rm < -d, q >= 0, x >= i32::MIN,
                    !(x == i32::MIN && d == -1);
        }
    } else if x < 0 {
        lemma_nat_div(-x, d);
        let q = (-x) / d;
        let rm = (-x) % d;
        assert(q <= -x) by (nonlinear_arith)
            requires -x > 0, d > 0, -x == d * q + rm, 0 <= rm < d, q >= 0;
        assert((q * -1) * d + (rm * -1) == x) by (nonlinear_arith)
            requires -x == d * q + rm;
    } else {
        lemma_nat_div(x, -d);
        let q = x / (-d);
        let rm = x % (-d);
        assert(q <= x) by (nonlinear_arith)
            requires x > 0, -d > 0, x == (-d) * q + rm, 0 <= rm < -d, q >= 0;
        assert((q * -1) * d + rm == x) by (nonlinear_arith)
            requires x == (-d) * q + rm;
    }
}

} // verus!
