//! Values of constant expressions.
use crate::ast::expr::Lit;
use vstd::prelude::*;

verus! {

/// The value of a constant expression: a scalar, or a vector of values.
pub enum Value {
    Lit(Lit),
    Vector(Vec<Value>),
}

/// The mathematical form of a [`Value`].
pub enum ValueView {
    Lit(Lit),
    Vector(Seq<ValueView>),
}

/// The mathematical form of a value.
pub open spec fn value_view(v: Value) -> ValueView
    decreases v, 0nat,
{
    match v {
        Value::Lit(l) => ValueView::Lit(l),
        Value::Vector(vs) => ValueView::Vector(values_view(vs@)),
    }
}

/// The mathematical forms of a list of values.
pub open spec fn values_view(s: Seq<Value>) -> Seq<ValueView>
    decreases s, s.len(),
{
    if s.len() == 0 {
        Seq::empty()
    } else {
        values_view(s.subrange(0, s.len() - 1)).push(value_view(s[s.len() - 1]))
    }
}

/// The view of a list has one element per value, each the view of that value.
pub proof fn lemma_values_view(s: Seq<Value>)
    ensures
        values_view(s).len() == s.len(),
        forall|i: int| 0 <= i < s.len() ==> #[trigger] values_view(s)[i] == value_view(s[i]),
    decreases s.len(),
{
    if s.len() > 0 {
        lemma_values_view(s.subrange(0, s.len() - 1));
    }
}

/// Appending a value appends its view.
pub proof fn lemma_values_view_push(s: Seq<Value>, x: Value)
    ensures
        values_view(s.push(x)) == values_view(s).push(value_view(x)),
{
    assert(s.push(x).subrange(0, s.len() as int) =~= s);
}

impl Value {
    /// The value of an optional `i32` result.
    pub fn from_i32(val: Option<i32>) -> (r: Option<Value>)
        ensures
            r == (match val {
                Some(i) => Some(Value::Lit(Lit::I32(i))),
                None => None,
            }),
    {
        match val {
            Some(i) => Some(Value::Lit(Lit::I32(i))),
            None => None,
        }
    }

    /// The value of an optional `u32` result.
    pub fn from_u32(val: Option<u32>) -> (r: Option<Value>)
        ensures
            r == (match val {
                Some(i) => Some(Value::Lit(Lit::U32(i))),
                None => None,
            }),
    {
        match val {
            Some(i) => Some(Value::Lit(Lit::U32(i))),
            None => None,
        }
    }

    /// The value of an optional 32-bit float result, given by its bit pattern.
    pub fn from_f32(val: Option<u32>) -> (r: Option<Value>)
        ensures
            r == (match val {
                Some(i) => Some(Value::Lit(Lit::F32(i))),
                None => None,
            }),
    {
        match val {
            Some(i) => Some(Value::Lit(Lit::F32(i))),
            None => None,
        }
    }

    /// The value of an optional boolean result.
    pub fn from_bool(val: Option<bool>) -> (r: Option<Value>)
        ensures
            r == (match val {
                Some(i) => Some(Value::Lit(Lit::Bool(i))),
                None => None,
            }),
    {
        match val {
            Some(i) => Some(Value::Lit(Lit::Bool(i))),
            None => None,
        }
    }

    /// A copy of the value.
    pub fn copy(&self) -> (r: Value)
        ensures
            value_view(r) == value_view(*self),
        decreases *self,
    {
        match self {
            Value::Lit(l) => Value::Lit(*l),
            Value::Vector(vs) => {
                let mut out: Vec<Value> = Vec::new();
                let mut i: usize = 0;
                proof {
                    lemma_values_view(vs@);
                }
                while i < vs.len()
                    invariant
                        *self == Value::Vector(*vs),
                        i <= vs.len(),
                        out@.len() == i,
                        values_view(out@) == values_view(vs@).subrange(0, i as int),
                        values_view(vs@).len() == vs@.len(),
                        forall|j: int| 0 <= j < vs@.len() ==> #[trigger] values_view(vs@)[j] == value_view(vs@[j]),
                    decreases vs.len() - i,
                {
                    assert(decreases_to!(*self => self->Vector_0));
                    assert(decreases_to!(self->Vector_0 => self->Vector_0@));
                    assert(decreases_to!(self->Vector_0@ => vs@[i as int]));
                    let c = vs[i].copy();
                    proof {
                        lemma_values_view_push(out@, c);
                    }
                    out.push(c);
                    assert(values_view(vs@).subrange(0, i + 1) =~= values_view(vs@).subrange(0, i as int).push(
                        value_view(vs@[i as int]),
                    ));
                    i = i + 1;
                }
                assert(values_view(vs@).subrange(0, vs@.len() as int) =~= values_view(vs@));
                Value::Vector(out)
            },
        }
    }
}

} // verus!
