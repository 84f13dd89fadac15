//! Constant folding of shader expressions: each expression is paired with its value
//! where it is a constant expression, and an expression whose constant value would be
//! invalid (a division by zero, an out-of-range shift, a bad builtin call) is replaced
//! with a default constant of its type.
use crate::ast::expr::{
    lemma_postfix_shape, spec_lit_type, spec_postfix_applies, spec_postfix_type, spec_unop_type, BinOp, BinOpExpr, Expr, ExprNode,
    FnCallExpr, Lit, Postfix, PostfixExpr, TypeConsExpr, UnOp, UnOpExpr, VarExpr,
};
use crate::ast::stmt::{
    AssignmentLhs, AssignmentStatement, Else, ForLoopHeader, ForLoopInit, ForLoopStatement, ForLoopUpdate,
    FnCallStatement, IfStatement, LetDeclStatement, LhsExpr, LhsExprNode, LoopStatement, ReturnStatement, Statement,
    SwitchCase, SwitchStatement, VarDeclStatement,
};
use crate::ast::func::FnDecl;
use crate::ast::globals::GlobalConstDecl;
use crate::ast::module::Module;
use crate::ast::types::{DataType, ScalarType};
use crate::concretizer::eval::{evaluate_bin_op, eval_unop, float_ops_deterministic, spec_binop, spec_unop};
use crate::concretizer::helper::{
    bits_call_args_present, is_invalid_bits_call, is_invalid_clamp_bounds, is_zero, opt_view, opt_views,
    spec_invalid_bits_call, spec_invalid_clamp_bounds, spec_is_zero,
};
use crate::concretizer::value::{lemma_values_view, lemma_values_view_push, value_view, values_view, Value, ValueView};
use crate::strings::str_eq;
use vstd::prelude::*;

verus! {

/// What concretizing an expression depends on: the evaluators of float arithmetic and
/// of builtin calls, whether an invalid expression is an error, and the values of the
/// constants in scope.
pub struct Env<F, B> {
    pub fl: F,
    pub bi: B,
    pub panic_on_invalid: bool,
    pub consts: spec_fn(Seq<char>) -> Option<ValueView>,
}

/// The builtin evaluator answers every call, and gives answers of one value for
/// arguments of one value.
pub open spec fn builtins_deterministic<B: Fn(String, Vec<Value>) -> Option<Option<Value>>>(bi: B) -> bool {
    &&& forall|s: String, vs: Vec<Value>| #[trigger] call_requires(bi, (s, vs))
    &&& forall|s1: String, v1: Vec<Value>, r1: Option<Option<Value>>, s2: String, v2: Vec<Value>, r2: Option<Option<Value>>|
        s1@ == s2@ && values_view(v1@) == values_view(v2@) && #[trigger] call_ensures(bi, (s1, v1), r1)
            && #[trigger] call_ensures(bi, (s2, v2), r2) ==> opt_opt_view(r1) == opt_opt_view(r2)
}

/// The view of a builtin evaluator's answer: `None` for a function it does not know,
/// `Some(None)` for a call without a valid value.
pub open spec fn opt_opt_view(r: Option<Option<Value>>) -> Option<Option<ValueView>> {
    match r {
        None => None,
        Some(v) => Some(opt_view(v)),
    }
}

/// `r` is an answer of the builtin evaluator to a call of `name` on the values `vals`.
pub open spec fn builtin_answers<B: Fn(String, Vec<Value>) -> Option<Option<Value>>>(
    bi: B,
    name: Seq<char>,
    vals: Seq<ValueView>,
    r: Option<Option<Value>>,
) -> bool {
    exists|s: String, vs: Vec<Value>|
        s@ == name && values_view(vs@) == vals && #[trigger] call_ensures(bi, (s, vs), r)
}

/// The builtin evaluator's answer to a call of `name` on the values `vals`.
pub open spec fn builtin_result<B: Fn(String, Vec<Value>) -> Option<Option<Value>>>(
    bi: B,
    name: Seq<char>,
    vals: Seq<ValueView>,
) -> Option<Option<ValueView>> {
    opt_opt_view(choose|r: Option<Option<Value>>| #[trigger] builtin_answers(bi, name, vals, r))
}

/// The constant of a scalar type that stands for an invalid expression.
pub open spec fn default_scalar(t: ScalarType) -> Option<Lit> {
    match t {
        ScalarType::U32 => Some(Lit::U32(1)),
        ScalarType::I32 => Some(Lit::I32(1)),
        ScalarType::F32 => Some(Lit::F32(0x3f80_0000)),
        ScalarType::Bool => Some(Lit::Bool(true)),
        _ => None,
    }
}

/// An invalid expression of type `dt` can be replaced: the error handling allows it
/// and the type is a scalar or vector type with a default constant.
pub open spec fn default_ok<F, B>(env: Env<F, B>, dt: DataType) -> bool {
    !env.panic_on_invalid && match dt {
        DataType::Scalar(t) => default_scalar(t) is Some,
        DataType::Vector(_, t) => default_scalar(t) is Some,
        _ => false,
    }
}

/// The value of the default constant of type `dt`: one in every component.
pub open spec fn default_val(dt: DataType) -> Option<ValueView> {
    match dt {
        DataType::Scalar(t) => Some(ValueView::Lit(default_scalar(t)->0)),
        DataType::Vector(n, t) => Some(ValueView::Vector(Seq::new(n as nat, |i: int| ValueView::Lit(default_scalar(t)->0)))),
        _ => None,
    }
}

/// `o` is the default constant of type `dt`: a literal, or a constructor of literals.
pub open spec fn is_default_node(dt: DataType, o: ExprNode) -> bool {
    match dt {
        DataType::Scalar(t) => o == (ExprNode { data_type: dt, expr: Expr::Lit(default_scalar(t)->0) }),
        DataType::Vector(n, t) => {
            &&& o.data_type == dt
            &&& o.expr matches Expr::TypeCons(tc)
            &&& tc.data_type == dt
            &&& tc.args@.len() == n
            &&& forall|i: int|
                0 <= i < n ==> #[trigger] tc.args@[i] == (ExprNode {
                    data_type: DataType::Scalar(t),
                    expr: Expr::Lit(default_scalar(t)->0),
                })
        },
        _ => false,
    }
}

/// The values of the expressions of `args` from index `k` on.
pub open spec fn arg_vals<F: Fn(BinOp, u32, u32) -> Option<u32>, B: Fn(String, Vec<Value>) -> Option<Option<Value>>>(
    env: Env<F, B>,
    args: Seq<ExprNode>,
    k: int,
) -> Seq<Option<ValueView>>
    decreases args, if k < args.len() { args.len() - k } else { 0 }, 0nat,
{
    if k < 0 || k >= args.len() {
        Seq::empty()
    } else {
        seq![ex_val(env, args[k])] + arg_vals(env, args, k + 1)
    }
}

/// Every value of the list is known.
pub open spec fn all_known(vals: Seq<Option<ValueView>>) -> bool {
    forall|i: int| 0 <= i < vals.len() ==> (#[trigger] vals[i]) is Some
}

/// The known values of a list in which all are known.
pub open spec fn known_vals(vals: Seq<Option<ValueView>>) -> Seq<ValueView> {
    vals.map_values(|v: Option<ValueView>| v->0)
}

/// A `clamp` call whose known bounds are invalid.
pub open spec fn clamp_invalid(vals: Seq<Option<ValueView>>) -> bool {
    &&& vals.len() > 2
    &&& vals[1] is Some
    &&& vals[2] is Some
    &&& spec_invalid_clamp_bounds(vals[1]->0, vals[2]->0)
}

/// A unary operator may be typed on an operand of type `t`.
pub open spec fn unop_typing_ok(op: UnOp, t: DataType) -> bool {
    (op == UnOp::AddressOf || op == UnOp::Deref) ==> (t is Ptr || t is Ref)
}

/// The constant value of an expression, if it has one.
pub open spec fn ex_val<F: Fn(BinOp, u32, u32) -> Option<u32>, B: Fn(String, Vec<Value>) -> Option<Option<Value>>>(
    env: Env<F, B>,
    e: ExprNode,
) -> Option<ValueView>
    decreases e, 0nat, 0nat,
{
    match e.expr {
        Expr::Lit(l) => Some(ValueView::Lit(l)),
        Expr::TypeCons(tc) => {
            let vals = arg_vals(env, tc.args@, 0);
            if all_known(vals) {
                Some(ValueView::Vector(known_vals(vals)))
            } else {
                None
            }
        },
        Expr::UnOp(u) => match ex_val(env, *u.inner) {
            None => None,
            Some(iv) => match spec_unop(u.op, iv) {
                Some(Some(r)) => Some(r),
                _ => default_val(e.data_type),
            },
        },
        Expr::BinOp(b) => {
            let lv = ex_val(env, *b.left);
            let rv = ex_val(env, *b.right);
            if lv is None || rv is None {
                if rv is Some && spec_is_zero(rv->0) && b.op == BinOp::Mod {
                    default_val(e.data_type)
                } else {
                    None
                }
            } else {
                match spec_binop(env.fl, b.op, lv->0, rv->0) {
                    None => default_val(e.data_type),
                    Some(v) => Some(v),
                }
            }
        },
        Expr::FnCall(f) => {
            let vals = arg_vals(env, f.args@, 0);
            if !all_known(vals) {
                if spec_invalid_bits_call(f.ident@, vals) || clamp_invalid(vals) && f.ident@ == "clamp"@ {
                    default_val(e.data_type)
                } else {
                    None
                }
            } else {
                match builtin_result(env.bi, f.ident@, known_vals(vals)) {
                    None => None,
                    Some(Some(v)) => Some(v),
                    Some(None) => default_val(e.data_type),
                }
            }
        },
        Expr::Postfix(_) => None,
        Expr::Var(v) => (env.consts)(v.ident@),
    }
}


/// The type of the node that concretizing an expression gives.
pub open spec fn ex_type<F: Fn(BinOp, u32, u32) -> Option<u32>, B: Fn(String, Vec<Value>) -> Option<Option<Value>>>(
    env: Env<F, B>,
    e: ExprNode,
) -> DataType
    decreases e,
{
    match e.expr {
        Expr::Lit(l) => DataType::Scalar(spec_lit_type(l)),
        Expr::UnOp(u) => match ex_val(env, *u.inner) {
            None => spec_unop_type(u.op, ex_type(env, *u.inner)),
            Some(iv) => match spec_unop(u.op, iv) {
                Some(Some(_)) => spec_unop_type(u.op, ex_type(env, *u.inner)),
                _ => e.data_type,
            },
        },
        Expr::BinOp(b) => {
            let lv = ex_val(env, *b.left);
            let rv = ex_val(env, *b.right);
            if (lv is None || rv is None) && rv is Some && spec_is_zero(rv->0) && b.op == BinOp::Divide {
                ex_type(env, *b.left)
            } else {
                e.data_type
            }
        },
        Expr::Postfix(p) => spec_postfix_type(p.postfix, ex_type(env, *p.inner)),
        _ => e.data_type,
    }
}

/// Concretizing the expression is free of errors: every operator applies to its
/// operands' types, and every invalid subexpression may be replaced by a default.
pub open spec fn ex_ok<F: Fn(BinOp, u32, u32) -> Option<u32>, B: Fn(String, Vec<Value>) -> Option<Option<Value>>>(
    env: Env<F, B>,
    e: ExprNode,
) -> bool
    decreases e,
{
    match e.expr {
        Expr::Lit(_) => true,
        Expr::Var(_) => true,
        Expr::TypeCons(tc) => forall|i: int| 0 <= i < tc.args@.len() ==> ex_ok(env, #[trigger] tc.args@[i]),
        Expr::UnOp(u) => ex_ok(env, *u.inner) && match ex_val(env, *u.inner) {
            None => unop_typing_ok(u.op, ex_type(env, *u.inner)),
            Some(iv) => match spec_unop(u.op, iv) {
                None => false,
                Some(Some(_)) => unop_typing_ok(u.op, ex_type(env, *u.inner)),
                Some(None) => default_ok(env, e.data_type),
            },
        },
        Expr::BinOp(b) => {
            let lv = ex_val(env, *b.left);
            let rv = ex_val(env, *b.right);
            &&& ex_ok(env, *b.left)
            &&& ex_ok(env, *b.right)
            &&& if lv is None || rv is None {
                rv is Some && spec_is_zero(rv->0) && b.op == BinOp::Mod ==> default_ok(env, e.data_type)
            } else {
                spec_binop(env.fl, b.op, lv->0, rv->0) is None ==> default_ok(env, e.data_type)
            }
        },
        Expr::FnCall(f) => {
            let vals = arg_vals(env, f.args@, 0);
            &&& forall|i: int| 0 <= i < f.args@.len() ==> ex_ok(env, #[trigger] f.args@[i])
            &&& if !all_known(vals) {
                &&& bits_call_args_present(f.ident@, vals.len())
                &&& spec_invalid_bits_call(f.ident@, vals) || clamp_invalid(vals) && f.ident@ == "clamp"@
                    ==> default_ok(env, e.data_type)
            } else {
                builtin_result(env.bi, f.ident@, known_vals(vals)) == Some(None::<ValueView>) ==> default_ok(
                    env,
                    e.data_type,
                )
            }
        },
        Expr::Postfix(p) => {
            &&& ex_ok(env, *p.inner)
            &&& match p.postfix {
                Postfix::Index(ix) => ex_ok(env, *ix),
                Postfix::Member(_) => true,
            }
            &&& spec_postfix_applies(p.postfix, ex_type(env, *p.inner))
        },
    }
}

/// `o` is the node that concretizing the expression `e` gives: the expression rebuilt
/// from its concretized parts, or a default constant where its value is invalid.
pub open spec fn conc_node<F: Fn(BinOp, u32, u32) -> Option<u32>, B: Fn(String, Vec<Value>) -> Option<Option<Value>>>(
    env: Env<F, B>,
    e: ExprNode,
    o: ExprNode,
) -> bool
    decreases e,
{
    &&& o.data_type == ex_type(env, e)
    &&& match e.expr {
        Expr::Lit(l) => o.expr == Expr::Lit(l),
        Expr::Var(v) => o == e,
        Expr::TypeCons(tc) => {
            &&& o.expr matches Expr::TypeCons(tc2)
            &&& tc2.data_type == e.data_type
            &&& tc2.args@.len() == tc.args@.len()
            &&& forall|i: int| 0 <= i < tc.args@.len() ==> conc_node(env, #[trigger] tc.args@[i], tc2.args@[i])
        },
        Expr::UnOp(u) => {
            let iv = ex_val(env, *u.inner);
            if iv is Some && !(spec_unop(u.op, iv->0) matches Some(Some(_))) {
                is_default_node(e.data_type, o)
            } else {
                &&& o.expr matches Expr::UnOp(u2)
                &&& u2.op == u.op
                &&& conc_node(env, *u.inner, *u2.inner)
            }
        },
        Expr::BinOp(b) => {
            let lv = ex_val(env, *b.left);
            let rv = ex_val(env, *b.right);
            if lv is None || rv is None {
                if rv is Some && spec_is_zero(rv->0) && b.op == BinOp::Divide {
                    conc_node(env, *b.left, o)
                } else if rv is Some && spec_is_zero(rv->0) && b.op == BinOp::Mod {
                    is_default_node(e.data_type, o)
                } else {
                    &&& o.expr matches Expr::BinOp(b2)
                    &&& b2.op == b.op
                    &&& conc_node(env, *b.left, *b2.left)
                    &&& conc_node(env, *b.right, *b2.right)
                }
            } else if spec_binop(env.fl, b.op, lv->0, rv->0) is None {
                is_default_node(e.data_type, o)
            } else {
                &&& o.expr matches Expr::BinOp(b2)
                &&& b2.op == b.op
                &&& conc_node(env, *b.left, *b2.left)
                &&& conc_node(env, *b.right, *b2.right)
            }
        },
        Expr::FnCall(f) => {
            let vals = arg_vals(env, f.args@, 0);
            let invalid = if !all_known(vals) {
                spec_invalid_bits_call(f.ident@, vals) || clamp_invalid(vals) && f.ident@ == "clamp"@
            } else {
                builtin_result(env.bi, f.ident@, known_vals(vals)) == Some(None::<ValueView>)
            };
            if invalid {
                is_default_node(e.data_type, o)
            } else {
                &&& o.expr matches Expr::FnCall(f2)
                &&& f2.ident == f.ident
                &&& f2.args@.len() == f.args@.len()
                &&& forall|i: int| 0 <= i < f.args@.len() ==> conc_node(env, #[trigger] f.args@[i], f2.args@[i])
            }
        },
        Expr::Postfix(p) => {
            &&& o.expr matches Expr::Postfix(p2)
            &&& conc_node(env, *p.inner, *p2.inner)
            &&& match p.postfix {
                Postfix::Index(ix) => p2.postfix matches Postfix::Index(ix2) && conc_node(env, *ix, *ix2),
                Postfix::Member(m) => p2.postfix == Postfix::Member(m),
            }
        },
    }
}


/// The values of `arg_vals` are those of the arguments, one each.
proof fn lemma_arg_vals<F: Fn(BinOp, u32, u32) -> Option<u32>, B: Fn(String, Vec<Value>) -> Option<Option<Value>>>(
    env: Env<F, B>,
    args: Seq<ExprNode>,
    k: int,
)
    requires
        0 <= k <= args.len(),
    ensures
        arg_vals(env, args, k).len() == args.len() - k,
        forall|i: int| k <= i < args.len() ==> #[trigger] arg_vals(env, args, k)[i - k] == ex_val(env, args[i]),
    decreases args.len() - k,
{
    if k < args.len() {
        lemma_arg_vals(env, args, k + 1);
        assert forall|i: int| k <= i < args.len() implies #[trigger] arg_vals(env, args, k)[i - k] == ex_val(
            env,
            args[i],
        ) by {
            if i > k {
                assert(arg_vals(env, args, k)[i - k] == arg_vals(env, args, k + 1)[i - (k + 1)]);
            }
        }
    }
}

/// What to do with an expression whose constant value is invalid.
#[derive(Clone, Copy, Debug, PartialEq, Eq, Structural)]
pub enum ErrorHandling {
    /// Replace it with a default constant of its type.
    ReplaceWithDefault,
    /// Treat it as an error.
    Panic,
}

impl Default for ErrorHandling {
    fn default() -> (r: Self)
        ensures
            r == ErrorHandling::ReplaceWithDefault,
    {
        ErrorHandling::ReplaceWithDefault
    }
}

/// Options of the concretizer.
pub struct Options {
    pub error_handling: ErrorHandling,
}

impl Default for Options {
    fn default() -> (r: Self)
        ensures
            r.error_handling == ErrorHandling::ReplaceWithDefault,
    {
        Options { error_handling: ErrorHandling::ReplaceWithDefault }
    }
}

/// A concretized expression, with its value where it is a constant expression.
pub struct ConcreteNode {
    pub node: ExprNode,
    pub value: Option<Value>,
}

/// The value bound to `name` by a list of bindings: the last binding of it, if any.
pub open spec fn entries_lookup(entries: Seq<(String, Value)>, name: Seq<char>) -> Option<ValueView>
    decreases entries.len(),
{
    if entries.len() == 0 {
        None
    } else if entries.last().0@ == name {
        Some(value_view(entries.last().1))
    } else {
        entries_lookup(entries.drop_last(), name)
    }
}

/// The value bound to `name` by the innermost scope that binds it, or else by the
/// global bindings.
pub open spec fn scopes_lookup(scopes: Seq<Vec<(String, Value)>>, globals: Seq<(String, Value)>, name: Seq<char>) -> Option<ValueView>
    decreases scopes.len(),
{
    if scopes.len() == 0 {
        entries_lookup(globals, name)
    } else {
        match entries_lookup(scopes.last()@, name) {
            Some(v) => Some(v),
            None => scopes_lookup(scopes.drop_last(), globals, name),
        }
    }
}

/// The state of constant folding: the error handling, and the constants in scope.
pub struct Concretizer {
    error_handling: ErrorHandling,
    global_constants: Vec<(String, Value)>,
    local_scopes: Vec<Vec<(String, Value)>>,
}

impl Concretizer {
    /// An invalid expression is an error rather than replaced.
    pub closed spec fn panics(&self) -> bool {
        self.error_handling == ErrorHandling::Panic
    }

    /// The value of each constant in scope.
    pub closed spec fn consts(&self) -> spec_fn(Seq<char>) -> Option<ValueView> {
        |name: Seq<char>| scopes_lookup(self.local_scopes@, self.global_constants@, name)
    }

    /// The global constants, in the order in which they were registered.
    pub closed spec fn globals(&self) -> Seq<(String, Value)> {
        self.global_constants@
    }

    /// What concretizing depends on, with the given evaluators.
    pub open spec fn env<F, B>(&self, fl: F, bi: B) -> Env<F, B> {
        Env { fl, bi, panic_on_invalid: self.panics(), consts: self.consts() }
    }

    /// A concretizer with the given options and no constants.
    pub fn new(options: Options) -> (r: Concretizer)
        ensures
            r.panics() == (options.error_handling == ErrorHandling::Panic),
            r.globals().len() == 0,
            forall|name: Seq<char>| #[trigger] (r.consts())(name) is None,
    {
        Concretizer { error_handling: options.error_handling, global_constants: Vec::new(), local_scopes: Vec::new() }
    }

    fn enter_scope(&mut self)
        ensures
            final(self).error_handling == old(self).error_handling,
            final(self).global_constants == old(self).global_constants,
            final(self).local_scopes@.len() == old(self).local_scopes@.len() + 1,
            final(self).local_scopes@.drop_last() == old(self).local_scopes@,
            final(self).local_scopes@.last()@.len() == 0,
            final(self).consts() == old(self).consts(),
    {
        let ghost before = self.consts();
        self.local_scopes.push(Vec::new());
        proof {
            assert(self.local_scopes@.drop_last() =~= old(self).local_scopes@);
            assert(self.consts() =~= before) by {
                assert forall|name: Seq<char>| #[trigger] (self.consts())(name) == before(name) by {
                    assert(entries_lookup(self.local_scopes@.last()@, name) is None);
                }
            }
        }
    }

    fn exit_scope(&mut self)
        requires
            old(self).local_scopes@.len() > 0,
        ensures
            final(self).error_handling == old(self).error_handling,
            final(self).global_constants == old(self).global_constants,
            final(self).local_scopes@ == old(self).local_scopes@.drop_last(),
    {
        self.local_scopes.pop();
    }

    /// The value of the constant `name` in scope.
    fn lookup_const(&self, name: &str) -> (r: Option<Value>)
        ensures
            opt_view(r) == (self.consts())(name@),
    {
        let mut k: usize = self.local_scopes.len();
        assert(self.local_scopes@.subrange(0, k as int) =~= self.local_scopes@);
        while k > 0
            invariant
                k <= self.local_scopes.len(),
                scopes_lookup(self.local_scopes@, self.global_constants@, name@) == scopes_lookup(
                    self.local_scopes@.subrange(0, k as int),
                    self.global_constants@,
                    name@,
                ),
            decreases k,
        {
            let scope = &self.local_scopes[k - 1];
            assert(self.local_scopes@.subrange(0, k as int).drop_last() =~= self.local_scopes@.subrange(0, k - 1));
            if let Some(v) = lookup_entries(scope, name) {
                return Some(v);
            }
            k = k - 1;
        }
        assert(self.local_scopes@.subrange(0, 0) =~= Seq::<Vec<(String, Value)>>::empty());
        lookup_entries(&self.global_constants, name)
    }
}

/// The value bound to `name` by a list of bindings.
fn lookup_entries(entries: &Vec<(String, Value)>, name: &str) -> (r: Option<Value>)
    ensures
        opt_view(r) == entries_lookup(entries@, name@),
{
    let mut k: usize = entries.len();
    assert(entries@.subrange(0, k as int) =~= entries@);
    while k > 0
        invariant
            k <= entries.len(),
            entries_lookup(entries@, name@) == entries_lookup(entries@.subrange(0, k as int), name@),
        decreases k,
    {
        assert(entries@.subrange(0, k as int).drop_last() =~= entries@.subrange(0, k - 1));
        if str_eq(entries[k - 1].0.as_str(), name) {
            return Some(entries[k - 1].1.copy());
        }
        k = k - 1;
    }
    None
}


/// `nodes` are the concretized forms of `args`, one each, with their values.
pub open spec fn conc_args<F: Fn(BinOp, u32, u32) -> Option<u32>, B: Fn(String, Vec<Value>) -> Option<Option<Value>>>(
    env: Env<F, B>,
    args: Seq<ExprNode>,
    nodes: Seq<ConcreteNode>,
) -> bool {
    &&& nodes.len() == args.len()
    &&& forall|i: int|
        0 <= i < args.len() ==> conc_node(env, args[i], (#[trigger] nodes[i]).node) && opt_view(nodes[i].value)
            == ex_val(env, args[i])
}

/// The values of all-known optional values.
fn unwrap_known(vals: Vec<Option<Value>>) -> (r: Vec<Value>)
    requires
        all_known(opt_views(vals@)),
    ensures
        values_view(r@) == known_vals(opt_views(vals@)),
{
    let ghost orig = vals@;
    let total = vals.len();
    let mut rest = vals;
    let mut out: Vec<Value> = Vec::new();
    let mut i: usize = 0;
    while rest.len() > 0
        invariant
            total == orig.len(),
            all_known(opt_views(orig)),
            i <= orig.len(),
            rest@ == orig.subrange(i as int, orig.len() as int),
            values_view(out@) == known_vals(opt_views(orig)).subrange(0, i as int),
        decreases rest.len(),
    {
        let v = rest.remove(0);
        assert(v == orig[i as int]);
        assert(opt_views(orig)[i as int] is Some);
        let x = v.unwrap();
        proof {
            lemma_values_view_push(out@, x);
            assert(known_vals(opt_views(orig)).subrange(0, i + 1) =~= known_vals(opt_views(orig)).subrange(0, i as int).push(
                value_view(x),
            ));
        }
        out.push(x);
        i = i + 1;
    }
    assert(known_vals(opt_views(orig)).subrange(0, orig.len() as int) =~= known_vals(opt_views(orig)));
    out
}

impl Concretizer {
    /// The default constant that replaces an invalid expression of type `data_type`:
    /// one in every component.
    fn default_node<F, B>(&self, Ghost(env): Ghost<Env<F, B>>, data_type: DataType) -> (r: ConcreteNode)
        requires
            env.panic_on_invalid == self.panics(),
            default_ok(env, data_type),
        ensures
            is_default_node(data_type, r.node),
            r.node.data_type == data_type,
            opt_view(r.value) == default_val(data_type),
    {
        match data_type {
            DataType::Scalar(ty) => {
                let lit = match ty {
                    ScalarType::U32 => Lit::U32(1),
                    ScalarType::I32 => Lit::I32(1),
                    ScalarType::F32 => Lit::F32(0x3f80_0000),
                    _ => Lit::Bool(true),
                };
                ConcreteNode { node: ExprNode::from_lit(lit), value: Some(Value::Lit(lit)) }
            },
            DataType::Vector(size, ty) => {
                let lit = match ty {
                    ScalarType::U32 => Lit::U32(1),
                    ScalarType::I32 => Lit::I32(1),
                    ScalarType::F32 => Lit::F32(0x3f80_0000),
                    _ => Lit::Bool(true),
                };
                let mut args: Vec<ExprNode> = Vec::new();
                let mut vals: Vec<Value> = Vec::new();
                let mut i: u8 = 0;
                while i < size
                    invariant
                        i <= size,
                        lit == default_scalar(ty)->0,
                        spec_lit_type(lit) == ty,
                        args@.len() == i,
                        vals@.len() == i,
                        forall|j: int|
                            0 <= j < i ==> #[trigger] args@[j] == (ExprNode {
                                data_type: DataType::Scalar(ty),
                                expr: Expr::Lit(lit),
                            }),
                        forall|j: int| 0 <= j < i ==> #[trigger] vals@[j] == Value::Lit(lit),
                    decreases size - i,
                {
                    args.push(ExprNode::from_lit(lit));
                    vals.push(Value::Lit(lit));
                    i = i + 1;
                }
                proof {
                    lemma_values_view(vals@);
                    assert(values_view(vals@) =~= Seq::new(size as nat, |j: int| ValueView::Lit(lit)));
                }
                let node = TypeConsExpr::new(data_type, args).into_node();
                ConcreteNode { node, value: Some(Value::Vector(vals)) }
            },
            _ => ConcreteNode { node: ExprNode::from_lit(Lit::Bool(true)), value: None },
        }
    }

    fn concretize_lit(&self, lit: Lit) -> (r: ConcreteNode)
        ensures
            r.node == (ExprNode { data_type: DataType::Scalar(spec_lit_type(lit)), expr: Expr::Lit(lit) }),
            opt_view(r.value) == Some(ValueView::Lit(lit)),
    {
        ConcreteNode { node: ExprNode { data_type: lit.data_type(), expr: Expr::Lit(lit) }, value: Some(Value::Lit(lit)) }
    }

    /// Whether some value is unknown.
    fn contains_none(&self, vals: &Vec<Option<Value>>) -> (r: bool)
        ensures
            r == !all_known(opt_views(vals@)),
    {
        let mut i: usize = 0;
        while i < vals.len()
            invariant
                i <= vals.len(),
                forall|j: int| 0 <= j < i ==> (#[trigger] opt_views(vals@)[j]) is Some,
            decreases vals.len() - i,
        {
            if vals[i].is_none() {
                assert(opt_views(vals@)[i as int] is None);
                return true;
            }
            i = i + 1;
        }
        false
    }

    /// Splits concretized expressions into their nodes and their values.
    fn decompose_vec_con(&self, vec: Vec<ConcreteNode>) -> (r: (Vec<ExprNode>, Vec<Option<Value>>))
        ensures
            r.0@.len() == vec@.len(),
            r.1@.len() == vec@.len(),
            forall|i: int| 0 <= i < vec@.len() ==> #[trigger] r.0@[i] == vec@[i].node,
            forall|i: int| 0 <= i < vec@.len() ==> #[trigger] r.1@[i] == vec@[i].value,
    {
        let ghost orig = vec@;
        let total = vec.len();
        let mut rest = vec;
        let mut new_node: Vec<ExprNode> = Vec::new();
        let mut new_val: Vec<Option<Value>> = Vec::new();
        let mut i: usize = 0;
        while rest.len() > 0
            invariant
                total == orig.len(),
                i <= orig.len(),
                rest@ == orig.subrange(i as int, orig.len() as int),
                new_node@.len() == i,
                new_val@.len() == i,
                forall|j: int| 0 <= j < i ==> #[trigger] new_node@[j] == orig[j].node,
                forall|j: int| 0 <= j < i ==> #[trigger] new_val@[j] == orig[j].value,
            decreases rest.len(),
        {
            let c = rest.remove(0);
            assert(c == orig[i as int]);
            let ConcreteNode { node, value } = c;
            new_node.push(node);
            new_val.push(value);
            i = i + 1;
        }
        (new_node, new_val)
    }
}


impl Concretizer {
    /// Rebuilds a constructor from its concretized arguments; it is constant if they all are.
    fn concretize_typecons<F: Fn(BinOp, u32, u32) -> Option<u32>, B: Fn(String, Vec<Value>) -> Option<Option<Value>>>(
        &self,
        Ghost(env): Ghost<Env<F, B>>,
        Ghost(e): Ghost<ExprNode>,
        data_type: DataType,
        args: Vec<ConcreteNode>,
    ) -> (r: ConcreteNode)
        requires
            e.expr is TypeCons,
            data_type == e.data_type,
            conc_args(env, e.expr->TypeCons_0.args@, args@),
        ensures
            conc_node(env, e, r.node),
            opt_view(r.value) == ex_val(env, e),
    {
        let ghost tc = e.expr->TypeCons_0;
        let (new_node, new_val) = self.decompose_vec_con(args);
        proof {
            lemma_arg_vals(env, tc.args@, 0);
            assert(opt_views(new_val@) =~= arg_vals(env, tc.args@, 0)) by {
                assert forall|i: int| 0 <= i < tc.args@.len() implies opt_views(new_val@)[i] == #[trigger] arg_vals(
                    env,
                    tc.args@,
                    0,
                )[i] by {
                    assert(arg_vals(env, tc.args@, 0)[i - 0] == ex_val(env, tc.args@[i]));
                }
            }
        }
        let value = if self.contains_none(&new_val) {
            None
        } else {
            Some(Value::Vector(unwrap_known(new_val)))
        };
        let node = TypeConsExpr::new(data_type, new_node).into_node();
        ConcreteNode { node, value }
    }

    /// A unary operator on a concretized operand: evaluated where the operand is constant,
    /// and replaced by a default where the result is invalid.
    fn concretize_unop<F: Fn(BinOp, u32, u32) -> Option<u32>, B: Fn(String, Vec<Value>) -> Option<Option<Value>>>(
        &self,
        Ghost(env): Ghost<Env<F, B>>,
        Ghost(e): Ghost<ExprNode>,
        data_type: DataType,
        op: UnOp,
        inner: ConcreteNode,
    ) -> (r: ConcreteNode)
        requires
            env.panic_on_invalid == self.panics(),
            e.expr is UnOp,
            e.expr->UnOp_0.op == op,
            data_type == e.data_type,
            conc_node(env, *e.expr->UnOp_0.inner, inner.node),
            opt_view(inner.value) == ex_val(env, *e.expr->UnOp_0.inner),
            ex_ok(env, e),
        ensures
            conc_node(env, e, r.node),
            opt_view(r.value) == ex_val(env, e),
    {
        match inner.value {
            None => ConcreteNode { node: UnOpExpr::new(op, inner.node).into_node(), value: None },
            Some(v) => {
                let result = eval_unop(op, &v);
                match result {
                    Some(r) => ConcreteNode { node: UnOpExpr::new(op, inner.node).into_node(), value: Some(r) },
                    None => self.default_node::<F, B>(Ghost(env), data_type),
                }
            },
        }
    }

    /// A binary operator on concretized operands: evaluated where both are constant; a
    /// known zero divisor drops the division, and makes a remainder a default.
    fn concretize_bin_op<F: Fn(BinOp, u32, u32) -> Option<u32>, B: Fn(String, Vec<Value>) -> Option<Option<Value>>>(
        &self,
        fl: &F,
        Ghost(env): Ghost<Env<F, B>>,
        Ghost(e): Ghost<ExprNode>,
        data_type: DataType,
        op: BinOp,
        left: ConcreteNode,
        right: ConcreteNode,
    ) -> (r: ConcreteNode)
        requires
            float_ops_deterministic(*fl),
            env.fl == *fl,
            env.panic_on_invalid == self.panics(),
            e.expr is BinOp,
            e.expr->BinOp_0.op == op,
            data_type == e.data_type,
            conc_node(env, *e.expr->BinOp_0.left, left.node),
            opt_view(left.value) == ex_val(env, *e.expr->BinOp_0.left),
            conc_node(env, *e.expr->BinOp_0.right, right.node),
            opt_view(right.value) == ex_val(env, *e.expr->BinOp_0.right),
            ex_ok(env, e),
        ensures
            conc_node(env, e, r.node),
            opt_view(r.value) == ex_val(env, e),
    {
        if left.value.is_none() || right.value.is_none() {
            if let Some(r_val) = &right.value {
                if is_zero(r_val) {
                    match op {
                        BinOp::Divide => {
                            return ConcreteNode { node: left.node, value: None };
                        },
                        BinOp::Mod => {
                            return self.default_node::<F, B>(Ghost(env), data_type);
                        },
                        _ => {},
                    }
                }
            }
            let ConcreteNode { node: left_node, value: _ } = left;
            let ConcreteNode { node: right_node, value: _ } = right;
            return ConcreteNode {
                node: ExprNode { data_type, expr: Expr::BinOp(BinOpExpr::new(op, left_node, right_node)) },
                value: None,
            };
        }
        let value = match (&left.value, &right.value) {
            (Some(l), Some(r)) => evaluate_bin_op(fl, op, l, r),
            _ => None,
        };
        if value.is_none() {
            self.default_node::<F, B>(Ghost(env), data_type)
        } else {
            let ConcreteNode { node: left_node, value: _ } = left;
            let ConcreteNode { node: right_node, value: _ } = right;
            ConcreteNode {
                node: ExprNode { data_type, expr: Expr::BinOp(BinOpExpr::new(op, left_node, right_node)) },
                value,
            }
        }
    }
}


/// The answer of the builtin evaluator is the one it gives.
proof fn lemma_builtin_result<B: Fn(String, Vec<Value>) -> Option<Option<Value>>>(
    bi: B,
    s: String,
    vs: Vec<Value>,
    r: Option<Option<Value>>,
)
    requires
        builtins_deterministic(bi),
        call_ensures(bi, (s, vs), r),
    ensures
        builtin_result(bi, s@, values_view(vs@)) == opt_opt_view(r),
{
    assert(builtin_answers(bi, s@, values_view(vs@), r));
    let c = choose|c: Option<Option<Value>>| #[trigger] builtin_answers(bi, s@, values_view(vs@), c);
    assert(builtin_answers(bi, s@, values_view(vs@), c));
    let (s2, vs2) = choose|s2: String, vs2: Vec<Value>|
        s2@ == s@ && values_view(vs2@) == values_view(vs@) && #[trigger] call_ensures(bi, (s2, vs2), c);
    assert(call_ensures(bi, (s2, vs2), c));
}

impl Concretizer {
    /// A call with concretized arguments: a builtin call on constants is evaluated, and a
    /// call that is invalid on its known arguments is replaced by a default.
    fn concretize_fncall<F: Fn(BinOp, u32, u32) -> Option<u32>, B: Fn(String, Vec<Value>) -> Option<Option<Value>>>(
        &self,
        bi: &B,
        Ghost(env): Ghost<Env<F, B>>,
        Ghost(e): Ghost<ExprNode>,
        data_type: DataType,
        ident: String,
        args: Vec<ConcreteNode>,
    ) -> (r: ConcreteNode)
        requires
            builtins_deterministic(*bi),
            env.bi == *bi,
            env.panic_on_invalid == self.panics(),
            e.expr is FnCall,
            e.expr->FnCall_0.ident == ident,
            data_type == e.data_type,
            conc_args(env, e.expr->FnCall_0.args@, args@),
            ex_ok(env, e),
        ensures
            conc_node(env, e, r.node),
            opt_view(r.value) == ex_val(env, e),
    {
        let ghost f = e.expr->FnCall_0;
        let (nodes, vals) = self.decompose_vec_con(args);
        proof {
            lemma_arg_vals(env, f.args@, 0);
            assert(opt_views(vals@) =~= arg_vals(env, f.args@, 0)) by {
                assert forall|i: int| 0 <= i < f.args@.len() implies opt_views(vals@)[i] == #[trigger] arg_vals(
                    env,
                    f.args@,
                    0,
                )[i] by {
                    assert(arg_vals(env, f.args@, 0)[i - 0] == ex_val(env, f.args@[i]));
                }
            }
        }
        if self.contains_none(&vals) {
            if is_invalid_bits_call(ident.as_str(), vals.as_slice()) {
                return self.default_node::<F, B>(Ghost(env), data_type);
            }
            if str_eq(ident.as_str(), "clamp") && vals.len() > 2 {
                if let (Some(low), Some(high)) = (&vals[1], &vals[2]) {
                    if is_invalid_clamp_bounds(low, high) {
                        return self.default_node::<F, B>(Ghost(env), data_type);
                    }
                }
            }
            return ConcreteNode { node: FnCallExpr::new(ident, nodes).into_node(data_type), value: None };
        }
        let known = unwrap_known(vals);
        let name = ident.clone();
        let ghost name_g = name;
        let ghost known_g = known;
        let answer = bi(name, known);
        proof {
            lemma_builtin_result(*bi, name_g, known_g, answer);
        }
        match answer {
            Some(Some(v)) => ConcreteNode { node: FnCallExpr::new(ident, nodes).into_node(data_type), value: Some(v) },
            Some(None) => self.default_node::<F, B>(Ghost(env), data_type),
            None => ConcreteNode { node: FnCallExpr::new(ident, nodes).into_node(data_type), value: None },
        }
    }

    /// Concretizes each expression of a list.
    fn concretize_args<F: Fn(BinOp, u32, u32) -> Option<u32>, B: Fn(String, Vec<Value>) -> Option<Option<Value>>>(
        &self,
        fl: &F,
        bi: &B,
        args: &Vec<ExprNode>,
    ) -> (r: Vec<ConcreteNode>)
        requires
            float_ops_deterministic(*fl),
            builtins_deterministic(*bi),
            forall|i: int| 0 <= i < args@.len() ==> ex_ok(self.env(*fl, *bi), #[trigger] args@[i]),
        ensures
            conc_args(self.env(*fl, *bi), args@, r@),
        decreases *args, 1nat,
    {
        let mut out: Vec<ConcreteNode> = Vec::new();
        let mut i: usize = 0;
        while i < args.len()
            invariant
                float_ops_deterministic(*fl),
                builtins_deterministic(*bi),
                forall|j: int| 0 <= j < args@.len() ==> ex_ok(self.env(*fl, *bi), #[trigger] args@[j]),
                i <= args.len(),
                out@.len() == i,
                forall|j: int|
                    0 <= j < i ==> conc_node(self.env(*fl, *bi), args@[j], (#[trigger] out@[j]).node) && opt_view(
                        out@[j].value,
                    ) == ex_val(self.env(*fl, *bi), args@[j]),
            decreases args.len() - i,
        {
            assert(decreases_to!(*args => args@));
            assert(decreases_to!(args@ => args@[i as int]));
            let c = self.concretize_expr(fl, bi, &args[i]);
            out.push(c);
            i = i + 1;
        }
        out
    }

    /// A postfix expression with its operand and index concretized; it is never constant.
    fn concretize_postfix<F: Fn(BinOp, u32, u32) -> Option<u32>, B: Fn(String, Vec<Value>) -> Option<Option<Value>>>(
        &self,
        fl: &F,
        bi: &B,
        Ghost(e): Ghost<ExprNode>,
        expr: &PostfixExpr,
    ) -> (r: ConcreteNode)
        requires
            float_ops_deterministic(*fl),
            builtins_deterministic(*bi),
            e.expr == Expr::Postfix(*expr),
            ex_ok(self.env(*fl, *bi), e),
        ensures
            conc_node(self.env(*fl, *bi), e, r.node),
            opt_view(r.value) == ex_val(self.env(*fl, *bi), e),
        decreases *expr, 0nat,
    {
        assert(decreases_to!(*expr => *expr.inner));
        let inner = self.concretize_expr(fl, bi, &expr.inner);
        let postfix = match &expr.postfix {
            Postfix::Index(index) => {
                assert(decreases_to!(*expr => expr.postfix));
                assert(decreases_to!(expr.postfix => **index));
                Postfix::Index(Box::new(self.concretize_expr(fl, bi, &index).node))
            },
            Postfix::Member(string) => Postfix::Member(string.clone()),
        };
        proof {
            lemma_postfix_shape(expr.postfix, postfix, inner.node.data_type);
        }
        ConcreteNode { node: PostfixExpr::new(inner.node, postfix).into_node(), value: None }
    }

    /// Concretizes an expression: the rebuilt expression, with its value where it is a
    /// constant expression.
    #[verifier::rlimit(40)]
    fn concretize_expr<F: Fn(BinOp, u32, u32) -> Option<u32>, B: Fn(String, Vec<Value>) -> Option<Option<Value>>>(
        &self,
        fl: &F,
        bi: &B,
        node: &ExprNode,
    ) -> (r: ConcreteNode)
        requires
            float_ops_deterministic(*fl),
            builtins_deterministic(*bi),
            ex_ok(self.env(*fl, *bi), *node),
        ensures
            conc_node(self.env(*fl, *bi), *node, r.node),
            opt_view(r.value) == ex_val(self.env(*fl, *bi), *node),
        decreases *node, 0nat,
    {
        let ghost env = self.env(*fl, *bi);
        match &node.expr {
            Expr::Lit(lit) => self.concretize_lit(*lit),
            Expr::TypeCons(expr) => {
                assert(decreases_to!(*node => node.expr));
                assert(decreases_to!(node.expr => expr.args));
                let args = self.concretize_args(fl, bi, &expr.args);
                self.concretize_typecons::<F, B>(Ghost(env), Ghost(*node), node.data_type.clone(), args)
            },
            Expr::UnOp(expr) => {
                assert(decreases_to!(*node => node.expr));
                assert(decreases_to!(node.expr => *expr.inner));
                let inner = self.concretize_expr(fl, bi, &expr.inner);
                self.concretize_unop::<F, B>(Ghost(env), Ghost(*node), node.data_type.clone(), expr.op, inner)
            },
            Expr::BinOp(expr) => {
                assert(decreases_to!(*node => node.expr));
                assert(decreases_to!(node.expr => *expr.left));
                assert(decreases_to!(node.expr => *expr.right));
                let left = self.concretize_expr(fl, bi, &expr.left);
                let right = self.concretize_expr(fl, bi, &expr.right);
                self.concretize_bin_op::<F, B>(fl, Ghost(env), Ghost(*node), node.data_type.clone(), expr.op, left, right)
            },
            Expr::FnCall(expr) => {
                assert(decreases_to!(*node => node.expr));
                assert(decreases_to!(node.expr => expr.args));
                let args = self.concretize_args(fl, bi, &expr.args);
                self.concretize_fncall::<F, B>(bi, Ghost(env), Ghost(*node), node.data_type.clone(), expr.ident.clone(), args)
            },
            Expr::Postfix(expr) => {
                assert(decreases_to!(*node => node.expr));
                assert(decreases_to!(node.expr => *expr));
                self.concretize_postfix(fl, bi, Ghost(*node), expr)
            },
            Expr::Var(expr) => {
                let value = self.lookup_const(expr.ident.as_str());
                ConcreteNode {
                    node: ExprNode { data_type: node.data_type.clone(), expr: Expr::Var(VarExpr { ident: expr.ident.clone() }) },
                    value,
                }
            },
        }
    }
}


/// Concretizing an optional expression is free of errors.
pub open spec fn opt_ok<F: Fn(BinOp, u32, u32) -> Option<u32>, B: Fn(String, Vec<Value>) -> Option<Option<Value>>>(
    env: Env<F, B>,
    e: Option<ExprNode>,
) -> bool {
    match e {
        None => true,
        Some(x) => ex_ok(env, x),
    }
}

/// `o` is the optional expression `e` concretized.
pub open spec fn conc_opt<F: Fn(BinOp, u32, u32) -> Option<u32>, B: Fn(String, Vec<Value>) -> Option<Option<Value>>>(
    env: Env<F, B>,
    e: Option<ExprNode>,
    o: Option<ExprNode>,
) -> bool {
    match e {
        None => o is None,
        Some(x) => o matches Some(y) && conc_node(env, x, y),
    }
}

/// Concretizing the assignable expression is free of errors: it is made of names,
/// members and indices, and its indices concretize without error.
pub open spec fn lhs_ok<F: Fn(BinOp, u32, u32) -> Option<u32>, B: Fn(String, Vec<Value>) -> Option<Option<Value>>>(
    env: Env<F, B>,
    l: LhsExprNode,
) -> bool
    decreases l,
{
    match l.expr {
        LhsExpr::Ident(_) => true,
        LhsExpr::Postfix(inner, p) => lhs_ok(env, *inner) && match p {
            Postfix::Index(ix) => ex_ok(env, *ix),
            Postfix::Member(_) => true,
        },
        _ => false,
    }
}

/// `o` is the assignable expression `l` with its indices concretized.
pub open spec fn conc_lhs<F: Fn(BinOp, u32, u32) -> Option<u32>, B: Fn(String, Vec<Value>) -> Option<Option<Value>>>(
    env: Env<F, B>,
    l: LhsExprNode,
    o: LhsExprNode,
) -> bool
    decreases l,
{
    &&& o.data_type == l.data_type
    &&& match l.expr {
        LhsExpr::Ident(name) => o.expr == LhsExpr::Ident(name),
        LhsExpr::Postfix(inner, p) => {
            &&& o.expr matches LhsExpr::Postfix(inner2, p2)
            &&& conc_lhs(env, *inner, *inner2)
            &&& match p {
                Postfix::Index(ix) => p2 matches Postfix::Index(ix2) && conc_node(env, *ix, *ix2),
                Postfix::Member(m) => p2 == Postfix::Member(m),
            }
        },
        _ => false,
    }
}

/// Concretizing the statement is free of errors.
pub open spec fn stmt_ok<F: Fn(BinOp, u32, u32) -> Option<u32>, B: Fn(String, Vec<Value>) -> Option<Option<Value>>>(
    env: Env<F, B>,
    s: Statement,
) -> bool
    decreases s, 0nat,
{
    match s {
        Statement::LetDecl(l) => ex_ok(env, l.initializer),
        Statement::VarDecl(v) => opt_ok(env, v.initializer),
        Statement::Assignment(a) => ex_ok(env, a.rhs),
        Statement::Compound(ss) => forall|i: int| 0 <= i < ss@.len() ==> stmt_ok(env, #[trigger] ss@[i]),
        Statement::If(i) => if_ok(env, i),
        Statement::Return(r) => opt_ok(env, r.value),
        Statement::Loop(l) => forall|i: int| 0 <= i < l.body@.len() ==> stmt_ok(env, #[trigger] l.body@[i]),
        Statement::Switch(sw) => {
            &&& ex_ok(env, sw.selector)
            &&& forall|i: int| 0 <= i < sw.cases@.len() ==> case_ok(env, #[trigger] sw.cases@[i])
            &&& forall|i: int| 0 <= i < sw.default@.len() ==> stmt_ok(env, #[trigger] sw.default@[i])
        },
        Statement::ForLoop(f) => {
            &&& match f.header.init {
                Some(ForLoopInit::VarDecl(v)) => opt_ok(env, v.initializer),
                None => true,
            }
            &&& opt_ok(env, f.header.condition)
            &&& match f.header.update {
                Some(ForLoopUpdate::Assignment(a)) => ex_ok(env, a.rhs) && match a.lhs {
                    AssignmentLhs::Phony => true,
                    AssignmentLhs::Expr(l) => lhs_ok(env, l),
                },
                None => true,
            }
            &&& forall|i: int| 0 <= i < f.body@.len() ==> stmt_ok(env, #[trigger] f.body@[i])
        },
        Statement::FnCall(c) => forall|i: int| 0 <= i < c.args@.len() ==> ex_ok(env, #[trigger] c.args@[i]),
        _ => true,
    }
}

/// Concretizing the switch case is free of errors.
pub open spec fn case_ok<F: Fn(BinOp, u32, u32) -> Option<u32>, B: Fn(String, Vec<Value>) -> Option<Option<Value>>>(
    env: Env<F, B>,
    c: SwitchCase,
) -> bool
    decreases c, 0nat,
{
    &&& ex_ok(env, c.selector)
    &&& forall|i: int| 0 <= i < c.body@.len() ==> stmt_ok(env, #[trigger] c.body@[i])
}

/// Concretizing the if statement is free of errors.
pub open spec fn if_ok<F: Fn(BinOp, u32, u32) -> Option<u32>, B: Fn(String, Vec<Value>) -> Option<Option<Value>>>(
    env: Env<F, B>,
    i: IfStatement,
) -> bool
    decreases i, 0nat,
{
    &&& ex_ok(env, i.condition)
    &&& forall|j: int| 0 <= j < i.body@.len() ==> stmt_ok(env, #[trigger] i.body@[j])
    &&& match i.else_ {
        None => true,
        Some(e) => match *e {
            Else::If(i2) => if_ok(env, i2),
            Else::Else(ss) => forall|j: int| 0 <= j < ss@.len() ==> stmt_ok(env, #[trigger] ss@[j]),
        },
    }
}

/// `os` is the statements `ss` concretized, one each.
pub open spec fn conc_seq<F: Fn(BinOp, u32, u32) -> Option<u32>, B: Fn(String, Vec<Value>) -> Option<Option<Value>>>(
    env: Env<F, B>,
    ss: Seq<Statement>,
    os: Seq<Statement>,
) -> bool
    decreases ss, 1nat,
{
    &&& os.len() == ss.len()
    &&& forall|i: int| 0 <= i < ss.len() ==> conc_stmt(env, #[trigger] ss[i], os[i])
}

/// `o` is the statement `s` with every expression in it concretized.
pub open spec fn conc_stmt<F: Fn(BinOp, u32, u32) -> Option<u32>, B: Fn(String, Vec<Value>) -> Option<Option<Value>>>(
    env: Env<F, B>,
    s: Statement,
    o: Statement,
) -> bool
    decreases s, 0nat,
{
    match s {
        Statement::LetDecl(l) => o matches Statement::LetDecl(l2) && l2.ident == l.ident && conc_node(
            env,
            l.initializer,
            l2.initializer,
        ),
        Statement::VarDecl(v) => o matches Statement::VarDecl(v2) && v2.ident == v.ident && v2.data_type
            == v.data_type && conc_opt(env, v.initializer, v2.initializer),
        Statement::Assignment(a) => o matches Statement::Assignment(a2) && a2.lhs == a.lhs && a2.op == a.op
            && conc_node(env, a.rhs, a2.rhs),
        Statement::Compound(ss) => o matches Statement::Compound(os) && conc_seq(env, ss@, os@),
        Statement::If(i) => o matches Statement::If(i2) && conc_if(env, i, i2),
        Statement::Return(r) => o matches Statement::Return(r2) && conc_opt(env, r.value, r2.value),
        Statement::Loop(l) => o matches Statement::Loop(l2) && conc_seq(env, l.body@, l2.body@),
        Statement::Switch(sw) => {
            &&& o matches Statement::Switch(sw2)
            &&& conc_node(env, sw.selector, sw2.selector)
            &&& sw2.cases@.len() == sw.cases@.len()
            &&& forall|i: int| 0 <= i < sw.cases@.len() ==> conc_case(env, #[trigger] sw.cases@[i], sw2.cases@[i])
            &&& conc_seq(env, sw.default@, sw2.default@)
        },
        Statement::ForLoop(f) => {
            &&& o matches Statement::ForLoop(f2)
            &&& match f.header.init {
                Some(ForLoopInit::VarDecl(v)) => f2.header.init matches Some(ForLoopInit::VarDecl(v2)) && v2.ident
                    == v.ident && v2.data_type == v.data_type && conc_opt(env, v.initializer, v2.initializer),
                None => f2.header.init is None,
            }
            &&& conc_opt(env, f.header.condition, f2.header.condition)
            &&& match f.header.update {
                Some(ForLoopUpdate::Assignment(a)) => {
                    &&& f2.header.update matches Some(ForLoopUpdate::Assignment(a2))
                    &&& a2.op == a.op
                    &&& conc_node(env, a.rhs, a2.rhs)
                    &&& match a.lhs {
                        AssignmentLhs::Phony => a2.lhs is Phony,
                        AssignmentLhs::Expr(l) => a2.lhs matches AssignmentLhs::Expr(l2) && conc_lhs(env, l, l2),
                    }
                },
                None => f2.header.update is None,
            }
            &&& conc_seq(env, f.body@, f2.body@)
        },
        Statement::FnCall(c) => {
            &&& o matches Statement::FnCall(c2)
            &&& c2.ident == c.ident
            &&& c2.args@.len() == c.args@.len()
            &&& forall|i: int| 0 <= i < c.args@.len() ==> conc_node(env, #[trigger] c.args@[i], c2.args@[i])
        },
        _ => o == s,
    }
}

/// `o` is the switch case `c` with its selector and body concretized.
pub open spec fn conc_case<F: Fn(BinOp, u32, u32) -> Option<u32>, B: Fn(String, Vec<Value>) -> Option<Option<Value>>>(
    env: Env<F, B>,
    c: SwitchCase,
    o: SwitchCase,
) -> bool
    decreases c, 0nat,
{
    conc_node(env, c.selector, o.selector) && conc_seq(env, c.body@, o.body@)
}

/// `o` is the if statement `i` with its condition, body and else branch concretized.
pub open spec fn conc_if<F: Fn(BinOp, u32, u32) -> Option<u32>, B: Fn(String, Vec<Value>) -> Option<Option<Value>>>(
    env: Env<F, B>,
    i: IfStatement,
    o: IfStatement,
) -> bool
    decreases i, 0nat,
{
    &&& conc_node(env, i.condition, o.condition)
    &&& conc_seq(env, i.body@, o.body@)
    &&& match i.else_ {
        None => o.else_ is None,
        Some(e) => o.else_ matches Some(e2) && match *e {
            Else::If(i2) => *e2 matches Else::If(i3) && conc_if(env, i2, i3),
            Else::Else(ss) => *e2 matches Else::Else(os) && conc_seq(env, ss@, os@),
        },
    }
}


impl Concretizer {
    /// The two states have the same error handling and the same constants in scope.
    pub closed spec fn same_state(&self, other: &Concretizer) -> bool {
        &&& self.error_handling == other.error_handling
        &&& self.global_constants == other.global_constants
        &&& self.local_scopes@ == other.local_scopes@
    }

    /// States with the same error handling and constants give the same environment.
    proof fn lemma_same_state_env<F, B>(&self, other: &Concretizer, fl: F, bi: B)
        requires
            self.same_state(other),
        ensures
            self.env(fl, bi) == other.env(fl, bi),
    {
        assert(self.consts() =~= other.consts());
    }

    /// Concretizes each statement of a list in turn.
    fn concretize_stmts<F: Fn(BinOp, u32, u32) -> Option<u32>, B: Fn(String, Vec<Value>) -> Option<Option<Value>>>(&mut self, fl: &F, bi: &B, ss: Vec<Statement>) -> (r: Vec<Statement>)
        requires
            float_ops_deterministic(*fl),
            builtins_deterministic(*bi),
            forall|i: int| 0 <= i < ss@.len() ==> stmt_ok(old(self).env(*fl, *bi), #[trigger] ss@[i]),
        ensures
            conc_seq(old(self).env(*fl, *bi), ss@, r@),
            final(self).same_state(old(self)),
        decreases ss@, 1nat,
    {
        let ghost orig = ss@;
        let ghost env = self.env(*fl, *bi);
        let ghost start = *self;
        let total = ss.len();
        let mut rest = ss;
        let mut out: Vec<Statement> = Vec::new();
        let mut i: usize = 0;
        while rest.len() > 0
            invariant
                float_ops_deterministic(*fl),
                builtins_deterministic(*bi),
                orig == ss@,
                total == orig.len(),
                i <= orig.len(),
                rest@ == orig.subrange(i as int, orig.len() as int),
                out@.len() == i,
                self.same_state(&start),
                env == start.env(*fl, *bi),
                forall|j: int| 0 <= j < orig.len() ==> stmt_ok(env, #[trigger] orig[j]),
                forall|j: int| 0 <= j < i ==> conc_stmt(env, #[trigger] orig[j], out@[j]),
            decreases rest.len(),
        {
            proof {
                self.lemma_same_state_env(&start, *fl, *bi);
            }
            let s = rest.remove(0);
            assert(s == orig[i as int]);
            assert(decreases_to!(orig => orig[i as int]));
            let o = self.concretize_stmt(fl, bi, s);
            out.push(o);
            i = i + 1;
        }
        out
    }

    /// Concretizes a block, in a scope of its own.
    fn concretize_block<F: Fn(BinOp, u32, u32) -> Option<u32>, B: Fn(String, Vec<Value>) -> Option<Option<Value>>>(&mut self, fl: &F, bi: &B, body: Vec<Statement>) -> (r: Vec<Statement>)
        requires
            float_ops_deterministic(*fl),
            builtins_deterministic(*bi),
            forall|i: int| 0 <= i < body@.len() ==> stmt_ok(old(self).env(*fl, *bi), #[trigger] body@[i]),
        ensures
            conc_seq(old(self).env(*fl, *bi), body@, r@),
            final(self).same_state(old(self)),
        decreases body@, 2nat,
    {
        self.enter_scope();
        let r = self.concretize_stmts(fl, bi, body);
        self.exit_scope();
        r
    }

    /// Concretizes a switch case: its selector, and its body in a scope of its own.
    fn concretize_switch_case<F: Fn(BinOp, u32, u32) -> Option<u32>, B: Fn(String, Vec<Value>) -> Option<Option<Value>>>(&mut self, fl: &F, bi: &B, case: SwitchCase) -> (r: SwitchCase)
        requires
            float_ops_deterministic(*fl),
            builtins_deterministic(*bi),
            case_ok(old(self).env(*fl, *bi), case),
        ensures
            conc_case(old(self).env(*fl, *bi), case, r),
            final(self).same_state(old(self)),
        decreases case, 0nat,
    {
        let SwitchCase { selector, body } = case;
        let concretized_selector = self.concretize_expr(fl, bi, &selector);
        let concretized_body = self.concretize_block(fl, bi, body);
        SwitchCase { selector: concretized_selector.node, body: concretized_body }
    }

    /// Concretizes each case of a switch in turn.
    fn concretize_cases<F: Fn(BinOp, u32, u32) -> Option<u32>, B: Fn(String, Vec<Value>) -> Option<Option<Value>>>(&mut self, fl: &F, bi: &B, cases: Vec<SwitchCase>) -> (r: Vec<SwitchCase>)
        requires
            float_ops_deterministic(*fl),
            builtins_deterministic(*bi),
            forall|i: int| 0 <= i < cases@.len() ==> case_ok(old(self).env(*fl, *bi), #[trigger] cases@[i]),
        ensures
            r@.len() == cases@.len(),
            forall|i: int| 0 <= i < cases@.len() ==> conc_case(old(self).env(*fl, *bi), #[trigger] cases@[i], r@[i]),
            final(self).same_state(old(self)),
        decreases cases@, 1nat,
    {
        let ghost orig = cases@;
        let ghost env = self.env(*fl, *bi);
        let ghost start = *self;
        let total = cases.len();
        let mut rest = cases;
        let mut out: Vec<SwitchCase> = Vec::new();
        let mut i: usize = 0;
        while rest.len() > 0
            invariant
                float_ops_deterministic(*fl),
                builtins_deterministic(*bi),
                orig == cases@,
                total == orig.len(),
                i <= orig.len(),
                rest@ == orig.subrange(i as int, orig.len() as int),
                out@.len() == i,
                self.same_state(&start),
                env == start.env(*fl, *bi),
                forall|j: int| 0 <= j < orig.len() ==> case_ok(env, #[trigger] orig[j]),
                forall|j: int| 0 <= j < i ==> conc_case(env, #[trigger] orig[j], out@[j]),
            decreases rest.len(),
        {
            proof {
                self.lemma_same_state_env(&start, *fl, *bi);
            }
            let c = rest.remove(0);
            assert(c == orig[i as int]);
            assert(decreases_to!(orig => orig[i as int]));
            let o = self.concretize_switch_case(fl, bi, c);
            out.push(o);
            i = i + 1;
        }
        out
    }

    /// Concretizes an if statement: its condition, its body in a scope of its own, and its
    /// else branch.
    fn concretize_if<F: Fn(BinOp, u32, u32) -> Option<u32>, B: Fn(String, Vec<Value>) -> Option<Option<Value>>>(&mut self, fl: &F, bi: &B, i: IfStatement) -> (r: IfStatement)
        requires
            float_ops_deterministic(*fl),
            builtins_deterministic(*bi),
            if_ok(old(self).env(*fl, *bi), i),
        ensures
            conc_if(old(self).env(*fl, *bi), i, r),
            final(self).same_state(old(self)),
        decreases i, 0nat,
    {
        let ghost start = *self;
        let IfStatement { condition, body, else_ } = i;
        let cond = self.concretize_expr(fl, bi, &condition);
        let new_body = self.concretize_block(fl, bi, body);
        proof {
            self.lemma_same_state_env(&start, *fl, *bi);
        }
        let new_else = match else_ {
            None => None,
            Some(e) => match *e {
                Else::If(i2) => Some(Else::If(self.concretize_if(fl, bi, i2))),
                Else::Else(ss) => Some(Else::Else(self.concretize_block(fl, bi, ss))),
            },
        };
        IfStatement::new(cond.node, new_body).with_else(new_else)
    }

    /// Concretizes the indices of an assignable expression.
    fn concretize_lhs_expr<F: Fn(BinOp, u32, u32) -> Option<u32>, B: Fn(String, Vec<Value>) -> Option<Option<Value>>>(&self, fl: &F, bi: &B, node: LhsExprNode) -> (r: LhsExprNode)
        requires
            float_ops_deterministic(*fl),
            builtins_deterministic(*bi),
            lhs_ok(self.env(*fl, *bi), node),
        ensures
            conc_lhs(self.env(*fl, *bi), node, r),
        decreases node,
    {
        let LhsExprNode { data_type, expr } = node;
        let expr = match expr {
            LhsExpr::Ident(ident) => LhsExpr::Ident(ident),
            LhsExpr::Postfix(inner, postfix) => {
                let new_inner = self.concretize_lhs_expr(fl, bi, *inner);
                let new_postfix = match postfix {
                    Postfix::Index(index) => Postfix::Index(Box::new(self.concretize_expr(fl, bi, &index).node)),
                    Postfix::Member(string) => Postfix::Member(string),
                };
                LhsExpr::Postfix(Box::new(new_inner), new_postfix)
            },
            LhsExpr::Deref(inner) => LhsExpr::Deref(inner),
            LhsExpr::AddressOf(inner) => LhsExpr::AddressOf(inner),
        };
        LhsExprNode { data_type, expr }
    }

    fn concretize_assignment_lhs<F: Fn(BinOp, u32, u32) -> Option<u32>, B: Fn(String, Vec<Value>) -> Option<Option<Value>>>(&self, fl: &F, bi: &B, lhs: AssignmentLhs) -> (r: AssignmentLhs)
        requires
            float_ops_deterministic(*fl),
            builtins_deterministic(*bi),
            lhs matches AssignmentLhs::Expr(l) ==> lhs_ok(self.env(*fl, *bi), l),
        ensures
            match lhs {
                AssignmentLhs::Phony => r is Phony,
                AssignmentLhs::Expr(l) => r matches AssignmentLhs::Expr(l2) && conc_lhs(self.env(*fl, *bi), l, l2),
            },
    {
        match lhs {
            AssignmentLhs::Phony => AssignmentLhs::Phony,
            AssignmentLhs::Expr(expr) => AssignmentLhs::Expr(self.concretize_lhs_expr(fl, bi, expr)),
        }
    }

    fn concretize_for_init<F: Fn(BinOp, u32, u32) -> Option<u32>, B: Fn(String, Vec<Value>) -> Option<Option<Value>>>(&self, fl: &F, bi: &B, init: ForLoopInit) -> (r: ForLoopInit)
        requires
            float_ops_deterministic(*fl),
            builtins_deterministic(*bi),
            opt_ok(self.env(*fl, *bi), init->VarDecl_0.initializer),
        ensures
            r->VarDecl_0.ident == init->VarDecl_0.ident,
            r->VarDecl_0.data_type == init->VarDecl_0.data_type,
            conc_opt(self.env(*fl, *bi), init->VarDecl_0.initializer, r->VarDecl_0.initializer),
    {
        match init {
            ForLoopInit::VarDecl(VarDeclStatement { ident, data_type, initializer }) => {
                let new_init = match initializer {
                    Some(e) => Some(self.concretize_expr(fl, bi, &e).node),
                    None => None,
                };
                ForLoopInit::VarDecl(VarDeclStatement::new(ident, data_type, new_init))
            },
        }
    }

    fn concretize_for_update<F: Fn(BinOp, u32, u32) -> Option<u32>, B: Fn(String, Vec<Value>) -> Option<Option<Value>>>(&self, fl: &F, bi: &B, update: ForLoopUpdate) -> (r: ForLoopUpdate)
        requires
            float_ops_deterministic(*fl),
            builtins_deterministic(*bi),
            ex_ok(self.env(*fl, *bi), update->Assignment_0.rhs),
            update->Assignment_0.lhs matches AssignmentLhs::Expr(l) ==> lhs_ok(self.env(*fl, *bi), l),
        ensures
            r->Assignment_0.op == update->Assignment_0.op,
            conc_node(self.env(*fl, *bi), update->Assignment_0.rhs, r->Assignment_0.rhs),
            match update->Assignment_0.lhs {
                AssignmentLhs::Phony => r->Assignment_0.lhs is Phony,
                AssignmentLhs::Expr(l) => r->Assignment_0.lhs matches AssignmentLhs::Expr(l2) && conc_lhs(
                    self.env(*fl, *bi),
                    l,
                    l2,
                ),
            },
    {
        match update {
            ForLoopUpdate::Assignment(AssignmentStatement { lhs, op, rhs }) => {
                let new_lhs = self.concretize_assignment_lhs(fl, bi, lhs);
                let new_rhs = self.concretize_expr(fl, bi, &rhs);
                ForLoopUpdate::Assignment(AssignmentStatement::new(new_lhs, op, new_rhs.node))
            },
        }
    }

    /// The nodes of concretized expressions.
    fn concretized_nodes<F: Fn(BinOp, u32, u32) -> Option<u32>, B: Fn(String, Vec<Value>) -> Option<Option<Value>>>(&self, fl: &F, bi: &B, args: &Vec<ExprNode>) -> (r: Vec<ExprNode>)
        requires
            float_ops_deterministic(*fl),
            builtins_deterministic(*bi),
            forall|i: int| 0 <= i < args@.len() ==> ex_ok(self.env(*fl, *bi), #[trigger] args@[i]),
        ensures
            r@.len() == args@.len(),
            forall|i: int| 0 <= i < args@.len() ==> conc_node(self.env(*fl, *bi), #[trigger] args@[i], r@[i]),
    {
        let cs = self.concretize_args(fl, bi, args);
        let (nodes, _) = self.decompose_vec_con(cs);
        nodes
    }
}


impl Concretizer {
    /// Concretizes a for loop: its header and body, in a scope of their own.
    fn concretize_for<F: Fn(BinOp, u32, u32) -> Option<u32>, B: Fn(String, Vec<Value>) -> Option<Option<Value>>>(&mut self, fl: &F, bi: &B, f: ForLoopStatement) -> (r: Statement)
        requires
            float_ops_deterministic(*fl),
            builtins_deterministic(*bi),
            stmt_ok(old(self).env(*fl, *bi), Statement::ForLoop(f)),
        ensures
            conc_stmt(old(self).env(*fl, *bi), Statement::ForLoop(f), r),
            final(self).same_state(old(self)),
        decreases f, 0nat,
    {
        let ghost start = *self;
        let ForLoopStatement { header, body } = f;
        let ForLoopHeader { init, condition, update } = *header;
        self.enter_scope();
        let new_init = match init {
            Some(i) => Some(self.concretize_for_init(fl, bi, i)),
            None => None,
        };
        let new_condition = match condition {
            Some(e) => Some(self.concretize_expr(fl, bi, &e).node),
            None => None,
        };
        let new_update = match update {
            Some(u) => Some(self.concretize_for_update(fl, bi, u)),
            None => None,
        };
        let new_body = self.concretize_stmts(fl, bi, body);
        self.exit_scope();
        Statement::ForLoop(
            ForLoopStatement::new(ForLoopHeader { init: new_init, condition: new_condition, update: new_update }, new_body),
        )
    }

    /// Concretizes every expression of a statement; each block gets a scope of its own.
    fn concretize_stmt<F: Fn(BinOp, u32, u32) -> Option<u32>, B: Fn(String, Vec<Value>) -> Option<Option<Value>>>(&mut self, fl: &F, bi: &B, stmt: Statement) -> (r: Statement)
        requires
            float_ops_deterministic(*fl),
            builtins_deterministic(*bi),
            stmt_ok(old(self).env(*fl, *bi), stmt),
        ensures
            conc_stmt(old(self).env(*fl, *bi), stmt, r),
            final(self).same_state(old(self)),
        decreases stmt, 0nat,
    {
        match stmt {
            Statement::LetDecl(LetDeclStatement { ident, initializer }) => {
                let con_init = self.concretize_expr(fl, bi, &initializer);
                Statement::LetDecl(LetDeclStatement::new(ident, con_init.node))
            },
            Statement::VarDecl(VarDeclStatement { ident, data_type, initializer }) => {
                let new_init = match initializer {
                    Some(e) => Some(self.concretize_expr(fl, bi, &e).node),
                    None => None,
                };
                Statement::VarDecl(VarDeclStatement::new(ident, data_type, new_init))
            },
            Statement::Assignment(AssignmentStatement { lhs, op, rhs }) => {
                let new_rhs = self.concretize_expr(fl, bi, &rhs);
                Statement::Assignment(AssignmentStatement::new(lhs, op, new_rhs.node))
            },
            Statement::Compound(s) => Statement::Compound(self.concretize_block(fl, bi, s)),
            Statement::If(i) => Statement::If(self.concretize_if(fl, bi, i)),
            Statement::Return(ReturnStatement { value }) => {
                let new_value = match value {
                    Some(e) => Some(self.concretize_expr(fl, bi, &e).node),
                    None => None,
                };
                Statement::Return(ReturnStatement::optional(new_value))
            },
            Statement::Switch(SwitchStatement { selector, cases, default }) => {
                let ghost start = *self;
                let new_selector = self.concretize_expr(fl, bi, &selector);
                let new_cases = self.concretize_cases(fl, bi, cases);
                proof {
                    self.lemma_same_state_env(&start, *fl, *bi);
                }
                let new_default = self.concretize_block(fl, bi, default);
                Statement::Switch(SwitchStatement::new(new_selector.node, new_cases, new_default))
            },
            Statement::FnCall(FnCallStatement { ident, args }) => {
                let nodes = self.concretized_nodes(fl, bi, &args);
                Statement::FnCall(FnCallStatement::new(ident, nodes))
            },
            Statement::Loop(LoopStatement { body }) => {
                Statement::Loop(LoopStatement::new(self.concretize_block(fl, bi, body)))
            },
            Statement::ForLoop(f) => self.concretize_for(fl, bi, f),
            Statement::Break => Statement::Break,
            Statement::Continue => Statement::Continue,
            Statement::Fallthrough => Statement::Fallthrough,
        }
    }
}


/// Concretizing the function's body is free of errors.
pub open spec fn fn_ok<F: Fn(BinOp, u32, u32) -> Option<u32>, B: Fn(String, Vec<Value>) -> Option<Option<Value>>>(env: Env<F, B>, d: FnDecl) -> bool {
    forall|i: int| 0 <= i < d.body@.len() ==> stmt_ok(env, #[trigger] d.body@[i])
}

/// `o` is the function `d` with its body concretized.
pub open spec fn conc_fn<F: Fn(BinOp, u32, u32) -> Option<u32>, B: Fn(String, Vec<Value>) -> Option<Option<Value>>>(env: Env<F, B>, d: FnDecl, o: FnDecl) -> bool {
    &&& o.attrs == d.attrs
    &&& o.name == d.name
    &&& o.inputs == d.inputs
    &&& o.output == d.output
    &&& conc_seq(env, d.body@, o.body@)
}

/// The environment of a fresh concretizer: no constants in scope.
pub open spec fn initial_env<F, B>(fl: F, bi: B, options: Options) -> Env<F, B> {
    Env {
        fl,
        bi,
        panic_on_invalid: options.error_handling == ErrorHandling::Panic,
        consts: |name: Seq<char>| None::<ValueView>,
    }
}

impl Concretizer {
    /// The value of each global constant.
    pub closed spec fn global_consts(&self) -> spec_fn(Seq<char>) -> Option<ValueView> {
        |name: Seq<char>| entries_lookup(self.global_constants@, name)
    }

    /// The environment in which a function body is concretized: the global constants.
    pub open spec fn fn_env<F, B>(&self, fl: F, bi: B) -> Env<F, B> {
        Env { fl, bi, panic_on_invalid: self.panics(), consts: self.global_consts() }
    }

    /// Concretizes the body of a function, in a scope of its own below the globals.
    pub fn concretize_fn<F: Fn(BinOp, u32, u32) -> Option<u32>, B: Fn(String, Vec<Value>) -> Option<Option<Value>>>(&mut self, fl: &F, bi: &B, decl: FnDecl) -> (r: FnDecl)
        requires
            float_ops_deterministic(*fl),
            builtins_deterministic(*bi),
            fn_ok(old(self).fn_env(*fl, *bi), decl),
        ensures
            conc_fn(old(self).fn_env(*fl, *bi), decl, r),
            final(self).fn_env(*fl, *bi) == old(self).fn_env(*fl, *bi),
            final(self).globals() == old(self).globals(),
    {
        let ghost env = self.fn_env(*fl, *bi);
        self.local_scopes.clear();
        proof {
            assert(self.consts() =~= old(self).global_consts());
            assert(self.global_consts() =~= old(self).global_consts());
        }
        self.enter_scope();
        let FnDecl { attrs, name, inputs, output, body } = decl;
        let new_body = self.concretize_stmts(fl, bi, body);
        self.exit_scope();
        proof {
            assert(self.global_consts() =~= old(self).global_consts());
        }
        FnDecl { attrs, name, inputs, output, body: new_body }
    }
}

/// Concretizes every function of a shader with the default options: constant
/// subexpressions are paired with their values, and invalid ones replaced by defaults.
/// `fl` evaluates float arithmetic and `bi` builtin calls on constants.
pub fn concretize<F: Fn(BinOp, u32, u32) -> Option<u32>, B: Fn(String, Vec<Value>) -> Option<Option<Value>>>(ast: Module, fl: &F, bi: &B) -> (r: Module)
    requires
        float_ops_deterministic(*fl),
        builtins_deterministic(*bi),
        forall|i: int|
            0 <= i < ast.functions@.len() ==> fn_ok(
                initial_env(*fl, *bi, Options { error_handling: ErrorHandling::ReplaceWithDefault }),
                #[trigger] ast.functions@[i],
            ),
    ensures
        r.structs == ast.structs,
        r.consts == ast.consts,
        r.vars == ast.vars,
        r.functions@.len() == ast.functions@.len(),
        forall|i: int|
            0 <= i < ast.functions@.len() ==> conc_fn(
                initial_env(*fl, *bi, Options { error_handling: ErrorHandling::ReplaceWithDefault }),
                #[trigger] ast.functions@[i],
                r.functions@[i],
            ),
{
    concretize_with(ast, Options::default(), fl, bi)
}

/// Concretizes every function of a shader with the given options.
pub fn concretize_with<F: Fn(BinOp, u32, u32) -> Option<u32>, B: Fn(String, Vec<Value>) -> Option<Option<Value>>>(ast: Module, options: Options, fl: &F, bi: &B) -> (r: Module)
    requires
        float_ops_deterministic(*fl),
        builtins_deterministic(*bi),
        forall|i: int| 0 <= i < ast.functions@.len() ==> fn_ok(initial_env(*fl, *bi, options), #[trigger] ast.functions@[i]),
    ensures
        r.structs == ast.structs,
        r.consts == ast.consts,
        r.vars == ast.vars,
        r.functions@.len() == ast.functions@.len(),
        forall|i: int|
            0 <= i < ast.functions@.len() ==> conc_fn(
                initial_env(*fl, *bi, options),
                #[trigger] ast.functions@[i],
                r.functions@[i],
            ),
{
    let ghost env = initial_env(*fl, *bi, options);
    let mut concretizer = Concretizer::new(options);
    proof {
        assert(concretizer.global_consts() =~= env.consts);
    }
    let Module { structs, consts, vars, functions } = ast;
    let ghost orig = functions@;
    let total = functions.len();
    let mut rest = functions;
    let mut out: Vec<FnDecl> = Vec::new();
    let mut i: usize = 0;
    while rest.len() > 0
        invariant
            float_ops_deterministic(*fl),
            builtins_deterministic(*bi),
            total == orig.len(),
            i <= orig.len(),
            rest@ == orig.subrange(i as int, orig.len() as int),
            out@.len() == i,
            concretizer.fn_env(*fl, *bi) == env,
            forall|j: int| 0 <= j < orig.len() ==> fn_ok(env, #[trigger] orig[j]),
            forall|j: int| 0 <= j < i ==> conc_fn(env, #[trigger] orig[j], out@[j]),
        decreases rest.len(),
    {
        let f = rest.remove(0);
        assert(f == orig[i as int]);
        let o = concretizer.concretize_fn(fl, bi, f);
        out.push(o);
        i = i + 1;
    }
    Module { structs, consts, vars, functions: out }
}


/// The value bound to `name` by a list of bindings given by their views: the last.
pub open spec fn view_lookup(entries: Seq<(Seq<char>, ValueView)>, name: Seq<char>) -> Option<ValueView>
    decreases entries.len(),
{
    if entries.len() == 0 {
        None
    } else if entries.last().0 == name {
        Some(entries.last().1)
    } else {
        view_lookup(entries.drop_last(), name)
    }
}

/// The views of a list of bindings.
pub open spec fn entries_view(entries: Seq<(String, Value)>) -> Seq<(Seq<char>, ValueView)> {
    entries.map_values(|p: (String, Value)| (p.0@, value_view(p.1)))
}

/// Looking a name up in bindings or in their views agrees.
proof fn lemma_entries_view_lookup(entries: Seq<(String, Value)>, name: Seq<char>)
    ensures
        entries_lookup(entries, name) == view_lookup(entries_view(entries), name),
    decreases entries.len(),
{
    if entries.len() > 0 {
        assert(entries_view(entries.drop_last()) =~= entries_view(entries).drop_last());
        lemma_entries_view_lookup(entries.drop_last(), name);
    }
}

/// The value bound to `name` by the innermost scope that binds it, or else by the
/// global bindings, given by their views.
pub open spec fn scopes_view_lookup(scopes: Seq<Vec<(String, Value)>>, globals: Seq<(Seq<char>, ValueView)>, name: Seq<char>) -> Option<ValueView>
    decreases scopes.len(),
{
    if scopes.len() == 0 {
        view_lookup(globals, name)
    } else {
        match entries_lookup(scopes.last()@, name) {
            Some(v) => Some(v),
            None => scopes_view_lookup(scopes.drop_last(), globals, name),
        }
    }
}

proof fn lemma_scopes_view_lookup(scopes: Seq<Vec<(String, Value)>>, globals: Seq<(String, Value)>, name: Seq<char>)
    ensures
        scopes_lookup(scopes, globals, name) == scopes_view_lookup(scopes, entries_view(globals), name),
    decreases scopes.len(),
{
    if scopes.len() == 0 {
        lemma_entries_view_lookup(globals, name);
    } else {
        lemma_scopes_view_lookup(scopes.drop_last(), globals, name);
    }
}

/// The environment in which a global constant is registered: the local scopes, then
/// the globals registered so far.
pub open spec fn register_env<F, B>(fl: F, bi: B, panics: bool, scopes: Seq<Vec<(String, Value)>>, globals: Seq<(Seq<char>, ValueView)>) -> Env<F, B> {
    Env { fl, bi, panic_on_invalid: panics, consts: |name: Seq<char>| scopes_view_lookup(scopes, globals, name) }
}

/// The global bindings after registering the first `k` constants of `decls` on top of
/// `g0`: each constant whose initializer has a value is bound to it.
pub open spec fn registered<F: Fn(BinOp, u32, u32) -> Option<u32>, B: Fn(String, Vec<Value>) -> Option<Option<Value>>>(
    fl: F,
    bi: B,
    panics: bool,
    scopes: Seq<Vec<(String, Value)>>,
    g0: Seq<(Seq<char>, ValueView)>,
    decls: Seq<GlobalConstDecl>,
    k: int,
) -> Seq<(Seq<char>, ValueView)>
    decreases k,
{
    if k <= 0 {
        g0
    } else {
        let g = registered(fl, bi, panics, scopes, g0, decls, k - 1);
        match ex_val(register_env(fl, bi, panics, scopes, g), decls[k - 1].initializer) {
            Some(v) => g.push((decls[k - 1].name@, v)),
            None => g,
        }
    }
}

/// Registering the first `k` constants is free of errors.
pub open spec fn register_ok<F: Fn(BinOp, u32, u32) -> Option<u32>, B: Fn(String, Vec<Value>) -> Option<Option<Value>>>(
    fl: F,
    bi: B,
    panics: bool,
    scopes: Seq<Vec<(String, Value)>>,
    g0: Seq<(Seq<char>, ValueView)>,
    decls: Seq<GlobalConstDecl>,
    k: int,
) -> bool
    decreases k,
{
    k <= 0 || (register_ok(fl, bi, panics, scopes, g0, decls, k - 1) && ex_ok(
        register_env(fl, bi, panics, scopes, registered(fl, bi, panics, scopes, g0, decls, k - 1)),
        decls[k - 1].initializer,
    ))
}

/// Registering a prefix of the constants is free of errors if registering more is.
proof fn lemma_register_ok_prefix<F: Fn(BinOp, u32, u32) -> Option<u32>, B: Fn(String, Vec<Value>) -> Option<Option<Value>>>(
    fl: F,
    bi: B,
    panics: bool,
    scopes: Seq<Vec<(String, Value)>>,
    g0: Seq<(Seq<char>, ValueView)>,
    decls: Seq<GlobalConstDecl>,
    k: int,
    j: int,
)
    requires
        j <= k,
        register_ok(fl, bi, panics, scopes, g0, decls, k),
    ensures
        register_ok(fl, bi, panics, scopes, g0, decls, j),
    decreases k - j,
{
    if j < k {
        lemma_register_ok_prefix(fl, bi, panics, scopes, g0, decls, k - 1, j);
    }
}

impl Concretizer {
    /// The views of the global bindings.
    pub closed spec fn globals_view(&self) -> Seq<(Seq<char>, ValueView)> {
        entries_view(self.global_constants@)
    }

    /// The local scopes.
    pub closed spec fn scopes(&self) -> Seq<Vec<(String, Value)>> {
        self.local_scopes@
    }

    /// Evaluates the initializers of global constants in order, and binds each constant
    /// that has a value; later initializers see the constants bound before them.
    pub fn register_global_consts<F: Fn(BinOp, u32, u32) -> Option<u32>, B: Fn(String, Vec<Value>) -> Option<Option<Value>>>(&mut self, fl: &F, bi: &B, consts: &[GlobalConstDecl])
        requires
            float_ops_deterministic(*fl),
            builtins_deterministic(*bi),
            register_ok(*fl, *bi, old(self).panics(), old(self).scopes(), old(self).globals_view(), consts@, consts@.len() as int),
        ensures
            final(self).panics() == old(self).panics(),
            final(self).scopes() == old(self).scopes(),
            final(self).globals_view() == registered(
                *fl,
                *bi,
                old(self).panics(),
                old(self).scopes(),
                old(self).globals_view(),
                consts@,
                consts@.len() as int,
            ),
    {
        let ghost panics = self.panics();
        let ghost scopes = self.scopes();
        let ghost g0 = self.globals_view();
        let mut i: usize = 0;
        while i < consts.len()
            invariant
                float_ops_deterministic(*fl),
                builtins_deterministic(*bi),
                i <= consts@.len(),
                self.panics() == panics,
                self.scopes() == scopes,
                self.globals_view() == registered(*fl, *bi, panics, scopes, g0, consts@, i as int),
                register_ok(*fl, *bi, panics, scopes, g0, consts@, consts@.len() as int),
            decreases consts.len() - i,
        {
            proof {
                lemma_register_ok_prefix(*fl, *bi, panics, scopes, g0, consts@, consts@.len() as int, i + 1);
                assert(self.consts() =~= register_env(*fl, *bi, panics, scopes, self.globals_view()).consts) by {
                    assert forall|name: Seq<char>| #[trigger] (self.consts())(name) == scopes_view_lookup(
                        scopes,
                        self.globals_view(),
                        name,
                    ) by {
                        lemma_scopes_view_lookup(self.local_scopes@, self.global_constants@, name);
                    }
                }
            }
            let decl = &consts[i];
            let con_node = self.concretize_expr(fl, bi, &decl.initializer);
            if let Some(val) = con_node.value {
                let ghost before = self.global_constants@;
                self.global_constants.push((decl.name.clone(), val));
                proof {
                    assert(entries_view(self.global_constants@) =~= entries_view(before).push(
                        (decl.name@, value_view(val)),
                    ));
                }
            }
            i = i + 1;
        }
    }
}


/// The default constant of a type has the default value.
proof fn lemma_default_node_val<F: Fn(BinOp, u32, u32) -> Option<u32>, B: Fn(String, Vec<Value>) -> Option<Option<Value>>>(env: Env<F, B>, dt: DataType, o: ExprNode)
    requires
        is_default_node(dt, o),
    ensures
        ex_val(env, o) == default_val(dt),
{
    if let DataType::Vector(n, t) = dt {
        let tc = o.expr->TypeCons_0;
        let d = ValueView::Lit(default_scalar(t)->0);
        lemma_arg_vals(env, tc.args@, 0);
        assert forall|i: int| 0 <= i < tc.args@.len() implies #[trigger] arg_vals(env, tc.args@, 0)[i] == Some(d) by {
            assert(arg_vals(env, tc.args@, 0)[i - 0] == ex_val(env, tc.args@[i]));
        }
        assert(known_vals(arg_vals(env, tc.args@, 0)) =~= Seq::new(n as nat, |i: int| d));
    }
}

/// Concretized arguments have the values of the arguments.
proof fn lemma_args_preserve_values<F: Fn(BinOp, u32, u32) -> Option<u32>, B: Fn(String, Vec<Value>) -> Option<Option<Value>>>(env: Env<F, B>, args: Seq<ExprNode>, outs: Seq<ExprNode>, k: int)
    requires
        outs.len() == args.len(),
        forall|i: int| 0 <= i < args.len() ==> conc_node(env, #[trigger] args[i], outs[i]),
    ensures
        arg_vals(env, outs, k) == arg_vals(env, args, k),
    decreases args, if k < args.len() { args.len() - k } else { 0 }, 0nat,
{
    if 0 <= k < args.len() {
        law_concretize_preserves_value(env, args[k], outs[k]);
        lemma_args_preserve_values(env, args, outs, k + 1);
    }
}

/// Concretizing does not change the value of an expression: the concretized expression
/// has the constant value of the expression it was made from, or no value where that
/// one has none. An invalid subexpression is replaced by a default of the value that the
/// expression is given.
pub proof fn law_concretize_preserves_value<F: Fn(BinOp, u32, u32) -> Option<u32>, B: Fn(String, Vec<Value>) -> Option<Option<Value>>>(env: Env<F, B>, e: ExprNode, o: ExprNode)
    requires
        conc_node(env, e, o),
    ensures
        ex_val(env, o) == ex_val(env, e),
    decreases e, 0nat, 0nat,
{
    match e.expr {
        Expr::Lit(_) => {},
        Expr::Var(_) => {},
        Expr::TypeCons(tc) => {
            let tc2 = o.expr->TypeCons_0;
            lemma_args_preserve_values(env, tc.args@, tc2.args@, 0);
        },
        Expr::UnOp(u) => {
            let iv = ex_val(env, *u.inner);
            if iv is Some && !(spec_unop(u.op, iv->0) matches Some(Some(_))) {
                lemma_default_node_val(env, e.data_type, o);
            } else {
                let u2 = o.expr->UnOp_0;
                law_concretize_preserves_value(env, *u.inner, *u2.inner);
            }
        },
        Expr::BinOp(b) => {
            let lv = ex_val(env, *b.left);
            let rv = ex_val(env, *b.right);
            if lv is None || rv is None {
                if rv is Some && spec_is_zero(rv->0) && b.op == BinOp::Divide {
                    law_concretize_preserves_value(env, *b.left, o);
                } else if rv is Some && spec_is_zero(rv->0) && b.op == BinOp::Mod {
                    lemma_default_node_val(env, e.data_type, o);
                } else {
                    let b2 = o.expr->BinOp_0;
                    law_concretize_preserves_value(env, *b.left, *b2.left);
                    law_concretize_preserves_value(env, *b.right, *b2.right);
                }
            } else if spec_binop(env.fl, b.op, lv->0, rv->0) is None {
                lemma_default_node_val(env, e.data_type, o);
            } else {
                let b2 = o.expr->BinOp_0;
                law_concretize_preserves_value(env, *b.left, *b2.left);
                law_concretize_preserves_value(env, *b.right, *b2.right);
            }
        },
        Expr::FnCall(f) => {
            let vals = arg_vals(env, f.args@, 0);
            let invalid = if !all_known(vals) {
                spec_invalid_bits_call(f.ident@, vals) || clamp_invalid(vals) && f.ident@ == "clamp"@
            } else {
                builtin_result(env.bi, f.ident@, known_vals(vals)) == Some(None::<ValueView>)
            };
            if invalid {
                lemma_default_node_val(env, e.data_type, o);
            } else {
                let f2 = o.expr->FnCall_0;
                lemma_args_preserve_values(env, f.args@, f2.args@, 0);
            }
        },
        Expr::Postfix(_) => {},
    }
}

} // verus!
