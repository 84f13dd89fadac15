//! Control-flow instrumentation: every function and every block gets a counter that an
//! atomic add bumps when control reaches it, so a run records which blocks it visited.
use crate::ast::expr::{spec_postfix_applies, spec_postfix_type, Expr, ExprNode, Lit, Postfix, PostfixExpr, UnOp, UnOpExpr, VarExpr};
use crate::ast::func::FnDecl;
use crate::ast::globals::{GlobalVarAttr, GlobalVarDecl, VarQualifier};
use crate::ast::module::Module;
use crate::ast::stmt::{Else, FnCallStatement, ForLoopStatement, IfStatement, LoopStatement, Statement, SwitchCase, SwitchStatement};
use crate::ast::structs::{StructDecl, StructMember};
use crate::ast::types::{AccessMode, DataType, MemoryViewType, ScalarType, StorageClass};
use crate::rc_spec::rc_clone;
use crate::strings::{has_prefix, spec_has_prefix};
use vstd::prelude::*;

verus! {

/// Options of the instrumentation (there are none yet).
pub struct Options;

/// Features of the instrumentation that can be enabled (a placeholder for now).
#[derive(Clone, Copy, Debug, PartialEq, Eq, Structural)]
pub enum Feature {
    PlaceHolder,
}

/// The number of counters that instrumenting a statement inserts.
pub open spec fn stmt_points(s: Statement) -> nat
    decreases s, 0nat,
{
    match s {
        Statement::If(i) => seq_points(i.body@, 0) + 1 + match i.else_ {
            Some(e) => else_points(*e),
            None => 0,
        },
        Statement::Loop(l) => seq_points(l.body@, 0) + 1,
        Statement::ForLoop(f) => seq_points(f.body@, 0) + 1,
        Statement::Switch(sw) => cases_points(sw.cases@, 0) + seq_points(sw.default@, 0) + 1,
        _ => 0,
    }
}

/// The number of counters inserted into the statements from index `k` on.
pub open spec fn seq_points(ss: Seq<Statement>, k: int) -> nat
    decreases ss, if k < ss.len() { ss.len() - k } else { 0 },
{
    if k < 0 || k >= ss.len() {
        0
    } else {
        stmt_points(ss[k]) + seq_points(ss, k + 1)
    }
}

/// The number of counters inserted into an else branch.
pub open spec fn else_points(e: Else) -> nat
    decreases e, 0nat,
{
    match e {
        Else::If(i) => seq_points(i.body@, 0) + 1 + match i.else_ {
            Some(e2) => else_points(*e2),
            None => 0,
        },
        Else::Else(ss) => seq_points(ss@, 0) + 1,
    }
}

/// The number of counters inserted into the switch cases from index `k` on.
pub open spec fn cases_points(cs: Seq<SwitchCase>, k: int) -> nat
    decreases cs, if k < cs.len() { cs.len() - k } else { 0 },
{
    if k < 0 || k >= cs.len() {
        0
    } else {
        seq_points(cs[k].body@, 0) + 1 + cases_points(cs, k + 1)
    }
}

/// `c` is the call `atomicAdd(&_wgslsmith_flow.block[k], 1u)`.
pub open spec fn is_counter_call(c: FnCallStatement, k: nat) -> bool {
    let elem_view = MemoryViewType {
        inner: std::rc::Rc::new(DataType::Scalar(ScalarType::AU32)),
        storage_class: StorageClass::Uniform,
        access_mode: AccessMode::Read,
    };
    &&& c.ident@ == "atomicAdd"@
    &&& c.args@.len() == 2
    &&& c.args@[1] == (ExprNode { data_type: DataType::Scalar(ScalarType::U32), expr: Expr::Lit(Lit::U32(1)) })
    &&& c.args@[0].data_type == DataType::Ptr(elem_view)
    &&& c.args@[0].expr matches Expr::UnOp(address)
    &&& address.op == UnOp::AddressOf
    &&& address.inner.data_type == DataType::Ref(elem_view)
    &&& address.inner.expr matches Expr::Postfix(element)
    &&& element.inner.expr matches Expr::Var(var)
    &&& var.ident@ == "_wgslsmith_flow.block"@
    &&& element.inner.data_type == DataType::Ref(
        MemoryViewType {
            inner: std::rc::Rc::new(DataType::Array(std::rc::Rc::new(DataType::Scalar(ScalarType::AU32)), None)),
            storage_class: StorageClass::Uniform,
            access_mode: AccessMode::Read,
        },
    )
    &&& element.postfix matches Postfix::Index(index)
    &&& *index == (ExprNode { data_type: DataType::Scalar(ScalarType::U32), expr: Expr::Lit(Lit::U32(k as u32)) })
}

/// `o` is `s` instrumented with counters numbered from `n`.
pub open spec fn flowed_stmt(s: Statement, n: nat, o: Statement) -> bool
    decreases s, 0nat,
{
    match s {
        Statement::If(i) => o matches Statement::If(i2) && flowed_if(i, n, i2),
        Statement::Loop(l) => o matches Statement::Loop(l2) && flowed_block(l.body@, n, l2.body@),
        Statement::ForLoop(f) => o matches Statement::ForLoop(f2) && f2.header == f.header && flowed_block(
            f.body@,
            n,
            f2.body@,
        ),
        Statement::Switch(sw) => o matches Statement::Switch(sw2) && sw2.selector == sw.selector
            && sw2.cases@.len() == sw.cases@.len() && flowed_cases(sw.cases@, 0, n, sw2.cases@) && flowed_block(
            sw.default@,
            n + cases_points(sw.cases@, 0),
            sw2.default@,
        ),
        _ => o == s,
    }
}

/// `i2` is the if statement `i` instrumented with counters numbered from `n`: its body
/// is wrapped with a counter and its else branch instrumented after it.
pub open spec fn flowed_if(i: IfStatement, n: nat, i2: IfStatement) -> bool
    decreases i, 0nat,
{
    &&& i2.condition == i.condition
    &&& flowed_block(i.body@, n, i2.body@)
    &&& match i.else_ {
        None => i2.else_ is None,
        Some(e) => i2.else_ matches Some(e2) && flowed_else(*e, n + seq_points(i.body@, 0) + 1, *e2),
    }
}

/// `o` is the else branch `e` instrumented with counters numbered from `n`.
pub open spec fn flowed_else(e: Else, n: nat, o: Else) -> bool
    decreases e, 0nat,
{
    match e {
        Else::If(i) => o matches Else::If(i2) && flowed_if(i, n, i2),
        Else::Else(ss) => o matches Else::Else(os) && os@.len() == ss@.len() + 1 && (os@[0] matches Statement::FnCall(
            c,
        ) && is_counter_call(c, n)) && flowed_seq(ss@, 0, n + 1, os@.drop_first()),
    }
}

/// `os` is the statements of `ss` from index `k` on, each instrumented in turn with
/// counters numbered from `n`.
pub open spec fn flowed_seq(ss: Seq<Statement>, k: int, n: nat, os: Seq<Statement>) -> bool
    decreases ss, if k < ss.len() { ss.len() - k } else { 0 },
{
    if k < 0 || k >= ss.len() {
        os.len() == ss.len()
    } else {
        flowed_stmt(ss[k], n, os[k]) && flowed_seq(ss, k + 1, n + stmt_points(ss[k]), os)
    }
}

/// `os` is the block `ss` instrumented from `n` and wrapped as
/// `{ counter; { instrumented ss } }`, the wrapping counter numbered after those inside.
pub open spec fn flowed_block(ss: Seq<Statement>, n: nat, os: Seq<Statement>) -> bool
    decreases ss, ss.len() + 1,
{
    &&& os.len() == 1
    &&& os[0] matches Statement::Compound(outer)
    &&& outer@.len() == 2
    &&& outer@[0] matches Statement::FnCall(c)
    &&& is_counter_call(c, n + seq_points(ss, 0))
    &&& outer@[1] matches Statement::Compound(inner)
    &&& flowed_seq(ss, 0, n, inner@)
}

/// `os` is the switch cases of `cs` from index `k` on, each body instrumented as a block.
pub open spec fn flowed_cases(cs: Seq<SwitchCase>, k: int, n: nat, os: Seq<SwitchCase>) -> bool
    decreases cs, if k < cs.len() { cs.len() - k } else { 0 },
{
    if k < 0 || k >= cs.len() {
        true
    } else {
        os[k].selector == cs[k].selector && flowed_block(cs[k].body@, n, os[k].body@) && flowed_cases(
            cs,
            k + 1,
            n + seq_points(cs[k].body@, 0) + 1,
            os,
        )
    }
}


/// `ss` and `os` have the same length and, from index `k` on, each statement of `os` is
/// the one of `ss` instrumented from the count that the statements before it leave.
proof fn lemma_flowed_seq_pointwise(ss: Seq<Statement>, k: int, n: nat, os: Seq<Statement>)
    requires
        0 <= k <= ss.len(),
        os.len() == ss.len(),
        forall|j: int|
            #![trigger os[j]]
            k <= j < ss.len() ==> flowed_stmt(ss[j], (n + seq_points(ss, k) - seq_points(ss, j)) as nat, os[j]),
    ensures
        flowed_seq(ss, k, n, os),
    decreases ss.len() - k,
{
    if k < ss.len() {
        lemma_flowed_seq_pointwise(ss, k + 1, n + stmt_points(ss[k]), os);
    }
}

/// The switch-case form of `lemma_flowed_seq_pointwise`.
proof fn lemma_flowed_cases_pointwise(cs: Seq<SwitchCase>, k: int, n: nat, os: Seq<SwitchCase>)
    requires
        0 <= k <= cs.len(),
        os.len() == cs.len(),
        forall|j: int|
            #![trigger os[j]]
            k <= j < cs.len() ==> os[j].selector == cs[j].selector && flowed_block(
                cs[j].body@,
                (n + cases_points(cs, k) - cases_points(cs, j)) as nat,
                os[j].body@,
            ),
    ensures
        flowed_cases(cs, k, n, os),
    decreases cs.len() - k,
{
    if k < cs.len() {
        lemma_flowed_cases_pointwise(cs, k + 1, n + seq_points(cs[k].body@, 0) + 1, os);
    }
}

/// The instrumentation state: the number of counters handed out so far.
struct Flow {
    block_count: u32,
}

impl Flow {
    /// The call that bumps the next counter.
    fn build_assign(&mut self) -> (r: FnCallStatement)
        requires
            old(self).block_count < u32::MAX,
        ensures
            is_counter_call(r, old(self).block_count as nat),
            final(self).block_count == old(self).block_count + 1,
    {
        let index = Postfix::index(ExprNode::from_lit(Lit::U32(self.block_count)));
        let arr_expr = VarExpr::new("_wgslsmith_flow.block".to_owned()).into_node(
            DataType::Ref(
                MemoryViewType::new(DataType::array(DataType::Scalar(ScalarType::AU32), None), StorageClass::Uniform),
            ),
        );
        proof {
            reveal_with_fuel(spec_postfix_applies, 2);
            reveal_with_fuel(spec_postfix_type, 2);
        }
        let indexed_arr = PostfixExpr::new(arr_expr, index).into_node();
        let first_arg = UnOpExpr::new(UnOp::AddressOf, indexed_arr).into_node();
        let second_arg = ExprNode::from_lit(Lit::U32(1));
        let args: Vec<ExprNode> = vec![first_arg, second_arg];
        let assign = FnCallStatement::new("atomicAdd".to_owned(), args);
        self.block_count = self.block_count + 1;
        assign
    }

    /// Instruments a block and wraps it with a counter of its own.
    fn analyze_block(&mut self, body: Vec<Statement>) -> (r: Vec<Statement>)
        requires
            old(self).block_count + seq_points(body@, 0) < u32::MAX,
        ensures
            flowed_block(body@, old(self).block_count as nat, r@),
            final(self).block_count == old(self).block_count + seq_points(body@, 0) + 1,
        decreases body@, 2nat,
    {
        let mod_body = self.analyze_seq(body);
        let assign = self.build_assign();
        vec![Statement::Compound(vec![Statement::FnCall(assign), Statement::Compound(mod_body)])]
    }

    /// Instruments each statement of a list in turn.
    fn analyze_seq(&mut self, ss: Vec<Statement>) -> (r: Vec<Statement>)
        requires
            old(self).block_count + seq_points(ss@, 0) <= u32::MAX,
        ensures
            r@.len() == ss@.len(),
            flowed_seq(ss@, 0, old(self).block_count as nat, r@),
            final(self).block_count == old(self).block_count + seq_points(ss@, 0),
        decreases ss@, 1nat,
    {
        let ghost orig = ss@;
        let ghost n0 = self.block_count as nat;
        let total = ss.len();
        let mut rest = ss;
        let mut out: Vec<Statement> = Vec::new();
        let mut i: usize = 0;
        while rest.len() > 0
            invariant
                orig == ss@,
                total == orig.len(),
                i <= orig.len(),
                rest@ == orig.subrange(i as int, orig.len() as int),
                out@.len() == i,
                self.block_count + seq_points(orig, i as int) == n0 + seq_points(orig, 0),
                n0 + seq_points(orig, 0) <= u32::MAX,
                forall|j: int|
                    #![trigger out@[j]]
                    0 <= j < i ==> flowed_stmt(orig[j], (n0 + seq_points(orig, 0) - seq_points(orig, j)) as nat, out@[j]),
            decreases rest.len(),
        {
            let s = rest.remove(0);
            assert(s == orig[i as int]);
            assert(decreases_to!(orig => orig[i as int]));
            let o = self.analyze_stmt(s);
            out.push(o);
            i = i + 1;
        }
        proof {
            lemma_flowed_seq_pointwise(orig, 0, n0, out@);
        }
        out
    }

    /// Instruments the bodies of switch cases in turn.
    fn analyze_cases(&mut self, cases: Vec<SwitchCase>) -> (r: Vec<SwitchCase>)
        requires
            old(self).block_count + cases_points(cases@, 0) <= u32::MAX,
        ensures
            r@.len() == cases@.len(),
            flowed_cases(cases@, 0, old(self).block_count as nat, r@),
            final(self).block_count == old(self).block_count + cases_points(cases@, 0),
        decreases cases@, 1nat,
    {
        let ghost orig = cases@;
        let ghost n0 = self.block_count as nat;
        let total = cases.len();
        let mut rest = cases;
        let mut out: Vec<SwitchCase> = Vec::new();
        let mut i: usize = 0;
        while rest.len() > 0
            invariant
                orig == cases@,
                total == orig.len(),
                i <= orig.len(),
                rest@ == orig.subrange(i as int, orig.len() as int),
                out@.len() == i,
                self.block_count + cases_points(orig, i as int) == n0 + cases_points(orig, 0),
                n0 + cases_points(orig, 0) <= u32::MAX,
                forall|j: int|
                    #![trigger out@[j]]
                    0 <= j < i ==> out@[j].selector == orig[j].selector && flowed_block(
                        orig[j].body@,
                        (n0 + cases_points(orig, 0) - cases_points(orig, j)) as nat,
                        out@[j].body@,
                    ),
            decreases rest.len(),
        {
            let c = rest.remove(0);
            assert(c == orig[i as int]);
            assert(decreases_to!(orig => orig[i as int]));
            let SwitchCase { selector, body } = c;
            assert(decreases_to!(orig[i as int] => orig[i as int].body));
            let new_body = self.analyze_block(body);
            out.push(SwitchCase { selector, body: new_body });
            i = i + 1;
        }
        proof {
            lemma_flowed_cases_pointwise(orig, 0, n0, out@);
        }
        out
    }

    /// Instruments an else branch.
    fn analyze_else(&mut self, els: Else) -> (r: Else)
        requires
            old(self).block_count + else_points(els) <= u32::MAX,
        ensures
            flowed_else(els, old(self).block_count as nat, r),
            final(self).block_count == old(self).block_count + else_points(els),
        decreases els, 0nat,
    {
        match els {
            Else::If(i) => {
                let ghost i0 = i;
                let r = self.analyze_if(i);
                let r = Else::If(r);
                assert(flowed_else(Else::If(i0), old(self).block_count as nat, r));
                r
            },
            Else::Else(stmts) => {
                let assign = self.build_assign();
                let mut r = self.analyze_seq(stmts);
                let ghost inner = r@;
                r.insert(0, Statement::FnCall(assign));
                assert(r@.drop_first() =~= inner);
                Else::Else(r)
            },
        }
    }

    /// Instruments an if statement: its body is wrapped with a counter and its else
    /// branch instrumented after it.
    fn analyze_if(&mut self, i: IfStatement) -> (r: IfStatement)
        requires
            old(self).block_count + seq_points(i.body@, 0) + 1 + match i.else_ {
                Some(e) => else_points(*e),
                None => 0,
            } <= u32::MAX,
        ensures
            flowed_if(i, old(self).block_count as nat, r),
            final(self).block_count == old(self).block_count + seq_points(i.body@, 0) + 1 + match i.else_ {
                Some(e) => else_points(*e),
                None => 0,
            },
        decreases i, 0nat,
    {
        let IfStatement { condition, body, else_ } = i;
        let new_body = self.analyze_block(body);
        let new_else = match else_ {
            Some(e) => Some(self.analyze_else(*e)),
            None => None,
        };
        IfStatement::new(condition, new_body).with_else(new_else)
    }

    /// Instruments a statement: each block that it opens gets a counter.
    fn analyze_stmt(&mut self, stmt: Statement) -> (r: Statement)
        requires
            old(self).block_count + stmt_points(stmt) <= u32::MAX,
        ensures
            flowed_stmt(stmt, old(self).block_count as nat, r),
            final(self).block_count == old(self).block_count + stmt_points(stmt),
        decreases stmt, 0nat,
    {
        match stmt {
            Statement::If(i) => Statement::If(self.analyze_if(i)),
            Statement::Loop(l) => {
                let LoopStatement { body } = l;
                let new_body = self.analyze_block(body);
                Statement::Loop(LoopStatement::new(new_body))
            },
            Statement::Switch(sw) => {
                let SwitchStatement { selector, cases, default } = sw;
                let new_cases = self.analyze_cases(cases);
                let new_default = self.analyze_block(default);
                Statement::Switch(SwitchStatement::new(selector, new_cases, new_default))
            },
            Statement::ForLoop(f) => {
                let ForLoopStatement { header, body } = f;
                let new_body = self.analyze_block(body);
                Statement::ForLoop(ForLoopStatement::new(*header, new_body))
            },
            _ => stmt,
        }
    }
}


/// A function gets a counter at its entry unless its name marks it as part of the
/// instrumentation itself.
pub open spec fn fn_instrumented(d: FnDecl) -> bool {
    !spec_has_prefix(d.name@, "_wgslsmith_"@)
}

/// The number of counters that instrumenting a function inserts.
pub open spec fn fn_points(d: FnDecl) -> nat {
    (if fn_instrumented(d) {
        1nat
    } else {
        0nat
    }) + seq_points(d.body@, 0)
}

/// The number of counters inserted into the functions from index `k` on.
pub open spec fn fns_points(fs: Seq<FnDecl>, k: int) -> nat
    decreases if k < fs.len() { fs.len() - k } else { 0 },
{
    if k < 0 || k >= fs.len() {
        0
    } else {
        fn_points(fs[k]) + fns_points(fs, k + 1)
    }
}

/// `o` is the function `d` instrumented with counters numbered from `n`: the entry
/// counter first, then the counters of its body.
pub open spec fn flowed_fn(d: FnDecl, n: nat, o: FnDecl) -> bool {
    &&& o.attrs == d.attrs
    &&& o.name == d.name
    &&& o.inputs == d.inputs
    &&& o.output == d.output
    &&& if fn_instrumented(d) {
        &&& o.body@.len() == d.body@.len() + 1
        &&& o.body@[0] matches Statement::FnCall(c)
        &&& is_counter_call(c, n)
        &&& flowed_seq(d.body@, 0, n + 1, o.body@.drop_first())
    } else {
        flowed_seq(d.body@, 0, n, o.body@)
    }
}

/// `os` is the functions of `fs` from index `k` on, each instrumented in turn.
pub open spec fn flowed_fns(fs: Seq<FnDecl>, k: int, n: nat, os: Seq<FnDecl>) -> bool
    decreases if k < fs.len() { fs.len() - k } else { 0 },
{
    if k < 0 || k >= fs.len() {
        os.len() == fs.len()
    } else {
        flowed_fn(fs[k], n, os[k]) && flowed_fns(fs, k + 1, n + fn_points(fs[k]), os)
    }
}

/// The larger of two optional values; a missing value loses.
pub open spec fn opt_max(a: Option<i32>, b: Option<i32>) -> Option<i32> {
    match a {
        Some(x) => match b {
            Some(y) => Some(if x < y { y } else { x }),
            None => Some(x),
        },
        None => b,
    }
}

/// The largest `binding` attribute in a list, if there is one.
pub open spec fn attrs_max_binding(attrs: Seq<GlobalVarAttr>) -> Option<i32>
    decreases attrs.len(),
{
    if attrs.len() == 0 {
        None
    } else {
        opt_max(
            attrs_max_binding(attrs.drop_last()),
            match attrs.last() {
                GlobalVarAttr::Binding(v) => Some(v),
                _ => None,
            },
        )
    }
}

/// The largest `binding` attribute of any of the variables, if there is one.
pub open spec fn vars_max_binding(vars: Seq<GlobalVarDecl>) -> Option<i32>
    decreases vars.len(),
{
    if vars.len() == 0 {
        None
    } else {
        opt_max(vars_max_binding(vars.drop_last()), attrs_max_binding(vars.last().attrs@))
    }
}

/// The binding that the counter buffer takes: one past the largest in use, or 0.
pub open spec fn next_binding(vars: Seq<GlobalVarDecl>) -> int {
    match vars_max_binding(vars) {
        Some(m) => m + 1,
        None => 0,
    }
}

/// `decl` is the structure that holds `count` counters.
pub open spec fn is_flow_struct(decl: StructDecl, count: nat) -> bool {
    &&& decl.name@ == "_WGSLSmithFlow"@
    &&& decl.members@.len() == 1
    &&& decl.members@[0].attrs@.len() == 0
    &&& decl.members@[0].name@ == "block"@
    &&& decl.members@[0].data_type == DataType::Array(
        std::rc::Rc::new(DataType::Scalar(ScalarType::AU32)),
        Some(count as u32),
    )
    &&& decl.wf()
}

/// `v` is the storage buffer of counters, of structure type `decl`, bound at `binding`.
pub open spec fn is_flow_var(v: GlobalVarDecl, decl: StructDecl, binding: int) -> bool {
    &&& v.attrs@ == seq![GlobalVarAttr::Group(0), GlobalVarAttr::Binding(binding as i32)]
    &&& v.qualifier == Some(
        VarQualifier { storage_class: StorageClass::Storage, access_mode: Some(AccessMode::ReadWrite) },
    )
    &&& v.name@ == "_wgslsmith_flow"@
    &&& v.data_type == DataType::Struct(std::rc::Rc::new(decl))
    &&& v.initializer is None
}

/// The function form of `lemma_flowed_seq_pointwise`.
proof fn lemma_flowed_fns_pointwise(fs: Seq<FnDecl>, k: int, n: nat, os: Seq<FnDecl>)
    requires
        0 <= k <= fs.len(),
        os.len() == fs.len(),
        forall|j: int|
            #![trigger os[j]]
            k <= j < fs.len() ==> flowed_fn(fs[j], (n + fns_points(fs, k) - fns_points(fs, j)) as nat, os[j]),
    ensures
        flowed_fns(fs, k, n, os),
    decreases fs.len() - k,
{
    if k < fs.len() {
        lemma_flowed_fns_pointwise(fs, k + 1, n + fn_points(fs[k]), os);
    }
}

impl Flow {
    /// Instruments a function: a counter at its entry, then its body.
    fn analyze_fn(&mut self, decl: FnDecl) -> (r: FnDecl)
        requires
            old(self).block_count + fn_points(decl) <= u32::MAX,
        ensures
            flowed_fn(decl, old(self).block_count as nat, r),
            final(self).block_count == old(self).block_count + fn_points(decl),
    {
        let FnDecl { attrs, name, inputs, output, body } = decl;
        if !has_prefix(name.as_str(), "_wgslsmith_") {
            let assign = self.build_assign();
            let mut new_body = self.analyze_seq(body);
            let ghost inner = new_body@;
            new_body.insert(0, Statement::FnCall(assign));
            assert(new_body@.drop_first() =~= inner);
            FnDecl { attrs, name, inputs, output, body: new_body }
        } else {
            let new_body = self.analyze_seq(body);
            FnDecl { attrs, name, inputs, output, body: new_body }
        }
    }

    /// Instruments each function in turn.
    fn analyze_fns(&mut self, fs: Vec<FnDecl>) -> (r: Vec<FnDecl>)
        requires
            old(self).block_count + fns_points(fs@, 0) <= u32::MAX,
        ensures
            r@.len() == fs@.len(),
            flowed_fns(fs@, 0, old(self).block_count as nat, r@),
            final(self).block_count == old(self).block_count + fns_points(fs@, 0),
    {
        let ghost orig = fs@;
        let ghost n0 = self.block_count as nat;
        let total = fs.len();
        let mut rest = fs;
        let mut out: Vec<FnDecl> = Vec::new();
        let mut i: usize = 0;
        while rest.len() > 0
            invariant
                orig == fs@,
                total == orig.len(),
                i <= orig.len(),
                rest@ == orig.subrange(i as int, orig.len() as int),
                out@.len() == i,
                self.block_count + fns_points(orig, i as int) == n0 + fns_points(orig, 0),
                n0 + fns_points(orig, 0) <= u32::MAX,
                forall|j: int|
                    #![trigger out@[j]]
                    0 <= j < i ==> flowed_fn(orig[j], (n0 + fns_points(orig, 0) - fns_points(orig, j)) as nat, out@[j]),
            decreases rest.len(),
        {
            let d = rest.remove(0);
            assert(d == orig[i as int]);
            let o = self.analyze_fn(d);
            out.push(o);
            i = i + 1;
        }
        proof {
            lemma_flowed_fns_pointwise(orig, 0, n0, out@);
        }
        out
    }
}

/// The largest `binding` attribute of any of the variables, if there is one.
fn max_binding(vars: &Vec<GlobalVarDecl>) -> (r: Option<i32>)
    ensures
        r == vars_max_binding(vars@),
{
    let mut m: Option<i32> = None;
    let mut i: usize = 0;
    while i < vars.len()
        invariant
            i <= vars.len(),
            m == vars_max_binding(vars@.take(i as int)),
        decreases vars.len() - i,
    {
        let attrs = &vars[i].attrs;
        let mut a: Option<i32> = None;
        let mut j: usize = 0;
        while j < attrs.len()
            invariant
                j <= attrs.len(),
                a == attrs_max_binding(attrs@.take(j as int)),
            decreases attrs.len() - j,
        {
            assert(attrs@.take(j + 1).drop_last() =~= attrs@.take(j as int));
            if let GlobalVarAttr::Binding(v) = attrs[j] {
                a = match a {
                    Some(x) => Some(if x < v { v } else { x }),
                    None => Some(v),
                };
            }
            j = j + 1;
        }
        assert(attrs@.take(attrs@.len() as int) =~= attrs@);
        assert(vars@.take(i + 1).drop_last() =~= vars@.take(i as int));
        m = match m {
            Some(x) => match a {
                Some(y) => Some(if x < y { y } else { x }),
                None => Some(x),
            },
            None => a,
        };
        i = i + 1;
    }
    assert(vars@.take(vars@.len() as int) =~= vars@);
    m
}

/// Instruments a shader with the default options.
pub fn flow(ast: Module) -> (r: Module)
    requires
        fns_points(ast.functions@, 0) <= u32::MAX,
        vars_max_binding(ast.vars@) != Some(i32::MAX),
    ensures
        r.consts == ast.consts,
        r.functions@.len() == ast.functions@.len(),
        flowed_fns(ast.functions@, 0, 0, r.functions@),
        r.structs@.len() == ast.structs@.len() + 1,
        r.structs@.drop_last() == ast.structs@,
        is_flow_struct(*r.structs@.last(), fns_points(ast.functions@, 0)),
        r.vars@.len() == ast.vars@.len() + 1,
        r.vars@.drop_last() == ast.vars@,
        is_flow_var(r.vars@.last(), *r.structs@.last(), next_binding(ast.vars@)),
{
    flow_with(ast, Options)
}

/// Instruments a shader: every function and every block gets a counter, numbered in
/// the order in which instrumenting reaches them, and a storage buffer with one atomic
/// counter per number is added, bound one past the largest binding in use.
pub fn flow_with(ast: Module, options: Options) -> (r: Module)
    requires
        fns_points(ast.functions@, 0) <= u32::MAX,
        vars_max_binding(ast.vars@) != Some(i32::MAX),
    ensures
        r.consts == ast.consts,
        r.functions@.len() == ast.functions@.len(),
        flowed_fns(ast.functions@, 0, 0, r.functions@),
        r.structs@.len() == ast.structs@.len() + 1,
        r.structs@.drop_last() == ast.structs@,
        is_flow_struct(*r.structs@.last(), fns_points(ast.functions@, 0)),
        r.vars@.len() == ast.vars@.len() + 1,
        r.vars@.drop_last() == ast.vars@,
        is_flow_var(r.vars@.last(), *r.structs@.last(), next_binding(ast.vars@)),
{
    let mut flow = Flow { block_count: 0 };
    let Module { structs, consts, vars, functions } = ast;
    let functions = flow.analyze_fns(functions);
    let member = StructMember::new(
        Vec::new(),
        "block".to_owned(),
        DataType::array(DataType::Scalar(ScalarType::AU32), Some(flow.block_count)),
    );
    let flow_struct = StructDecl::new("_WGSLSmithFlow".to_owned(), vec![member]);
    let mut structs = structs;
    structs.push(rc_clone(&flow_struct));
    let max = match max_binding(&vars) {
        Some(m) => m,
        None => -1,
    };
    let mut vars = vars;
    vars.push(
        GlobalVarDecl {
            attrs: vec![GlobalVarAttr::Group(0), GlobalVarAttr::Binding(max + 1)],
            qualifier: Some(
                VarQualifier { storage_class: StorageClass::Storage, access_mode: Some(AccessMode::ReadWrite) },
            ),
            name: "_wgslsmith_flow".to_owned(),
            data_type: DataType::Struct(flow_struct),
            initializer: None,
        },
    );
    Module { structs, consts, vars, functions }
}

/// Some attribute of some variable binds at `b`.
pub open spec fn binding_in_use(vars: Seq<GlobalVarDecl>, b: i32) -> bool {
    exists|i: int, j: int|
        0 <= i < vars.len() && 0 <= j < vars[i].attrs@.len() && #[trigger] vars[i].attrs@[j] == GlobalVarAttr::Binding(b)
}

proof fn lemma_attrs_max_binding(attrs: Seq<GlobalVarAttr>)
    ensures
        forall|j: int|
            0 <= j < attrs.len() ==> (#[trigger] attrs[j] matches GlobalVarAttr::Binding(b) ==> (attrs_max_binding(
                attrs,
            ) matches Some(m) && b <= m)),
        attrs_max_binding(attrs) matches Some(m) ==> exists|j: int|
            0 <= j < attrs.len() && #[trigger] attrs[j] == GlobalVarAttr::Binding(m),
    decreases attrs.len(),
{
    if attrs.len() > 0 {
        let init = attrs.drop_last();
        lemma_attrs_max_binding(init);
        assert forall|j: int| 0 <= j < attrs.len() implies (#[trigger] attrs[j] matches GlobalVarAttr::Binding(b) ==> (
        attrs_max_binding(attrs) matches Some(m) && b <= m)) by {
            if j < attrs.len() - 1 {
                assert(init[j] == attrs[j]);
            }
        }
        if let Some(m) = attrs_max_binding(attrs) {
            if attrs.last() == GlobalVarAttr::Binding(m) {
                assert(attrs[attrs.len() - 1] == GlobalVarAttr::Binding(m));
            } else {
                let j = choose|j: int| 0 <= j < init.len() && #[trigger] init[j] == GlobalVarAttr::Binding(m);
                assert(attrs[j] == init[j]);
            }
        }
    }
}

proof fn lemma_vars_max_binding(vars: Seq<GlobalVarDecl>)
    ensures
        forall|i: int, j: int|
            0 <= i < vars.len() && 0 <= j < vars[i].attrs@.len() ==> (#[trigger] vars[i].attrs@[j] matches GlobalVarAttr::Binding(
                b,
            ) ==> (vars_max_binding(vars) matches Some(m) && b <= m)),
        vars_max_binding(vars) matches Some(m) ==> binding_in_use(vars, m),
    decreases vars.len(),
{
    if vars.len() > 0 {
        let init = vars.drop_last();
        let last = vars.last();
        lemma_vars_max_binding(init);
        lemma_attrs_max_binding(last.attrs@);
        assert forall|i: int, j: int| 0 <= i < vars.len() && 0 <= j < vars[i].attrs@.len() implies (
        #[trigger] vars[i].attrs@[j] matches GlobalVarAttr::Binding(b) ==> (vars_max_binding(vars) matches Some(m) && b
            <= m)) by {
            if i < vars.len() - 1 {
                assert(init[i] == vars[i]);
                assert(init[i].attrs@[j] == vars[i].attrs@[j]);
            } else {
                assert(last.attrs@[j] == vars[i].attrs@[j]);
            }
        }
        if let Some(m) = vars_max_binding(vars) {
            if attrs_max_binding(last.attrs@) == Some(m) {
                let j = choose|j: int| 0 <= j < last.attrs@.len() && #[trigger] last.attrs@[j] == GlobalVarAttr::Binding(m);
                assert(vars[vars.len() - 1].attrs@[j] == GlobalVarAttr::Binding(m));
            } else {
                assert(vars_max_binding(init) == Some(m));
                let (i, j) = choose|i: int, j: int|
                    0 <= i < init.len() && 0 <= j < init[i].attrs@.len() && #[trigger] init[i].attrs@[j]
                        == GlobalVarAttr::Binding(m);
                assert(vars[i] == init[i]);
                assert(vars[i].attrs@[j] == GlobalVarAttr::Binding(m));
            }
        }
    }
}

/// Law of `flow`: the counter buffer is bound above every binding that an attribute of a
/// global variable uses: one past the largest such binding, or at 0 where none is used.
pub proof fn law_counter_binding(vars: Seq<GlobalVarDecl>)
    ensures
        forall|i: int, j: int|
            0 <= i < vars.len() && 0 <= j < vars[i].attrs@.len() ==> (#[trigger] vars[i].attrs@[j] matches GlobalVarAttr::Binding(
                b,
            ) ==> b < next_binding(vars)),
        (exists|b: i32| binding_in_use(vars, b)) ==> next_binding(vars) - 1 <= i32::MAX && binding_in_use(
            vars,
            (next_binding(vars) - 1) as i32,
        ),
        !(exists|b: i32| binding_in_use(vars, b)) ==> next_binding(vars) == 0,
{
    lemma_vars_max_binding(vars);
    if exists|b: i32| binding_in_use(vars, b) {
        let b = choose|b: i32| binding_in_use(vars, b);
        let (i, j) = choose|i: int, j: int|
            0 <= i < vars.len() && 0 <= j < vars[i].attrs@.len() && #[trigger] vars[i].attrs@[j] == GlobalVarAttr::Binding(b);
        assert(vars[i].attrs@[j] == GlobalVarAttr::Binding(b));
    } else {
        if let Some(m) = vars_max_binding(vars) {
            assert(binding_in_use(vars, m));
        }
    }
}

} // verus!
