//! Printing of the smaller syntax tree as shader source. Each `fmt` method gives the
//! source text of a node, and the `*_text` spec functions say what that text is.
use crate::ast::writer::{append_i32, indent, indented_text, int_text};
use crate::harness::types::{append_decimal, decimal_digits};
use crate::simple_ast::expr::{BinOp, Expr, ExprNode, Lit, Postfix, UnOp};
use crate::simple_ast::func::{FnAttr, FnInput, FnOutput, ShaderStage};
use crate::simple_ast::structs::StructDecl;
use crate::simple_ast::types::{DataType, ScalarType};
use crate::simple_ast::AttrList;
use vstd::prelude::*;
use vstd::string::StringExecFns;

verus! {

/// The source text of a scalar type.
pub open spec fn scalar_text(s: ScalarType) -> Seq<char> {
    match s {
        ScalarType::Bool => "bool"@,
        ScalarType::I32 => "i32"@,
        ScalarType::U32 => "u32"@,
    }
}

fn scalar_str(s: ScalarType) -> (r: &'static str)
    ensures
        r@ == scalar_text(s),
{
    match s {
        ScalarType::Bool => "bool",
        ScalarType::I32 => "i32",
        ScalarType::U32 => "u32",
    }
}

impl ScalarType {
    /// The source text of the type.
    pub fn fmt(&self) -> (r: String)
        ensures
            r@ == scalar_text(*self),
    {
        String::from_str(scalar_str(*self))
    }
}

/// The source text of a type.
pub open spec fn data_type_text(t: DataType) -> Seq<char>
    decreases t,
{
    match t {
        DataType::Scalar(s) => scalar_text(s),
        DataType::Vector(n, s) => "vec"@ + decimal_digits(n as nat) + "<"@ + scalar_text(s) + ">"@,
        DataType::Array(inner) => "array<"@ + data_type_text(*inner) + ">"@,
        DataType::User(name) => (*name)@,
    }
}

#[verifier::spinoff_prover]
#[verifier::rlimit(40)]
fn write_data_type(out: &mut String, t: &DataType)
    ensures
        final(out)@ == old(out)@ + data_type_text(*t),
    decreases *t,
{
    let ghost start = out@;
    match t {
        DataType::Scalar(s) => out.append(scalar_str(*s)),
        DataType::Vector(n, s) => {
            out.append("vec");
            append_decimal(out, *n as usize);
            out.append("<");
            out.append(scalar_str(*s));
            out.append(">");
        },
        DataType::Array(inner) => {
            out.append("array<");
            write_data_type(out, &**inner);
            out.append(">");
        },
        DataType::User(name) => out.append(name.as_str()),
    }
    assert(out@ =~= start + data_type_text(*t));
}

impl DataType {
    /// The source text of the type.
    pub fn fmt(&self) -> (r: String)
        ensures
            r@ == data_type_text(*self),
    {
        let mut out = String::new();
        write_data_type(&mut out, self);
        assert(out@ =~= data_type_text(*self));
        out
    }
}

/// The source text of a literal: integers as plain numbers, unsigned ones with `u`.
pub open spec fn lit_text(l: Lit) -> Seq<char> {
    match l {
        Lit::Bool(b) => if b {
            "true"@
        } else {
            "false"@
        },
        Lit::Int(v) => int_text(v as int),
        Lit::UInt(v) => decimal_digits(v as nat) + "u"@,
    }
}

#[verifier::spinoff_prover]
#[verifier::rlimit(40)]
fn write_lit(out: &mut String, l: &Lit)
    ensures
        final(out)@ == old(out)@ + lit_text(*l),
{
    let ghost start = out@;
    match l {
        Lit::Bool(b) => {
            if *b {
                out.append("true");
            } else {
                out.append("false");
            }
        },
        Lit::Int(v) => append_i32(out, *v),
        Lit::UInt(v) => {
            append_decimal(out, *v as usize);
            out.append("u");
        },
    }
    assert(out@ =~= start + lit_text(*l));
}

impl Lit {
    /// The source text of the literal.
    pub fn fmt(&self) -> (r: String)
        ensures
            r@ == lit_text(*self),
    {
        let mut out = String::new();
        write_lit(&mut out, self);
        assert(out@ =~= lit_text(*self));
        out
    }
}

/// The source text of a unary operator.
pub open spec fn unop_text(op: UnOp) -> Seq<char> {
    match op {
        UnOp::Neg => "-"@,
        UnOp::Not => "!"@,
        UnOp::BitNot => "~"@,
    }
}

fn unop_str(op: UnOp) -> (r: &'static str)
    ensures
        r@ == unop_text(op),
{
    match op {
        UnOp::Neg => "-",
        UnOp::Not => "!",
        UnOp::BitNot => "~",
    }
}

impl UnOp {
    /// The source text of the operator.
    pub fn fmt(&self) -> (r: String)
        ensures
            r@ == unop_text(*self),
    {
        String::from_str(unop_str(*self))
    }
}

/// The source text of a binary operator.
pub open spec fn binop_text(op: BinOp) -> Seq<char> {
    match op {
        BinOp::Plus => "+"@,
        BinOp::Minus => "-"@,
        BinOp::Times => "*"@,
        BinOp::Divide => "/"@,
        BinOp::Mod => "%"@,
        BinOp::LogAnd => "&&"@,
        BinOp::LogOr => "||"@,
        BinOp::BitAnd => "&"@,
        BinOp::BitOr => "|"@,
        BinOp::BitXOr => "^"@,
        BinOp::LShift => "<<"@,
        BinOp::RShift => ">>"@,
        BinOp::Equal => "=="@,
        BinOp::NotEqual => "!="@,
        BinOp::Less => "<"@,
        BinOp::LessEqual => "<="@,
        BinOp::Greater => ">"@,
        BinOp::GreaterEqual => ">="@,
    }
}

fn binop_str(op: BinOp) -> (r: &'static str)
    ensures
        r@ == binop_text(op),
{
    match op {
        BinOp::Plus => "+",
        BinOp::Minus => "-",
        BinOp::Times => "*",
        BinOp::Divide => "/",
        BinOp::Mod => "%",
        BinOp::LogAnd => "&&",
        BinOp::LogOr => "||",
        BinOp::BitAnd => "&",
        BinOp::BitOr => "|",
        BinOp::BitXOr => "^",
        BinOp::LShift => "<<",
        BinOp::RShift => ">>",
        BinOp::Equal => "==",
        BinOp::NotEqual => "!=",
        BinOp::Less => "<",
        BinOp::LessEqual => "<=",
        BinOp::Greater => ">",
        BinOp::GreaterEqual => ">=",
    }
}

impl BinOp {
    /// The source text of the operator.
    pub fn fmt(&self) -> (r: String)
        ensures
            r@ == binop_text(*self),
    {
        String::from_str(binop_str(*self))
    }
}

/// The source text of an expression: every operand of an operator is put in
/// parentheses.
pub open spec fn expr_text(e: Expr) -> Seq<char>
    decreases e, 0nat,
{
    match e {
        Expr::Lit(l) => lit_text(l),
        Expr::TypeCons(t, args) => data_type_text(t) + "("@ + args_text(args@, 0) + ")"@,
        Expr::Var(name) => name@,
        Expr::UnOp(op, inner) => unop_text(op) + "("@ + expr_text(inner.expr) + ")"@,
        Expr::BinOp(op, l, r) => "("@ + expr_text(l.expr) + ") "@ + binop_text(op) + " ("@ + expr_text(r.expr) + ")"@,
        Expr::Postfix(primary, pf) => expr_text(primary.expr) + match pf {
            Postfix::ArrayIndex(index) => "["@ + expr_text(index.expr) + "]"@,
            Postfix::Member(name) => "."@ + name@,
        },
        Expr::FnCall(name, args) => name@ + "("@ + args_text(args@, 0) + ")"@,
    }
}

/// The source text of the arguments from index `k` on, separated by commas.
pub open spec fn args_text(args: Seq<ExprNode>, k: int) -> Seq<char>
    decreases args, if k < args.len() { args.len() - k } else { 0 },
{
    if k < 0 || k >= args.len() {
        Seq::empty()
    } else {
        expr_text(args[k].expr) + (if k + 1 < args.len() {
            ", "@
        } else {
            Seq::empty()
        }) + args_text(args, k + 1)
    }
}

#[verifier::spinoff_prover]
#[verifier::rlimit(40)]
fn write_expr(out: &mut String, e: &Expr)
    ensures
        final(out)@ == old(out)@ + expr_text(*e),
    decreases *e, 0nat,
{
    let ghost start = out@;
    match e {
        Expr::Lit(l) => write_lit(out, l),
        Expr::TypeCons(t, args) => {
            write_data_type(out, t);
            out.append("(");
            write_args(out, args, 0);
            out.append(")");
        },
        Expr::Var(name) => out.append(name.as_str()),
        Expr::UnOp(op, inner) => {
            out.append(unop_str(*op));
            out.append("(");
            write_expr(out, &inner.expr);
            out.append(")");
        },
        Expr::BinOp(op, l, r) => {
            out.append("(");
            write_expr(out, &l.expr);
            out.append(") ");
            out.append(binop_str(*op));
            out.append(" (");
            write_expr(out, &r.expr);
            out.append(")");
        },
        Expr::Postfix(primary, pf) => {
            write_expr(out, &primary.expr);
            match pf {
                Postfix::ArrayIndex(index) => {
                    out.append("[");
                    write_expr(out, &index.expr);
                    out.append("]");
                },
                Postfix::Member(name) => {
                    out.append(".");
                    out.append(name.as_str());
                },
            }
        },
        Expr::FnCall(name, args) => {
            out.append(name.as_str());
            out.append("(");
            write_args(out, args, 0);
            out.append(")");
        },
    }
    assert(out@ =~= start + expr_text(*e));
}

#[verifier::spinoff_prover]
#[verifier::rlimit(40)]
fn write_args(out: &mut String, args: &Vec<ExprNode>, k: usize)
    ensures
        final(out)@ == old(out)@ + args_text(args@, k as int),
    decreases args@, args@.len() - k,
{
    let ghost start = out@;
    if k < args.len() {
        write_expr(out, &args[k].expr);
        if k + 1 < args.len() {
            out.append(", ");
        }
        write_args(out, args, k + 1);
    }
    assert(out@ =~= start + args_text(args@, k as int));
}

impl Expr {
    /// The source text of the expression.
    pub fn fmt(&self) -> (r: String)
        ensures
            r@ == expr_text(*self),
    {
        let mut out = String::new();
        write_expr(&mut out, self);
        assert(out@ =~= expr_text(*self));
        out
    }
}

impl ExprNode {
    /// The source text of the expression.
    pub fn fmt(&self) -> (r: String)
        ensures
            r@ == expr_text(self.expr),
    {
        self.expr.fmt()
    }
}

/// The members of a structure from index `k` on, each as `name: type;` on a line of
/// its own, indented by one level.
pub open spec fn members_text(d: StructDecl, k: int) -> Seq<char>
    decreases if k < d.members@.len() { d.members@.len() - k } else { 0 },
{
    if k < 0 || k >= d.members@.len() {
        Seq::empty()
    } else {
        indented_text(d.members@[k].name@ + ": "@ + data_type_text(d.members@[k].data_type) + ";\n"@) + members_text(d, k + 1)
    }
}

/// The source text of a structure declaration.
pub open spec fn struct_text(d: StructDecl) -> Seq<char> {
    "struct "@ + d.name@ + " {\n"@ + members_text(d, 0) + "};\n"@
}

#[verifier::spinoff_prover]
#[verifier::rlimit(40)]
fn write_members(out: &mut String, d: &StructDecl, k: usize)
    ensures
        final(out)@ == old(out)@ + members_text(*d, k as int),
    decreases d.members@.len() - k,
{
    let ghost start = out@;
    if k < d.members.len() {
        let member = &d.members[k];
        let mut line = String::new();
        line.append(member.name.as_str());
        line.append(": ");
        write_data_type(&mut line, &member.data_type);
        line.append(";\n");
        assert(line@ =~= d.members@[k as int].name@ + ": "@ + data_type_text(d.members@[k as int].data_type) + ";\n"@);
        let ind = indent(line.as_str());
        out.append(ind.as_str());
        write_members(out, d, k + 1);
    }
    assert(out@ =~= start + members_text(*d, k as int));
}

impl StructDecl {
    /// The source text of the structure declaration.
    pub fn fmt(&self) -> (r: String)
        ensures
            r@ == struct_text(*self),
    {
        let mut out = String::from_str("struct ");
        out.append(self.name.as_str());
        out.append(" {\n");
        write_members(&mut out, self, 0);
        out.append("};\n");
        assert(out@ =~= struct_text(*self));
        out
    }
}

/// The source text of a shader stage.
pub open spec fn stage_text(s: ShaderStage) -> Seq<char> {
    match s {
        ShaderStage::Compute => "compute"@,
        ShaderStage::Vertex => "vertex"@,
        ShaderStage::Fragment => "fragment"@,
    }
}

fn stage_str(s: ShaderStage) -> (r: &'static str)
    ensures
        r@ == stage_text(s),
{
    match s {
        ShaderStage::Compute => "compute",
        ShaderStage::Vertex => "vertex",
        ShaderStage::Fragment => "fragment",
    }
}

impl ShaderStage {
    /// The source text of the stage.
    pub fn fmt(&self) -> (r: String)
        ensures
            r@ == stage_text(*self),
    {
        String::from_str(stage_str(*self))
    }
}

/// The source text of a function attribute.
pub open spec fn fn_attr_text(a: FnAttr) -> Seq<char> {
    match a {
        FnAttr::Stage(s) => "stage("@ + stage_text(s) + ")"@,
        FnAttr::WorkgroupSize(n) => "workgroup_size("@ + decimal_digits(n as nat) + ")"@,
    }
}

#[verifier::spinoff_prover]
#[verifier::rlimit(40)]
fn write_fn_attr(out: &mut String, a: &FnAttr)
    ensures
        final(out)@ == old(out)@ + fn_attr_text(*a),
{
    let ghost start = out@;
    match a {
        FnAttr::Stage(s) => {
            out.append("stage(");
            out.append(stage_str(*s));
            out.append(")");
        },
        FnAttr::WorkgroupSize(n) => {
            out.append("workgroup_size(");
            append_decimal(out, *n as usize);
            out.append(")");
        },
    }
    assert(out@ =~= start + fn_attr_text(*a));
}

impl FnAttr {
    /// The source text of the attribute.
    pub fn fmt(&self) -> (r: String)
        ensures
            r@ == fn_attr_text(*self),
    {
        let mut out = String::new();
        write_fn_attr(&mut out, self);
        assert(out@ =~= fn_attr_text(*self));
        out
    }
}

/// The attributes from index `k` on, separated by commas.
pub open spec fn attrs_text(attrs: Seq<FnAttr>, k: int) -> Seq<char>
    decreases if k < attrs.len() { attrs.len() - k } else { 0 },
{
    if k < 0 || k >= attrs.len() {
        Seq::empty()
    } else {
        fn_attr_text(attrs[k]) + (if k + 1 < attrs.len() {
            ", "@
        } else {
            Seq::empty()
        }) + attrs_text(attrs, k + 1)
    }
}

/// The source text of an attribute list: nothing if it is empty, else the attributes
/// in double brackets.
pub open spec fn attr_list_text(attrs: Seq<FnAttr>) -> Seq<char> {
    if attrs.len() == 0 {
        Seq::empty()
    } else {
        "[["@ + attrs_text(attrs, 0) + "]]"@
    }
}

#[verifier::spinoff_prover]
#[verifier::rlimit(40)]
fn write_attrs(out: &mut String, attrs: &Vec<FnAttr>, k: usize)
    ensures
        final(out)@ == old(out)@ + attrs_text(attrs@, k as int),
    decreases attrs@.len() - k,
{
    let ghost start = out@;
    if k < attrs.len() {
        write_fn_attr(out, &attrs[k]);
        if k + 1 < attrs.len() {
            out.append(", ");
        }
        write_attrs(out, attrs, k + 1);
    }
    assert(out@ =~= start + attrs_text(attrs@, k as int));
}

impl AttrList<FnAttr> {
    /// The source text of the attribute list.
    pub fn fmt(&self) -> (r: String)
        ensures
            r@ == attr_list_text(self.0@),
    {
        let mut out = String::new();
        if self.0.len() > 0 {
            out.append("[[");
            write_attrs(&mut out, &self.0, 0);
            out.append("]]");
        }
        assert(out@ =~= attr_list_text(self.0@));
        out
    }
}

impl FnInput {
    /// The source text of the parameter: its name and type.
    pub fn fmt(&self) -> (r: String)
        ensures
            r@ == self.name@ + ": "@ + data_type_text(self.data_type),
    {
        let mut out = String::new();
        out.append(self.name.as_str());
        out.append(": ");
        write_data_type(&mut out, &self.data_type);
        out
    }
}

impl FnOutput {
    /// The source text of the result: its type.
    pub fn fmt(&self) -> (r: String)
        ensures
            r@ == data_type_text(self.data_type),
    {
        self.data_type.fmt()
    }
}

} // verus!
