//! Printing of the syntax tree as shader source.
//!
//! Each `fmt` method gives the source text of a node, and the `*_text` spec functions
//! say what that text is. Float literals are spelled by a function the caller supplies
//! (the library does not format floating-point numbers): its spelling of the bits of a
//! float is `float_spelling(ff, bits)`.
use crate::ast::types::{spec_default_access_mode, AccessMode, DataType, MemoryViewType, ScalarType, StorageClass};
use crate::ast::expr::{BinOp, BinOpExpr, Expr, ExprNode, Lit, Postfix, PostfixExpr, UnOp, UnOpExpr};
use crate::ast::stmt::{
    AssignmentLhs, AssignmentOp, AssignmentStatement, Else, FnCallStatement, ForLoopHeader, ForLoopInit, ForLoopStatement,
    ForLoopUpdate, IfStatement, LetDeclStatement, LhsExpr, LhsExprNode, LoopStatement, ReturnStatement, Statement,
    SwitchCase, SwitchStatement, VarDeclStatement,
};
use crate::ast::builtins::spec_builtin_value_name;
use crate::ast::func::{FnAttr, FnIOAttr, FnInput, FnOutput, ShaderStage};
use crate::ast::func::FnDecl;
use crate::ast::globals::{GlobalConstDecl, GlobalVarAttr, GlobalVarDecl, VarQualifier};
use crate::ast::module::Module;
use crate::ast::structs::{StructDecl, StructMember, StructMemberAttr};
use std::rc::Rc;
use crate::harness::types::{append_decimal, decimal_digits};
use indenter::indented;
use std::fmt::Write;
use vstd::prelude::*;
use vstd::string::StringExecFns;

verus! {

/// The source text of an integer.
pub open spec fn int_text(v: int) -> Seq<char> {
    if v < 0 {
        "-"@ + decimal_digits((-v) as nat)
    } else {
        decimal_digits(v as nat)
    }
}

#[verifier::spinoff_prover]
#[verifier::rlimit(40)]
pub(crate) fn append_i32(out: &mut String, v: i32)
    ensures
        final(out)@ == old(out)@ + int_text(v as int),
{
    if v < 0 {
        out.append("-");
        let m: i64 = -(v as i64);
        append_decimal(out, m as usize);
        assert(old(out)@ + "-"@ + decimal_digits(m as nat) =~= old(out)@ + int_text(v as int));
    } else {
        append_decimal(out, v as usize);
    }
}

/// The source text of a scalar type.
pub open spec fn scalar_text(s: ScalarType) -> Seq<char> {
    match s {
        ScalarType::Bool => "bool"@,
        ScalarType::I32 => "i32"@,
        ScalarType::U32 => "u32"@,
        ScalarType::F32 => "f32"@,
        ScalarType::AU32 => "atomic<u32>"@,
        ScalarType::AI32 => "atomic<i32>"@,
    }
}

fn scalar_str(s: ScalarType) -> (r: &'static str)
    ensures
        r@ == scalar_text(s),
{
    match s {
        ScalarType::Bool => "bool",
        ScalarType::I32 => "i32",
        ScalarType::U32 => "u32",
        ScalarType::F32 => "f32",
        ScalarType::AU32 => "atomic<u32>",
        ScalarType::AI32 => "atomic<i32>",
    }
}

impl ScalarType {
    /// The source text of the type.
    pub fn fmt(&self) -> (r: String)
        ensures
            r@ == scalar_text(*self),
    {
        String::from_str(scalar_str(*self))
    }
}

/// The source text of an address space.
pub open spec fn storage_class_text(sc: StorageClass) -> Seq<char> {
    match sc {
        StorageClass::Function => "function"@,
        StorageClass::Private => "private"@,
        StorageClass::WorkGroup => "workgroup"@,
        StorageClass::Uniform => "uniform"@,
        StorageClass::Storage => "storage"@,
    }
}

fn storage_class_str(sc: StorageClass) -> (r: &'static str)
    ensures
        r@ == storage_class_text(sc),
{
    match sc {
        StorageClass::Function => "function",
        StorageClass::Private => "private",
        StorageClass::WorkGroup => "workgroup",
        StorageClass::Uniform => "uniform",
        StorageClass::Storage => "storage",
    }
}

impl StorageClass {
    /// The source text of the address space.
    pub fn fmt(&self) -> (r: String)
        ensures
            r@ == storage_class_text(*self),
    {
        String::from_str(storage_class_str(*self))
    }
}

/// The source text of an access mode.
pub open spec fn access_mode_text(am: AccessMode) -> Seq<char> {
    match am {
        AccessMode::Read => "read"@,
        AccessMode::Write => "write"@,
        AccessMode::ReadWrite => "read_write"@,
    }
}

fn access_mode_str(am: AccessMode) -> (r: &'static str)
    ensures
        r@ == access_mode_text(am),
{
    match am {
        AccessMode::Read => "read",
        AccessMode::Write => "write",
        AccessMode::ReadWrite => "read_write",
    }
}

impl AccessMode {
    /// The source text of the access mode.
    pub fn fmt(&self) -> (r: String)
        ensures
            r@ == access_mode_text(*self),
    {
        String::from_str(access_mode_str(*self))
    }
}

/// The source text of a type.
pub open spec fn data_type_text(t: DataType) -> Seq<char>
    decreases t,
{
    match t {
        DataType::Scalar(s) => scalar_text(s),
        DataType::Vector(n, s) => "vec"@ + decimal_digits(n as nat) + "<"@ + scalar_text(s) + ">"@,
        DataType::Array(inner, n) => "array<"@ + data_type_text(*inner) + match n {
            Some(k) => ", "@ + decimal_digits(k as nat),
            None => Seq::empty(),
        } + ">"@,
        DataType::Struct(decl) => decl.name@,
        DataType::Ptr(view) => "ptr<"@ + storage_class_text(view.storage_class) + ", "@ + data_type_text(*view.inner)
            + access_suffix(view) + ">"@,
        DataType::Ref(view) => "ref<"@ + storage_class_text(view.storage_class) + ", "@ + data_type_text(*view.inner)
            + access_suffix(view) + ">"@,
        DataType::Atomic(s) => "atomic<"@ + scalar_text(s) + ">"@,
        DataType::AtomicCompareExchangeResult(s) => "__atomic_compare_exchange_result<"@ + scalar_text(s) + ">"@,
    }
}

/// The access mode of a memory view, written only where it is not the default of its
/// address space.
pub open spec fn access_suffix(v: MemoryViewType) -> Seq<char> {
    if v.access_mode != spec_default_access_mode(v.storage_class) {
        ", "@ + access_mode_text(v.access_mode)
    } else {
        Seq::empty()
    }
}

/// The source text of a memory view: address space, type and access mode.
pub open spec fn memory_view_text(v: MemoryViewType) -> Seq<char> {
    storage_class_text(v.storage_class) + ", "@ + data_type_text(*v.inner) + access_suffix(v)
}

#[verifier::spinoff_prover]
#[verifier::rlimit(40)]
fn write_memory_view(out: &mut String, v: &MemoryViewType)
    ensures
        final(out)@ == old(out)@ + memory_view_text(*v),
    decreases *v.inner, 1nat,
{
    out.append(storage_class_str(v.storage_class));
    out.append(", ");
    write_data_type(out, &*v.inner);
    if v.access_mode != v.storage_class.default_access_mode() {
        out.append(", ");
        out.append(access_mode_str(v.access_mode));
    }
    assert(final(out)@ =~= old(out)@ + memory_view_text(*v)) by {
        assert(old(out)@ + storage_class_text(v.storage_class) + ", "@ + data_type_text(*v.inner) + access_suffix(*v)
            =~= old(out)@ + memory_view_text(*v));
    }
}

#[verifier::spinoff_prover]
#[verifier::rlimit(40)]
fn write_data_type(out: &mut String, t: &DataType)
    ensures
        final(out)@ == old(out)@ + data_type_text(*t),
    decreases *t, 0nat,
{
    let ghost start = out@;
    match t {
        DataType::Scalar(s) => {
            out.append(scalar_str(*s));
        },
        DataType::Vector(n, s) => {
            out.append("vec");
            append_decimal(out, *n as usize);
            out.append("<");
            out.append(scalar_str(*s));
            out.append(">");
        },
        DataType::Array(inner, n) => {
            out.append("array<");
            write_data_type(out, &**inner);
            match n {
                Some(k) => {
                    out.append(", ");
                    append_decimal(out, *k as usize);
                },
                None => {},
            }
            out.append(">");
        },
        DataType::Struct(decl) => {
            out.append(decl.name.as_str());
        },
        DataType::Ptr(view) => {
            out.append("ptr<");
            write_memory_view(out, view);
            out.append(">");
        },
        DataType::Ref(view) => {
            out.append("ref<");
            write_memory_view(out, view);
            out.append(">");
        },
        DataType::Atomic(s) => {
            out.append("atomic<");
            out.append(scalar_str(*s));
            out.append(">");
        },
        DataType::AtomicCompareExchangeResult(s) => {
            out.append("__atomic_compare_exchange_result<");
            out.append(scalar_str(*s));
            out.append(">");
        },
    }
    assert(out@ =~= start + data_type_text(*t));
}

impl MemoryViewType {
    /// The source text of the memory view: address space, type and, where it is not
    /// the default, access mode.
    pub fn fmt(&self) -> (r: String)
        ensures
            r@ == memory_view_text(*self),
    {
        let mut out = String::new();
        write_memory_view(&mut out, self);
        assert(out@ =~= memory_view_text(*self));
        out
    }
}

impl DataType {
    /// The source text of the type.
    pub fn fmt(&self) -> (r: String)
        ensures
            r@ == data_type_text(*self),
    {
        let mut out = String::new();
        write_data_type(&mut out, self);
        assert(out@ =~= data_type_text(*self));
        out
    }
}

/// The source text of a structure member's attribute.
pub open spec fn member_attr_text(a: StructMemberAttr) -> Seq<char> {
    match a {
        StructMemberAttr::Align(n) => "align("@ + decimal_digits(n as nat) + ")"@,
    }
}

#[verifier::spinoff_prover]
#[verifier::rlimit(40)]
fn write_member_attr(out: &mut String, a: &StructMemberAttr)
    ensures
        final(out)@ == old(out)@ + member_attr_text(*a),
{
    match a {
        StructMemberAttr::Align(n) => {
            out.append("align(");
            append_decimal(out, *n as usize);
            out.append(")");
        },
    }
    assert(final(out)@ =~= old(out)@ + member_attr_text(*a));
}

impl StructMemberAttr {
    /// The source text of the attribute.
    pub fn fmt(&self) -> (r: String)
        ensures
            r@ == member_attr_text(*self),
    {
        let mut out = String::new();
        write_member_attr(&mut out, self);
        assert(out@ =~= member_attr_text(*self));
        out
    }
}

/// `ff` spells any float, and spells the same bits the same way each time.
pub open spec fn float_spelling_deterministic<F: Fn(u32) -> String>(ff: F) -> bool {
    &&& forall|b: u32| #[trigger] call_requires(ff, (b,))
    &&& forall|b: u32, x: String, y: String|
        #[trigger] call_ensures(ff, (b,), x) && #[trigger] call_ensures(ff, (b,), y) ==> x@ == y@
}

/// How `ff` spells the float with bits `b`.
pub open spec fn float_spelling<F: Fn(u32) -> String>(ff: F, b: u32) -> Seq<char> {
    (choose|r: String| call_ensures(ff, (b,), r))@
}

#[verifier::spinoff_prover]
#[verifier::rlimit(40)]
fn append_float<F: Fn(u32) -> String>(out: &mut String, ff: &F, b: u32)
    requires
        float_spelling_deterministic(*ff),
    ensures
        final(out)@ == old(out)@ + float_spelling(*ff, b),
{
    let text = ff(b);
    proof {
        let c = choose|r: String| call_ensures(*ff, (b,), r);
        assert(call_ensures(*ff, (b,), c));
    }
    out.append(text.as_str());
}

/// The bits of a float that compares less than zero: the sign is set, and it is
/// neither zero nor NaN.
pub open spec fn f32_bits_negative(b: u32) -> bool {
    0x8000_0000 < b <= 0xff80_0000
}

/// The source text of a literal: integers carry their suffix, and the least `i32`,
/// which has no literal, is written as a conversion.
pub open spec fn lit_text<F: Fn(u32) -> String>(ff: F, l: Lit) -> Seq<char> {
    match l {
        Lit::Bool(b) => if b {
            "true"@
        } else {
            "false"@
        },
        Lit::I32(v) => if v == i32::MIN {
            "i32("@ + int_text(v as int) + ")"@
        } else {
            int_text(v as int) + "i"@
        },
        Lit::U32(v) => decimal_digits(v as nat) + "u"@,
        Lit::F32(b) => float_spelling(ff, b) + "f"@,
    }
}

#[verifier::spinoff_prover]
#[verifier::rlimit(40)]
fn write_lit<F: Fn(u32) -> String>(out: &mut String, ff: &F, l: &Lit)
    requires
        float_spelling_deterministic(*ff),
    ensures
        final(out)@ == old(out)@ + lit_text(*ff, *l),
{
    let ghost start = out@;
    match l {
        Lit::Bool(b) => {
            if *b {
                out.append("true");
            } else {
                out.append("false");
            }
        },
        Lit::I32(v) => {
            if *v == i32::MIN {
                out.append("i32(");
                append_i32(out, *v);
                out.append(")");
            } else {
                append_i32(out, *v);
                out.append("i");
            }
        },
        Lit::U32(v) => {
            append_decimal(out, *v as usize);
            out.append("u");
        },
        Lit::F32(b) => {
            append_float(out, ff, *b);
            out.append("f");
        },
    }
    assert(out@ =~= start + lit_text(*ff, *l));
}

impl Lit {
    /// The source text of the literal; `ff` spells floats.
    pub fn fmt<F: Fn(u32) -> String>(&self, ff: &F) -> (r: String)
        requires
            float_spelling_deterministic(*ff),
        ensures
            r@ == lit_text(*ff, *self),
    {
        let mut out = String::new();
        write_lit(&mut out, ff, self);
        assert(out@ =~= lit_text(*ff, *self));
        out
    }
}

/// The source text of a unary operator.
pub open spec fn unop_text(op: UnOp) -> Seq<char> {
    match op {
        UnOp::Neg => "-"@,
        UnOp::Not => "!"@,
        UnOp::BitNot => "~"@,
        UnOp::AddressOf => "&"@,
        UnOp::Deref => "*"@,
    }
}

fn unop_str(op: UnOp) -> (r: &'static str)
    ensures
        r@ == unop_text(op),
{
    match op {
        UnOp::Neg => "-",
        UnOp::Not => "!",
        UnOp::BitNot => "~",
        UnOp::AddressOf => "&",
        UnOp::Deref => "*",
    }
}

impl UnOp {
    /// The source text of the operator.
    pub fn fmt(&self) -> (r: String)
        ensures
            r@ == unop_text(*self),
    {
        String::from_str(unop_str(*self))
    }
}

/// The source text of a binary operator.
pub open spec fn binop_text(op: BinOp) -> Seq<char> {
    match op {
        BinOp::Plus => "+"@,
        BinOp::Minus => "-"@,
        BinOp::Times => "*"@,
        BinOp::Divide => "/"@,
        BinOp::Mod => "%"@,
        BinOp::LogAnd => "&&"@,
        BinOp::LogOr => "||"@,
        BinOp::BitAnd => "&"@,
        BinOp::BitOr => "|"@,
        BinOp::BitXOr => "^"@,
        BinOp::LShift => "<<"@,
        BinOp::RShift => ">>"@,
        BinOp::Equal => "=="@,
        BinOp::NotEqual => "!="@,
        BinOp::Less => "<"@,
        BinOp::LessEqual => "<="@,
        BinOp::Greater => ">"@,
        BinOp::GreaterEqual => ">="@,
    }
}

fn binop_str(op: BinOp) -> (r: &'static str)
    ensures
        r@ == binop_text(op),
{
    match op {
        BinOp::Plus => "+",
        BinOp::Minus => "-",
        BinOp::Times => "*",
        BinOp::Divide => "/",
        BinOp::Mod => "%",
        BinOp::LogAnd => "&&",
        BinOp::LogOr => "||",
        BinOp::BitAnd => "&",
        BinOp::BitOr => "|",
        BinOp::BitXOr => "^",
        BinOp::LShift => "<<",
        BinOp::RShift => ">>",
        BinOp::Equal => "==",
        BinOp::NotEqual => "!=",
        BinOp::Less => "<",
        BinOp::LessEqual => "<=",
        BinOp::Greater => ">",
        BinOp::GreaterEqual => ">=",
    }
}

/// A number that tells apart texts of at most two characters.
spec fn text_key(s: Seq<char>) -> int {
    s.len() * 65536 + (s[0] as int) * 256 + if s.len() > 1 {
        s[1] as int
    } else {
        0
    }
}

proof fn lemma_token_key(op: BinOp)
    ensures
        binop_text(op).len() <= 2,
        text_key(binop_text(op)) == match op {
            BinOp::Plus => 76544int,
            BinOp::Minus => 77056int,
            BinOp::Times => 76288int,
            BinOp::Divide => 77568int,
            BinOp::Mod => 75008int,
            BinOp::LogAnd => 140838int,
            BinOp::LogOr => 162940int,
            BinOp::BitAnd => 75264int,
            BinOp::BitOr => 97280int,
            BinOp::BitXOr => 89600int,
            BinOp::LShift => 146492int,
            BinOp::RShift => 147006int,
            BinOp::Equal => 146749int,
            BinOp::NotEqual => 139581int,
            BinOp::Less => 80896int,
            BinOp::LessEqual => 146493int,
            BinOp::Greater => 81408int,
            BinOp::GreaterEqual => 147005int,
        },
{
    match op {
        BinOp::Plus => {
            reveal_strlit("+");
            assert(text_key(binop_text(op)) == 76544);
        },
        BinOp::Minus => {
            reveal_strlit("-");
            assert(text_key(binop_text(op)) == 77056);
        },
        BinOp::Times => {
            reveal_strlit("*");
            assert(text_key(binop_text(op)) == 76288);
        },
        BinOp::Divide => {
            reveal_strlit("/");
            assert(text_key(binop_text(op)) == 77568);
        },
        BinOp::Mod => {
            reveal_strlit("%");
            assert(text_key(binop_text(op)) == 75008);
        },
        BinOp::LogAnd => {
            reveal_strlit("&&");
            assert(text_key(binop_text(op)) == 140838);
        },
        BinOp::LogOr => {
            reveal_strlit("||");
            assert(text_key(binop_text(op)) == 162940);
        },
        BinOp::BitAnd => {
            reveal_strlit("&");
            assert(text_key(binop_text(op)) == 75264);
        },
        BinOp::BitOr => {
            reveal_strlit("|");
            assert(text_key(binop_text(op)) == 97280);
        },
        BinOp::BitXOr => {
            reveal_strlit("^");
            assert(text_key(binop_text(op)) == 89600);
        },
        BinOp::LShift => {
            reveal_strlit("<<");
            assert(text_key(binop_text(op)) == 146492);
        },
        BinOp::RShift => {
            reveal_strlit(">>");
            assert(text_key(binop_text(op)) == 147006);
        },
        BinOp::Equal => {
            reveal_strlit("==");
            assert(text_key(binop_text(op)) == 146749);
        },
        BinOp::NotEqual => {
            reveal_strlit("!=");
            assert(text_key(binop_text(op)) == 139581);
        },
        BinOp::Less => {
            reveal_strlit("<");
            assert(text_key(binop_text(op)) == 80896);
        },
        BinOp::LessEqual => {
            reveal_strlit("<=");
            assert(text_key(binop_text(op)) == 146493);
        },
        BinOp::Greater => {
            reveal_strlit(">");
            assert(text_key(binop_text(op)) == 81408);
        },
        BinOp::GreaterEqual => {
            reveal_strlit(">=");
            assert(text_key(binop_text(op)) == 147005);
        },
    }
}

/// Law of `BinOp::fmt`: each binary operator is written as its WGSL token, and no two
/// operators are written alike.
pub proof fn law_binop_tokens(a: BinOp, b: BinOp)
    ensures
        binop_text(BinOp::Plus) == "+"@,
        binop_text(BinOp::Minus) == "-"@,
        binop_text(BinOp::Times) == "*"@,
        binop_text(BinOp::Divide) == "/"@,
        binop_text(BinOp::Mod) == "%"@,
        binop_text(BinOp::LogAnd) == "&&"@,
        binop_text(BinOp::LogOr) == "||"@,
        binop_text(BinOp::BitAnd) == "&"@,
        binop_text(BinOp::BitOr) == "|"@,
        binop_text(BinOp::BitXOr) == "^"@,
        binop_text(BinOp::LShift) == "<<"@,
        binop_text(BinOp::RShift) == ">>"@,
        binop_text(BinOp::Equal) == "=="@,
        binop_text(BinOp::NotEqual) == "!="@,
        binop_text(BinOp::Less) == "<"@,
        binop_text(BinOp::LessEqual) == "<="@,
        binop_text(BinOp::Greater) == ">"@,
        binop_text(BinOp::GreaterEqual) == ">="@,
        a != b ==> binop_text(a) != binop_text(b),
{
    lemma_token_key(a);
    lemma_token_key(b);
}

impl BinOp {
    /// The source text of the operator.
    pub fn fmt(&self) -> (r: String)
        ensures
            r@ == binop_text(*self),
    {
        String::from_str(binop_str(*self))
    }
}

/// An operator expression, which is parenthesized where it is an operand.
pub open spec fn is_op_expr(e: Expr) -> bool {
    e is UnOp || e is BinOp
}

/// A literal that compares less than zero.
pub open spec fn is_negative_lit(e: Expr) -> bool {
    match e {
        Expr::Lit(Lit::I32(v)) => v < 0,
        Expr::Lit(Lit::F32(b)) => f32_bits_negative(b),
        _ => false,
    }
}

/// The source text of an expression. A postfix applies to its operand in parentheses
/// where that is an operator expression; a unary operator does so too where its
/// operand is a negative literal, and is left out where it negates the literal `0i`; a
/// binary operator puts an operand in parentheses where it is a binary operator
/// expression.
pub open spec fn expr_text<F: Fn(u32) -> String>(ff: F, e: Expr) -> Seq<char>
    decreases e, 0nat,
{
    match e {
        Expr::Lit(l) => lit_text(ff, l),
        Expr::TypeCons(tc) => data_type_text(tc.data_type) + "("@ + args_text(ff, tc.args@, 0) + ")"@,
        Expr::Var(v) => v.ident@,
        Expr::Postfix(p) => paren_text(ff, p.inner.expr, is_op_expr(p.inner.expr)) + match p.postfix {
            Postfix::Index(i) => "["@ + expr_text(ff, i.expr) + "]"@,
            Postfix::Member(m) => "."@ + m@,
        },
        Expr::UnOp(u) => if u.op == UnOp::Neg && u.inner.expr == Expr::Lit(Lit::I32(0)) {
            expr_text(ff, u.inner.expr)
        } else {
            unop_text(u.op) + paren_text(ff, u.inner.expr, is_op_expr(u.inner.expr) || is_negative_lit(u.inner.expr))
        },
        Expr::BinOp(b) => paren_text(ff, b.left.expr, b.left.expr is BinOp) + " "@ + binop_text(b.op) + " "@
            + paren_text(ff, b.right.expr, b.right.expr is BinOp),
        Expr::FnCall(c) => c.ident@ + "("@ + args_text(ff, c.args@, 0) + ")"@,
    }
}

/// The source text of an operand, in parentheses if `paren`.
pub open spec fn paren_text<F: Fn(u32) -> String>(ff: F, e: Expr, paren: bool) -> Seq<char>
    decreases e, 1nat,
{
    if paren {
        "("@ + expr_text(ff, e) + ")"@
    } else {
        expr_text(ff, e)
    }
}

/// The source text of the arguments from index `k` on, separated by commas.
pub open spec fn args_text<F: Fn(u32) -> String>(ff: F, args: Seq<ExprNode>, k: int) -> Seq<char>
    decreases args, if k < args.len() { args.len() - k } else { 0 },
{
    if k < 0 || k >= args.len() {
        Seq::empty()
    } else {
        expr_text(ff, args[k].expr) + (if k + 1 < args.len() {
            ", "@
        } else {
            Seq::empty()
        }) + args_text(ff, args, k + 1)
    }
}

/// The source text of a typed expression: that of its expression.
pub open spec fn node_text<F: Fn(u32) -> String>(ff: F, n: ExprNode) -> Seq<char> {
    expr_text(ff, n.expr)
}

#[verifier::spinoff_prover]
#[verifier::rlimit(40)]
fn write_paren<F: Fn(u32) -> String>(out: &mut String, ff: &F, e: &Expr, paren: bool)
    requires
        float_spelling_deterministic(*ff),
    ensures
        final(out)@ == old(out)@ + paren_text(*ff, *e, paren),
    decreases *e, 1nat,
{
    let ghost start = out@;
    if paren {
        out.append("(");
        write_expr(out, ff, e);
        out.append(")");
    } else {
        write_expr(out, ff, e);
    }
    assert(out@ =~= start + paren_text(*ff, *e, paren));
}

#[verifier::spinoff_prover]
#[verifier::rlimit(40)]
fn write_postfix<F: Fn(u32) -> String>(out: &mut String, ff: &F, p: &PostfixExpr)
    requires
        float_spelling_deterministic(*ff),
    ensures
        final(out)@ == old(out)@ + expr_text(*ff, Expr::Postfix(*p)),
    decreases *p, 0nat,
{
    let ghost start = out@;
    let paren = match &p.inner.expr {
        Expr::UnOp(_) | Expr::BinOp(_) => true,
        _ => false,
    };
    write_paren(out, ff, &p.inner.expr, paren);
    match &p.postfix {
        Postfix::Index(i) => {
            out.append("[");
            write_expr(out, ff, &i.expr);
            out.append("]");
        },
        Postfix::Member(m) => {
            out.append(".");
            out.append(m.as_str());
        },
    }
    assert(out@ =~= start + expr_text(*ff, Expr::Postfix(*p)));
}

#[verifier::spinoff_prover]
#[verifier::rlimit(40)]
fn write_unop<F: Fn(u32) -> String>(out: &mut String, ff: &F, u: &UnOpExpr)
    requires
        float_spelling_deterministic(*ff),
    ensures
        final(out)@ == old(out)@ + expr_text(*ff, Expr::UnOp(*u)),
    decreases *u, 0nat,
{
    let ghost start = out@;
    let zero = match (&u.op, &u.inner.expr) {
        (UnOp::Neg, Expr::Lit(Lit::I32(0))) => true,
        _ => false,
    };
    if zero {
        write_expr(out, ff, &u.inner.expr);
    } else {
        let paren = match &u.inner.expr {
            Expr::UnOp(_) | Expr::BinOp(_) => true,
            Expr::Lit(Lit::I32(v)) => *v < 0,
            Expr::Lit(Lit::F32(b)) => 0x8000_0000u32 < *b && *b <= 0xff80_0000u32,
            _ => false,
        };
        out.append(unop_str(u.op));
        write_paren(out, ff, &u.inner.expr, paren);
    }
    assert(out@ =~= start + expr_text(*ff, Expr::UnOp(*u)));
}

#[verifier::spinoff_prover]
#[verifier::rlimit(40)]
fn write_binop<F: Fn(u32) -> String>(out: &mut String, ff: &F, b: &BinOpExpr)
    requires
        float_spelling_deterministic(*ff),
    ensures
        final(out)@ == old(out)@ + expr_text(*ff, Expr::BinOp(*b)),
    decreases *b, 0nat,
{
    let ghost start = out@;
    let left_paren = match &b.left.expr {
        Expr::BinOp(_) => true,
        _ => false,
    };
    let right_paren = match &b.right.expr {
        Expr::BinOp(_) => true,
        _ => false,
    };
    write_paren(out, ff, &b.left.expr, left_paren);
    out.append(" ");
    out.append(binop_str(b.op));
    out.append(" ");
    write_paren(out, ff, &b.right.expr, right_paren);
    assert(out@ =~= start + expr_text(*ff, Expr::BinOp(*b)));
}

#[verifier::spinoff_prover]
#[verifier::rlimit(40)]
fn write_expr<F: Fn(u32) -> String>(out: &mut String, ff: &F, e: &Expr)
    requires
        float_spelling_deterministic(*ff),
    ensures
        final(out)@ == old(out)@ + expr_text(*ff, *e),
    decreases *e, 0nat,
{
    let ghost start = out@;
    match e {
        Expr::Lit(l) => write_lit(out, ff, l),
        Expr::TypeCons(tc) => {
            write_data_type(out, &tc.data_type);
            out.append("(");
            write_args(out, ff, &tc.args, 0);
            out.append(")");
        },
        Expr::Var(v) => out.append(v.ident.as_str()),
        Expr::Postfix(p) => write_postfix(out, ff, p),
        Expr::UnOp(u) => write_unop(out, ff, u),
        Expr::BinOp(b) => write_binop(out, ff, b),
        Expr::FnCall(c) => {
            out.append(c.ident.as_str());
            out.append("(");
            write_args(out, ff, &c.args, 0);
            out.append(")");
        },
    }
    assert(out@ =~= start + expr_text(*ff, *e));
}

#[verifier::spinoff_prover]
#[verifier::rlimit(40)]
fn write_args<F: Fn(u32) -> String>(out: &mut String, ff: &F, args: &Vec<ExprNode>, k: usize)
    requires
        float_spelling_deterministic(*ff),
    ensures
        final(out)@ == old(out)@ + args_text(*ff, args@, k as int),
    decreases args@, args@.len() - k,
{
    let ghost start = out@;
    if k < args.len() {
        write_expr(out, ff, &args[k].expr);
        if k + 1 < args.len() {
            out.append(", ");
        }
        write_args(out, ff, args, k + 1);
    }
    assert(out@ =~= start + args_text(*ff, args@, k as int));
}

impl Expr {
    /// The source text of the expression; `ff` spells floats.
    pub fn fmt<F: Fn(u32) -> String>(&self, ff: &F) -> (r: String)
        requires
            float_spelling_deterministic(*ff),
        ensures
            r@ == expr_text(*ff, *self),
    {
        let mut out = String::new();
        write_expr(&mut out, ff, self);
        assert(out@ =~= expr_text(*ff, *self));
        out
    }
}

impl ExprNode {
    /// The source text of the expression; `ff` spells floats.
    pub fn fmt<F: Fn(u32) -> String>(&self, ff: &F) -> (r: String)
        requires
            float_spelling_deterministic(*ff),
        ensures
            r@ == node_text(*ff, *self),
    {
        self.expr.fmt(ff)
    }
}

impl PostfixExpr {
    /// The source text of the postfix expression; `ff` spells floats.
    pub fn fmt<F: Fn(u32) -> String>(&self, ff: &F) -> (r: String)
        requires
            float_spelling_deterministic(*ff),
        ensures
            r@ == expr_text(*ff, Expr::Postfix(*self)),
    {
        let mut out = String::new();
        write_postfix(&mut out, ff, self);
        assert(out@ =~= expr_text(*ff, Expr::Postfix(*self)));
        out
    }
}

impl UnOpExpr {
    /// The source text of the unary operator expression; `ff` spells floats.
    pub fn fmt<F: Fn(u32) -> String>(&self, ff: &F) -> (r: String)
        requires
            float_spelling_deterministic(*ff),
        ensures
            r@ == expr_text(*ff, Expr::UnOp(*self)),
    {
        let mut out = String::new();
        write_unop(&mut out, ff, self);
        assert(out@ =~= expr_text(*ff, Expr::UnOp(*self)));
        out
    }
}

impl BinOpExpr {
    /// The source text of the binary operator expression; `ff` spells floats.
    pub fn fmt<F: Fn(u32) -> String>(&self, ff: &F) -> (r: String)
        requires
            float_spelling_deterministic(*ff),
        ensures
            r@ == expr_text(*ff, Expr::BinOp(*self)),
    {
        let mut out = String::new();
        write_binop(&mut out, ff, self);
        assert(out@ =~= expr_text(*ff, Expr::BinOp(*self)));
        out
    }
}

impl Postfix {
    /// The source text of the postfix; `ff` spells floats.
    pub fn fmt<F: Fn(u32) -> String>(&self, ff: &F) -> (r: String)
        requires
            float_spelling_deterministic(*ff),
        ensures
            r@ == postfix_text(*ff, *self),
    {
        let mut out = String::new();
        write_postfix_only(&mut out, ff, self);
        assert(out@ =~= postfix_text(*ff, *self));
        out
    }
}

/// The source text of a postfix: an index in brackets or a member after a dot.
pub open spec fn postfix_text<F: Fn(u32) -> String>(ff: F, p: Postfix) -> Seq<char> {
    match p {
        Postfix::Index(i) => "["@ + expr_text(ff, i.expr) + "]"@,
        Postfix::Member(m) => "."@ + m@,
    }
}

#[verifier::spinoff_prover]
#[verifier::rlimit(40)]
fn write_postfix_only<F: Fn(u32) -> String>(out: &mut String, ff: &F, p: &Postfix)
    requires
        float_spelling_deterministic(*ff),
    ensures
        final(out)@ == old(out)@ + postfix_text(*ff, *p),
{
    let ghost start = out@;
    match p {
        Postfix::Index(i) => {
            out.append("[");
            write_expr(out, ff, &i.expr);
            out.append("]");
        },
        Postfix::Member(m) => {
            out.append(".");
            out.append(m.as_str());
        },
    }
    assert(out@ =~= start + postfix_text(*ff, *p));
}

/// `s` with four spaces put before each of its lines that is not empty.
pub open spec fn indented_text(s: Seq<char>) -> Seq<char> {
    indent_from(s, true)
}

/// `s` indented, where `at_line_start` says whether its first character starts a line.
pub open spec fn indent_from(s: Seq<char>, at_line_start: bool) -> Seq<char>
    decreases s.len(),
{
    if s.len() == 0 {
        Seq::empty()
    } else {
        (if at_line_start && s[0] != '\n' {
            "    "@
        } else {
            Seq::empty()
        }) + seq![s[0]] + indent_from(s.drop_first(), s[0] == '\n')
    }
}

/// Writes `s` through `indenter::indented`, which starts each line of `s` that has
/// text on it with four spaces (its uniform indentation) and passes everything else
/// through unchanged.
#[verifier::external_body]
pub(crate) fn indent(s: &str) -> (r: String)
    ensures
        r@ == indented_text(s@),
{
    let mut out = String::new();
    let _ = write!(indented(&mut out), "{}", s);
    out
}

/// Appends the text of `s` followed by a line break, indented by one level.
#[verifier::spinoff_prover]
#[verifier::rlimit(40)]
fn append_indented(out: &mut String, s: String)
    ensures
        final(out)@ == old(out)@ + indented_text(s@ + "\n"@),
{
    let mut line = s;
    line.append("\n");
    let ind = indent(line.as_str());
    out.append(ind.as_str());
}

/// Appends the text of `s` followed by a line break, indented by two levels.
#[verifier::spinoff_prover]
#[verifier::rlimit(40)]
fn append_twice_indented(out: &mut String, s: String)
    ensures
        final(out)@ == old(out)@ + indented_text(indented_text(s@ + "\n"@)),
{
    let mut line = s;
    line.append("\n");
    let once = indent(line.as_str());
    let twice = indent(once.as_str());
    out.append(twice.as_str());
}

/// The source text of an assignment operator.
pub open spec fn assignment_op_text(op: AssignmentOp) -> Seq<char> {
    match op {
        AssignmentOp::Simple => "="@,
        AssignmentOp::Plus => "+="@,
        AssignmentOp::Minus => "-="@,
        AssignmentOp::Times => "*="@,
        AssignmentOp::Divide => "/="@,
        AssignmentOp::Mod => "%="@,
        AssignmentOp::And => "&="@,
        AssignmentOp::Or => "|="@,
        AssignmentOp::Xor => "^="@,
    }
}

fn assignment_op_str(op: &AssignmentOp) -> (r: &'static str)
    ensures
        r@ == assignment_op_text(*op),
{
    match op {
        AssignmentOp::Simple => "=",
        AssignmentOp::Plus => "+=",
        AssignmentOp::Minus => "-=",
        AssignmentOp::Times => "*=",
        AssignmentOp::Divide => "/=",
        AssignmentOp::Mod => "%=",
        AssignmentOp::And => "&=",
        AssignmentOp::Or => "|=",
        AssignmentOp::Xor => "^=",
    }
}

impl AssignmentOp {
    /// The source text of the operator.
    pub fn fmt(&self) -> (r: String)
        ensures
            r@ == assignment_op_text(*self),
    {
        String::from_str(assignment_op_str(self))
    }
}

/// The source text of the target of an assignment. A dereference and an address-of
/// are written as the fixed texts `*(_0)` and `&(_0)`, which do not show their
/// operand.
pub open spec fn lhs_expr_text<F: Fn(u32) -> String>(ff: F, n: LhsExprNode) -> Seq<char>
    decreases n,
{
    match n.expr {
        LhsExpr::Ident(name) => name@,
        LhsExpr::Postfix(inner, p) => "("@ + lhs_expr_text(ff, *inner) + ")"@ + postfix_text(ff, p),
        LhsExpr::Deref(_) => "*(_0)"@,
        LhsExpr::AddressOf(_) => "&(_0)"@,
    }
}

#[verifier::spinoff_prover]
#[verifier::rlimit(40)]
fn write_lhs_expr<F: Fn(u32) -> String>(out: &mut String, ff: &F, n: &LhsExprNode)
    requires
        float_spelling_deterministic(*ff),
    ensures
        final(out)@ == old(out)@ + lhs_expr_text(*ff, *n),
    decreases *n,
{
    let ghost start = out@;
    match &n.expr {
        LhsExpr::Ident(name) => out.append(name.as_str()),
        LhsExpr::Postfix(inner, p) => {
            out.append("(");
            write_lhs_expr(out, ff, &**inner);
            out.append(")");
            write_postfix_only(out, ff, p);
        },
        LhsExpr::Deref(_) => out.append("*(_0)"),
        LhsExpr::AddressOf(_) => out.append("&(_0)"),
    }
    assert(out@ =~= start + lhs_expr_text(*ff, *n));
}

impl LhsExprNode {
    /// The source text of the assignment target; `ff` spells floats.
    pub fn fmt<F: Fn(u32) -> String>(&self, ff: &F) -> (r: String)
        requires
            float_spelling_deterministic(*ff),
        ensures
            r@ == lhs_expr_text(*ff, *self),
    {
        let mut out = String::new();
        write_lhs_expr(&mut out, ff, self);
        assert(out@ =~= lhs_expr_text(*ff, *self));
        out
    }
}

/// The source text of the left-hand side of an assignment: `_` for the phony target.
pub open spec fn lhs_text<F: Fn(u32) -> String>(ff: F, l: AssignmentLhs) -> Seq<char> {
    match l {
        AssignmentLhs::Phony => "_"@,
        AssignmentLhs::Expr(n) => lhs_expr_text(ff, n),
    }
}

#[verifier::spinoff_prover]
#[verifier::rlimit(40)]
fn write_lhs<F: Fn(u32) -> String>(out: &mut String, ff: &F, l: &AssignmentLhs)
    requires
        float_spelling_deterministic(*ff),
    ensures
        final(out)@ == old(out)@ + lhs_text(*ff, *l),
{
    match l {
        AssignmentLhs::Phony => out.append("_"),
        AssignmentLhs::Expr(n) => write_lhs_expr(out, ff, n),
    }
}

impl AssignmentLhs {
    /// The source text of the left-hand side; `ff` spells floats.
    pub fn fmt<F: Fn(u32) -> String>(&self, ff: &F) -> (r: String)
        requires
            float_spelling_deterministic(*ff),
        ensures
            r@ == lhs_text(*ff, *self),
    {
        let mut out = String::new();
        write_lhs(&mut out, ff, self);
        assert(out@ =~= lhs_text(*ff, *self));
        out
    }
}

/// The source text of an assignment, without the semicolon.
pub open spec fn assignment_text<F: Fn(u32) -> String>(ff: F, a: AssignmentStatement) -> Seq<char> {
    lhs_text(ff, a.lhs) + " "@ + assignment_op_text(a.op) + " "@ + node_text(ff, a.rhs)
}

#[verifier::spinoff_prover]
#[verifier::rlimit(40)]
fn write_assignment<F: Fn(u32) -> String>(out: &mut String, ff: &F, a: &AssignmentStatement)
    requires
        float_spelling_deterministic(*ff),
    ensures
        final(out)@ == old(out)@ + assignment_text(*ff, *a),
{
    let ghost start = out@;
    write_lhs(out, ff, &a.lhs);
    out.append(" ");
    out.append(assignment_op_str(&a.op));
    out.append(" ");
    write_expr(out, ff, &a.rhs.expr);
    assert(out@ =~= start + assignment_text(*ff, *a));
}

impl AssignmentStatement {
    /// The source text of the assignment, without the semicolon; `ff` spells floats.
    pub fn fmt<F: Fn(u32) -> String>(&self, ff: &F) -> (r: String)
        requires
            float_spelling_deterministic(*ff),
        ensures
            r@ == assignment_text(*ff, *self),
    {
        let mut out = String::new();
        write_assignment(&mut out, ff, self);
        assert(out@ =~= assignment_text(*ff, *self));
        out
    }
}

/// The source text of a `let` declaration, without the semicolon.
pub open spec fn let_decl_text<F: Fn(u32) -> String>(ff: F, d: LetDeclStatement) -> Seq<char> {
    "let "@ + d.ident@ + " = "@ + node_text(ff, d.initializer)
}

#[verifier::spinoff_prover]
#[verifier::rlimit(40)]
fn write_let_decl<F: Fn(u32) -> String>(out: &mut String, ff: &F, d: &LetDeclStatement)
    requires
        float_spelling_deterministic(*ff),
    ensures
        final(out)@ == old(out)@ + let_decl_text(*ff, *d),
{
    let ghost start = out@;
    out.append("let ");
    out.append(d.ident.as_str());
    out.append(" = ");
    write_expr(out, ff, &d.initializer.expr);
    assert(out@ =~= start + let_decl_text(*ff, *d));
}

impl LetDeclStatement {
    /// The source text of the declaration, without the semicolon; `ff` spells floats.
    pub fn fmt<F: Fn(u32) -> String>(&self, ff: &F) -> (r: String)
        requires
            float_spelling_deterministic(*ff),
        ensures
            r@ == let_decl_text(*ff, *self),
    {
        let mut out = String::new();
        write_let_decl(&mut out, ff, self);
        assert(out@ =~= let_decl_text(*ff, *self));
        out
    }
}

/// The source text of a `var` declaration, without the semicolon: the type and the
/// initializer where there are any.
pub open spec fn var_decl_text<F: Fn(u32) -> String>(ff: F, d: VarDeclStatement) -> Seq<char> {
    "var "@ + d.ident@ + match d.data_type {
        Some(t) => ": "@ + data_type_text(t),
        None => Seq::empty(),
    } + match d.initializer {
        Some(i) => " = "@ + node_text(ff, i),
        None => Seq::empty(),
    }
}

#[verifier::spinoff_prover]
#[verifier::rlimit(40)]
fn write_var_decl<F: Fn(u32) -> String>(out: &mut String, ff: &F, d: &VarDeclStatement)
    requires
        float_spelling_deterministic(*ff),
    ensures
        final(out)@ == old(out)@ + var_decl_text(*ff, *d),
{
    let ghost start = out@;
    out.append("var ");
    out.append(d.ident.as_str());
    let ghost mid = out@;
    match &d.data_type {
        Some(t) => {
            out.append(": ");
            write_data_type(out, t);
        },
        None => {},
    }
    let ghost mid2 = out@;
    match &d.initializer {
        Some(i) => {
            out.append(" = ");
            write_expr(out, ff, &i.expr);
        },
        None => {},
    }
    proof {
        let dd = *d;
        let a: Seq<char> = match dd.data_type {
            Some(t) => ": "@ + data_type_text(t),
            None => Seq::empty(),
        };
        let b: Seq<char> = match dd.initializer {
            Some(i) => " = "@ + node_text(*ff, i),
            None => Seq::empty(),
        };
        assert(mid2 =~= mid + a);
        assert(out@ =~= mid2 + b);
    }
    assert(out@ =~= start + var_decl_text(*ff, *d));
}

impl VarDeclStatement {
    /// The source text of the declaration, without the semicolon; `ff` spells floats.
    pub fn fmt<F: Fn(u32) -> String>(&self, ff: &F) -> (r: String)
        requires
            float_spelling_deterministic(*ff),
        ensures
            r@ == var_decl_text(*ff, *self),
    {
        let mut out = String::new();
        write_var_decl(&mut out, ff, self);
        assert(out@ =~= var_decl_text(*ff, *self));
        out
    }
}

/// The source text of a `return`, without the semicolon.
pub open spec fn return_text<F: Fn(u32) -> String>(ff: F, r: ReturnStatement) -> Seq<char> {
    "return"@ + match r.value {
        Some(v) => " "@ + node_text(ff, v),
        None => Seq::empty(),
    }
}

#[verifier::spinoff_prover]
#[verifier::rlimit(40)]
fn write_return<F: Fn(u32) -> String>(out: &mut String, ff: &F, r: &ReturnStatement)
    requires
        float_spelling_deterministic(*ff),
    ensures
        final(out)@ == old(out)@ + return_text(*ff, *r),
{
    let ghost start = out@;
    out.append("return");
    match &r.value {
        Some(v) => {
            out.append(" ");
            write_expr(out, ff, &v.expr);
        },
        None => {},
    }
    assert(out@ =~= start + return_text(*ff, *r));
}

impl ReturnStatement {
    /// The source text of the `return`, without the semicolon; `ff` spells floats.
    pub fn fmt<F: Fn(u32) -> String>(&self, ff: &F) -> (r: String)
        requires
            float_spelling_deterministic(*ff),
        ensures
            r@ == return_text(*ff, *self),
    {
        let mut out = String::new();
        write_return(&mut out, ff, self);
        assert(out@ =~= return_text(*ff, *self));
        out
    }
}

/// The source text of a call statement, without the semicolon.
pub open spec fn call_stmt_text<F: Fn(u32) -> String>(ff: F, c: FnCallStatement) -> Seq<char> {
    c.ident@ + "("@ + args_text(ff, c.args@, 0) + ")"@
}

#[verifier::spinoff_prover]
#[verifier::rlimit(40)]
fn write_call_stmt<F: Fn(u32) -> String>(out: &mut String, ff: &F, c: &FnCallStatement)
    requires
        float_spelling_deterministic(*ff),
    ensures
        final(out)@ == old(out)@ + call_stmt_text(*ff, *c),
{
    let ghost start = out@;
    out.append(c.ident.as_str());
    out.append("(");
    write_args(out, ff, &c.args, 0);
    out.append(")");
    assert(out@ =~= start + call_stmt_text(*ff, *c));
}

impl FnCallStatement {
    /// The source text of the call, without the semicolon; `ff` spells floats.
    pub fn fmt<F: Fn(u32) -> String>(&self, ff: &F) -> (r: String)
        requires
            float_spelling_deterministic(*ff),
        ensures
            r@ == call_stmt_text(*ff, *self),
    {
        let mut out = String::new();
        write_call_stmt(&mut out, ff, self);
        assert(out@ =~= call_stmt_text(*ff, *self));
        out
    }
}

/// The header of a `for` loop up to the opening brace: initializer, condition and
/// update where there are any.
pub open spec fn for_header_text<F: Fn(u32) -> String>(ff: F, h: ForLoopHeader) -> Seq<char> {
    "for ("@ + match h.init {
        Some(ForLoopInit::VarDecl(d)) => var_decl_text(ff, d),
        None => Seq::empty(),
    } + "; "@ + match h.condition {
        Some(c) => node_text(ff, c),
        None => Seq::empty(),
    } + "; "@ + match h.update {
        Some(ForLoopUpdate::Assignment(a)) => assignment_text(ff, a),
        None => Seq::empty(),
    } + ") {\n"@
}

/// The source text of a statement. A block puts each of its statements on lines of
/// its own, indented by one level; the cases of a `switch` are indented by one level
/// and their statements by two.
pub open spec fn stmt_text<F: Fn(u32) -> String>(ff: F, s: Statement) -> Seq<char>
    decreases s, 0nat,
{
    match s {
        Statement::LetDecl(d) => let_decl_text(ff, d) + ";"@,
        Statement::VarDecl(d) => var_decl_text(ff, d) + ";"@,
        Statement::Assignment(a) => assignment_text(ff, a) + ";"@,
        Statement::Compound(ss) => "{\n"@ + block_text(ff, ss@, 0) + "}"@,
        Statement::If(i) => if_text(ff, i),
        Statement::Return(r) => return_text(ff, r) + ";"@,
        Statement::Loop(l) => "loop {\n"@ + block_text(ff, l.body@, 0) + "}"@,
        Statement::Break => "break;"@,
        Statement::Continue => "continue;"@,
        Statement::Switch(sw) => "switch ("@ + node_text(ff, sw.selector) + ") {\n"@ + cases_text(ff, sw.cases@, 0)
            + indented_text("default: {\n"@) + nested_block_text(ff, sw.default@, 0) + indented_text("}\n"@) + "}"@,
        Statement::Fallthrough => "fallthrough;"@,
        Statement::ForLoop(f) => for_header_text(ff, *f.header) + block_text(ff, f.body@, 0) + "}"@,
        Statement::FnCall(c) => call_stmt_text(ff, c) + ";"@,
    }
}

/// The source text of an `if` statement with its `else` branch, if any.
pub open spec fn if_text<F: Fn(u32) -> String>(ff: F, i: IfStatement) -> Seq<char>
    decreases i, 0nat,
{
    "if ("@ + node_text(ff, i.condition) + ") {\n"@ + block_text(ff, i.body@, 0) + "}"@ + match i.else_ {
        Some(e) => " "@ + else_text(ff, *e),
        None => Seq::empty(),
    }
}

/// The source text of an `else` branch.
pub open spec fn else_text<F: Fn(u32) -> String>(ff: F, e: Else) -> Seq<char>
    decreases e, 0nat,
{
    "else "@ + match e {
        Else::If(i) => if_text(ff, i),
        Else::Else(ss) => "{\n"@ + block_text(ff, ss@, 0) + "}"@,
    }
}

/// The statements from index `k` on, each on lines of its own indented by one level.
pub open spec fn block_text<F: Fn(u32) -> String>(ff: F, ss: Seq<Statement>, k: int) -> Seq<char>
    decreases ss, if k < ss.len() { ss.len() - k } else { 0 },
{
    if k < 0 || k >= ss.len() {
        Seq::empty()
    } else {
        indented_text(stmt_text(ff, ss[k]) + "\n"@) + block_text(ff, ss, k + 1)
    }
}

/// The statements from index `k` on, each on lines of its own indented by two levels.
pub open spec fn nested_block_text<F: Fn(u32) -> String>(ff: F, ss: Seq<Statement>, k: int) -> Seq<char>
    decreases ss, if k < ss.len() { ss.len() - k } else { 0 },
{
    if k < 0 || k >= ss.len() {
        Seq::empty()
    } else {
        indented_text(indented_text(stmt_text(ff, ss[k]) + "\n"@)) + nested_block_text(ff, ss, k + 1)
    }
}

/// The cases of a `switch` from index `k` on.
pub open spec fn cases_text<F: Fn(u32) -> String>(ff: F, cs: Seq<SwitchCase>, k: int) -> Seq<char>
    decreases cs, if k < cs.len() { cs.len() - k } else { 0 },
{
    if k < 0 || k >= cs.len() {
        Seq::empty()
    } else {
        indented_text("case "@ + node_text(ff, cs[k].selector) + ": {\n"@) + nested_block_text(ff, cs[k].body@, 0)
            + indented_text("}\n"@) + cases_text(ff, cs, k + 1)
    }
}

#[verifier::spinoff_prover]
#[verifier::rlimit(40)]
fn write_stmt<F: Fn(u32) -> String>(out: &mut String, ff: &F, s: &Statement)
    requires
        float_spelling_deterministic(*ff),
    ensures
        final(out)@ == old(out)@ + stmt_text(*ff, *s),
    decreases *s, 0nat,
{
    let ghost start = out@;
    match s {
        Statement::LetDecl(d) => {
            write_let_decl(out, ff, d);
            out.append(";");
        },
        Statement::VarDecl(d) => {
            write_var_decl(out, ff, d);
            out.append(";");
        },
        Statement::Assignment(a) => {
            write_assignment(out, ff, a);
            out.append(";");
        },
        Statement::Compound(ss) => {
            out.append("{\n");
            write_block(out, ff, ss, 0);
            out.append("}");
        },
        Statement::If(i) => write_if(out, ff, i),
        Statement::Return(r) => {
            write_return(out, ff, r);
            out.append(";");
        },
        Statement::Loop(l) => {
            out.append("loop {\n");
            write_block(out, ff, &l.body, 0);
            out.append("}");
        },
        Statement::Break => out.append("break;"),
        Statement::Continue => out.append("continue;"),
        Statement::Switch(sw) => write_switch(out, ff, sw),
        Statement::Fallthrough => out.append("fallthrough;"),
        Statement::ForLoop(f) => write_for(out, ff, f),
        Statement::FnCall(c) => {
            write_call_stmt(out, ff, c);
            out.append(";");
        },
    }
    assert(out@ =~= start + stmt_text(*ff, *s));
}

#[verifier::spinoff_prover]
#[verifier::rlimit(40)]
fn write_switch<F: Fn(u32) -> String>(out: &mut String, ff: &F, sw: &SwitchStatement)
    requires
        float_spelling_deterministic(*ff),
    ensures
        final(out)@ == old(out)@ + stmt_text(*ff, Statement::Switch(*sw)),
    decreases *sw, 0nat,
{
    let ghost start = out@;
    out.append("switch (");
    write_expr(out, ff, &sw.selector.expr);
    out.append(") {\n");
    write_cases(out, ff, &sw.cases, 0);
    let dflt = indent("default: {\n");
    out.append(dflt.as_str());
    write_nested_block(out, ff, &sw.default, 0);
    let close = indent("}\n");
    out.append(close.as_str());
    out.append("}");
    assert(out@ =~= start + stmt_text(*ff, Statement::Switch(*sw)));
}

#[verifier::spinoff_prover]
#[verifier::rlimit(40)]
fn write_for<F: Fn(u32) -> String>(out: &mut String, ff: &F, f: &ForLoopStatement)
    requires
        float_spelling_deterministic(*ff),
    ensures
        final(out)@ == old(out)@ + stmt_text(*ff, Statement::ForLoop(*f)),
    decreases *f, 0nat,
{
    let ghost start = out@;
    out.append("for (");
    let ghost a = out@;
    match &f.header.init {
        Some(ForLoopInit::VarDecl(d)) => write_var_decl(out, ff, d),
        None => {},
    }
    let ghost b = out@;
    out.append("; ");
    match &f.header.condition {
        Some(c) => write_expr(out, ff, &c.expr),
        None => {},
    }
    let ghost c = out@;
    out.append("; ");
    match &f.header.update {
        Some(ForLoopUpdate::Assignment(u)) => write_assignment(out, ff, u),
        None => {},
    }
    let ghost d = out@;
    out.append(") {\n");
    proof {
        let h = *f.header;
        let init: Seq<char> = match h.init {
            Some(ForLoopInit::VarDecl(v)) => var_decl_text(*ff, v),
            None => Seq::empty(),
        };
        let cond: Seq<char> = match h.condition {
            Some(x) => node_text(*ff, x),
            None => Seq::empty(),
        };
        let upd: Seq<char> = match h.update {
            Some(ForLoopUpdate::Assignment(x)) => assignment_text(*ff, x),
            None => Seq::empty(),
        };
        assert(b =~= a + init);
        assert(d =~= c + "; "@ + upd);
        assert(out@ =~= start + for_header_text(*ff, h));
    }
    write_block(out, ff, &f.body, 0);
    out.append("}");
    assert(out@ =~= start + stmt_text(*ff, Statement::ForLoop(*f)));
}

#[verifier::spinoff_prover]
#[verifier::rlimit(40)]
fn write_if<F: Fn(u32) -> String>(out: &mut String, ff: &F, i: &IfStatement)
    requires
        float_spelling_deterministic(*ff),
    ensures
        final(out)@ == old(out)@ + if_text(*ff, *i),
    decreases *i, 0nat,
{
    let ghost start = out@;
    out.append("if (");
    write_expr(out, ff, &i.condition.expr);
    out.append(") {\n");
    write_block(out, ff, &i.body, 0);
    out.append("}");
    let ghost mid = out@;
    match &i.else_ {
        Some(e) => {
            out.append(" ");
            write_else(out, ff, &**e);
        },
        None => {},
    }
    proof {
        let ii = *i;
        let tail: Seq<char> = match ii.else_ {
            Some(e) => " "@ + else_text(*ff, *e),
            None => Seq::empty(),
        };
        assert(out@ =~= mid + tail);
    }
    assert(out@ =~= start + if_text(*ff, *i));
}

#[verifier::spinoff_prover]
#[verifier::rlimit(40)]
fn write_else<F: Fn(u32) -> String>(out: &mut String, ff: &F, e: &Else)
    requires
        float_spelling_deterministic(*ff),
    ensures
        final(out)@ == old(out)@ + else_text(*ff, *e),
    decreases *e, 0nat,
{
    let ghost start = out@;
    out.append("else ");
    match e {
        Else::If(i) => write_if(out, ff, i),
        Else::Else(ss) => {
            out.append("{\n");
            write_block(out, ff, ss, 0);
            out.append("}");
        },
    }
    assert(out@ =~= start + else_text(*ff, *e));
}

#[verifier::spinoff_prover]
#[verifier::rlimit(40)]
fn write_block<F: Fn(u32) -> String>(out: &mut String, ff: &F, ss: &Vec<Statement>, k: usize)
    requires
        float_spelling_deterministic(*ff),
    ensures
        final(out)@ == old(out)@ + block_text(*ff, ss@, k as int),
    decreases ss@, ss@.len() - k,
{
    let ghost start = out@;
    if k < ss.len() {
        let mut line = String::new();
        write_stmt(&mut line, ff, &ss[k]);
        assert(line@ =~= stmt_text(*ff, ss@[k as int]));
        append_indented(out, line);
        write_block(out, ff, ss, k + 1);
    }
    assert(out@ =~= start + block_text(*ff, ss@, k as int));
}

#[verifier::spinoff_prover]
#[verifier::rlimit(40)]
fn write_nested_block<F: Fn(u32) -> String>(out: &mut String, ff: &F, ss: &Vec<Statement>, k: usize)
    requires
        float_spelling_deterministic(*ff),
    ensures
        final(out)@ == old(out)@ + nested_block_text(*ff, ss@, k as int),
    decreases ss@, ss@.len() - k,
{
    let ghost start = out@;
    if k < ss.len() {
        let mut line = String::new();
        write_stmt(&mut line, ff, &ss[k]);
        assert(line@ =~= stmt_text(*ff, ss@[k as int]));
        append_twice_indented(out, line);
        write_nested_block(out, ff, ss, k + 1);
    }
    assert(out@ =~= start + nested_block_text(*ff, ss@, k as int));
}

#[verifier::spinoff_prover]
#[verifier::rlimit(40)]
fn write_cases<F: Fn(u32) -> String>(out: &mut String, ff: &F, cs: &Vec<SwitchCase>, k: usize)
    requires
        float_spelling_deterministic(*ff),
    ensures
        final(out)@ == old(out)@ + cases_text(*ff, cs@, k as int),
    decreases cs@, cs@.len() - k,
{
    let ghost start = out@;
    if k < cs.len() {
        let case = &cs[k];
        let mut head = String::from_str("case ");
        write_expr(&mut head, ff, &case.selector.expr);
        head.append(": {\n");
        assert(head@ =~= "case "@ + node_text(*ff, case.selector) + ": {\n"@);
        let head_ind = indent(head.as_str());
        out.append(head_ind.as_str());
        write_nested_block(out, ff, &case.body, 0);
        let close = indent("}\n");
        out.append(close.as_str());
        write_cases(out, ff, cs, k + 1);
    }
    assert(out@ =~= start + cases_text(*ff, cs@, k as int));
}

impl Statement {
    /// The source text of the statement; `ff` spells floats.
    pub fn fmt<F: Fn(u32) -> String>(&self, ff: &F) -> (r: String)
        requires
            float_spelling_deterministic(*ff),
        ensures
            r@ == stmt_text(*ff, *self),
    {
        let mut out = String::new();
        write_stmt(&mut out, ff, self);
        assert(out@ =~= stmt_text(*ff, *self));
        out
    }
}

impl IfStatement {
    /// The source text of the `if` statement; `ff` spells floats.
    pub fn fmt<F: Fn(u32) -> String>(&self, ff: &F) -> (r: String)
        requires
            float_spelling_deterministic(*ff),
        ensures
            r@ == if_text(*ff, *self),
    {
        let mut out = String::new();
        write_if(&mut out, ff, self);
        assert(out@ =~= if_text(*ff, *self));
        out
    }
}

impl Else {
    /// The source text of the `else` branch; `ff` spells floats.
    pub fn fmt<F: Fn(u32) -> String>(&self, ff: &F) -> (r: String)
        requires
            float_spelling_deterministic(*ff),
        ensures
            r@ == else_text(*ff, *self),
    {
        let mut out = String::new();
        write_else(&mut out, ff, self);
        assert(out@ =~= else_text(*ff, *self));
        out
    }
}

impl LoopStatement {
    /// The source text of the loop; `ff` spells floats.
    pub fn fmt<F: Fn(u32) -> String>(&self, ff: &F) -> (r: String)
        requires
            float_spelling_deterministic(*ff),
        ensures
            r@ == "loop {\n"@ + block_text(*ff, self.body@, 0) + "}"@,
    {
        let mut out = String::from_str("loop {\n");
        write_block(&mut out, ff, &self.body, 0);
        out.append("}");
        out
    }
}

impl SwitchStatement {
    /// The source text of the `switch`; `ff` spells floats.
    pub fn fmt<F: Fn(u32) -> String>(&self, ff: &F) -> (r: String)
        requires
            float_spelling_deterministic(*ff),
        ensures
            r@ == stmt_text(*ff, Statement::Switch(*self)),
    {
        let mut out = String::new();
        write_switch(&mut out, ff, self);
        assert(out@ =~= stmt_text(*ff, Statement::Switch(*self)));
        out
    }
}

impl ForLoopStatement {
    /// The source text of the `for` loop; `ff` spells floats.
    pub fn fmt<F: Fn(u32) -> String>(&self, ff: &F) -> (r: String)
        requires
            float_spelling_deterministic(*ff),
        ensures
            r@ == stmt_text(*ff, Statement::ForLoop(*self)),
    {
        let mut out = String::new();
        write_for(&mut out, ff, self);
        assert(out@ =~= stmt_text(*ff, Statement::ForLoop(*self)));
        out
    }
}

/// The source text of a shader stage.
pub open spec fn stage_text(s: ShaderStage) -> Seq<char> {
    match s {
        ShaderStage::Compute => "compute"@,
        ShaderStage::Vertex => "vertex"@,
        ShaderStage::Fragment => "fragment"@,
    }
}

fn stage_str(s: ShaderStage) -> (r: &'static str)
    ensures
        r@ == stage_text(s),
{
    match s {
        ShaderStage::Compute => "compute",
        ShaderStage::Vertex => "vertex",
        ShaderStage::Fragment => "fragment",
    }
}

impl ShaderStage {
    /// The source text of the stage.
    pub fn fmt(&self) -> (r: String)
        ensures
            r@ == stage_text(*self),
    {
        String::from_str(stage_str(*self))
    }
}

/// The source text of a function attribute, without the `@`.
pub open spec fn fn_attr_text<F: Fn(u32) -> String>(ff: F, a: FnAttr) -> Seq<char> {
    match a {
        FnAttr::Stage(s) => "stage("@ + stage_text(s) + ")"@,
        FnAttr::WorkgroupSize(args) => "workgroup_size("@ + args_text(ff, args@, 0) + ")"@,
        FnAttr::MustUse => "must_use"@,
    }
}

#[verifier::spinoff_prover]
#[verifier::rlimit(40)]
fn write_fn_attr<F: Fn(u32) -> String>(out: &mut String, ff: &F, a: &FnAttr)
    requires
        float_spelling_deterministic(*ff),
    ensures
        final(out)@ == old(out)@ + fn_attr_text(*ff, *a),
{
    let ghost start = out@;
    match a {
        FnAttr::Stage(s) => {
            out.append("stage(");
            out.append(stage_str(*s));
            out.append(")");
        },
        FnAttr::WorkgroupSize(args) => {
            out.append("workgroup_size(");
            write_args(out, ff, args, 0);
            out.append(")");
        },
        FnAttr::MustUse => out.append("must_use"),
    }
    assert(out@ =~= start + fn_attr_text(*ff, *a));
}

impl FnAttr {
    /// The source text of the attribute, without the `@`; `ff` spells floats.
    pub fn fmt<F: Fn(u32) -> String>(&self, ff: &F) -> (r: String)
        requires
            float_spelling_deterministic(*ff),
        ensures
            r@ == fn_attr_text(*ff, *self),
    {
        let mut out = String::new();
        write_fn_attr(&mut out, ff, self);
        assert(out@ =~= fn_attr_text(*ff, *self));
        out
    }
}

/// The source text of an attribute of a function input or output, without the `@`.
pub open spec fn io_attr_text(a: FnIOAttr) -> Seq<char> {
    match a {
        FnIOAttr::Builtin(v) => "builtin("@ + spec_builtin_value_name(v) + ")"@,
        FnIOAttr::Invariant => "invariant"@,
        FnIOAttr::Location(n) => "location("@ + decimal_digits(n as nat) + ")"@,
    }
}

#[verifier::spinoff_prover]
#[verifier::rlimit(40)]
fn write_io_attr(out: &mut String, a: &FnIOAttr)
    ensures
        final(out)@ == old(out)@ + io_attr_text(*a),
{
    let ghost start = out@;
    match a {
        FnIOAttr::Builtin(v) => {
            out.append("builtin(");
            out.append(v.name());
            out.append(")");
        },
        FnIOAttr::Invariant => out.append("invariant"),
        FnIOAttr::Location(n) => {
            out.append("location(");
            append_decimal(out, *n as usize);
            out.append(")");
        },
    }
    assert(out@ =~= start + io_attr_text(*a));
}

impl FnIOAttr {
    /// The source text of the attribute, without the `@`.
    pub fn fmt(&self) -> (r: String)
        ensures
            r@ == io_attr_text(*self),
    {
        let mut out = String::new();
        write_io_attr(&mut out, self);
        assert(out@ =~= io_attr_text(*self));
        out
    }
}

/// The attributes from index `k` on, each as `@attr ` on the same line.
pub open spec fn inline_attrs_text(attrs: Seq<FnIOAttr>, k: int) -> Seq<char>
    decreases if k < attrs.len() { attrs.len() - k } else { 0 },
{
    if k < 0 || k >= attrs.len() {
        Seq::empty()
    } else {
        "@"@ + io_attr_text(attrs[k]) + " "@ + inline_attrs_text(attrs, k + 1)
    }
}

#[verifier::spinoff_prover]
#[verifier::rlimit(40)]
fn write_inline_attrs(out: &mut String, attrs: &Vec<FnIOAttr>, k: usize)
    ensures
        final(out)@ == old(out)@ + inline_attrs_text(attrs@, k as int),
    decreases attrs@.len() - k,
{
    let ghost start = out@;
    if k < attrs.len() {
        out.append("@");
        write_io_attr(out, &attrs[k]);
        out.append(" ");
        write_inline_attrs(out, attrs, k + 1);
    }
    assert(out@ =~= start + inline_attrs_text(attrs@, k as int));
}

/// The source text of a function parameter: its attributes, name and type.
pub open spec fn input_text(i: FnInput) -> Seq<char> {
    inline_attrs_text(i.attrs@, 0) + i.name@ + ": "@ + data_type_text(i.data_type)
}

#[verifier::spinoff_prover]
#[verifier::rlimit(40)]
fn write_input(out: &mut String, i: &FnInput)
    ensures
        final(out)@ == old(out)@ + input_text(*i),
{
    let ghost start = out@;
    write_inline_attrs(out, &i.attrs, 0);
    out.append(i.name.as_str());
    out.append(": ");
    write_data_type(out, &i.data_type);
    assert(out@ =~= start + input_text(*i));
}

impl FnInput {
    /// The source text of the parameter.
    pub fn fmt(&self) -> (r: String)
        ensures
            r@ == input_text(*self),
    {
        let mut out = String::new();
        write_input(&mut out, self);
        assert(out@ =~= input_text(*self));
        out
    }
}

/// The source text of a function's result: its attributes and type.
pub open spec fn output_text(o: FnOutput) -> Seq<char> {
    inline_attrs_text(o.attrs@, 0) + data_type_text(o.data_type)
}

#[verifier::spinoff_prover]
#[verifier::rlimit(40)]
fn write_output(out: &mut String, o: &FnOutput)
    ensures
        final(out)@ == old(out)@ + output_text(*o),
{
    let ghost start = out@;
    write_inline_attrs(out, &o.attrs, 0);
    write_data_type(out, &o.data_type);
    assert(out@ =~= start + output_text(*o));
}

impl FnOutput {
    /// The source text of the result.
    pub fn fmt(&self) -> (r: String)
        ensures
            r@ == output_text(*self),
    {
        let mut out = String::new();
        write_output(&mut out, self);
        assert(out@ =~= output_text(*self));
        out
    }
}

/// The source text of a global variable's attribute, without the `@`.
pub open spec fn global_attr_text(a: GlobalVarAttr) -> Seq<char> {
    match a {
        GlobalVarAttr::Binding(n) => "binding("@ + int_text(n as int) + ")"@,
        GlobalVarAttr::Group(n) => "group("@ + int_text(n as int) + ")"@,
    }
}

#[verifier::spinoff_prover]
#[verifier::rlimit(40)]
fn write_global_attr(out: &mut String, a: &GlobalVarAttr)
    ensures
        final(out)@ == old(out)@ + global_attr_text(*a),
{
    let ghost start = out@;
    match a {
        GlobalVarAttr::Binding(n) => {
            out.append("binding(");
            append_i32(out, *n);
            out.append(")");
        },
        GlobalVarAttr::Group(n) => {
            out.append("group(");
            append_i32(out, *n);
            out.append(")");
        },
    }
    assert(out@ =~= start + global_attr_text(*a));
}

impl GlobalVarAttr {
    /// The source text of the attribute, without the `@`.
    pub fn fmt(&self) -> (r: String)
        ensures
            r@ == global_attr_text(*self),
    {
        let mut out = String::new();
        write_global_attr(&mut out, self);
        assert(out@ =~= global_attr_text(*self));
        out
    }
}

/// Options of the writer, which the preprocessor reads too.
#[derive(Debug)]
pub struct Options {
    /// Write module-scope constants with `const` rather than `let`.
    pub module_scope_constants: bool,
    /// Write the compute stage attribute as `@compute` rather than `@stage(compute)`.
    pub concise_stage_attrs: bool,
}

impl Default for Options {
    fn default() -> (r: Options)
        ensures
            !r.module_scope_constants,
            !r.concise_stage_attrs,
    {
        Options { module_scope_constants: false, concise_stage_attrs: false }
    }
}

/// Writes whole modules and their declarations as shader source.
#[derive(Debug)]
pub struct Writer {
    options: Options,
}

impl Default for Writer {
    fn default() -> (r: Writer)
        ensures
            !r.module_scope_constants(),
    {
        Writer { options: Options { module_scope_constants: false, concise_stage_attrs: false } }
    }
}

/// The attributes of a structure member from index `k` on, each on a line of its own.
pub open spec fn member_attr_lines(attrs: Seq<StructMemberAttr>, k: int) -> Seq<char>
    decreases if k < attrs.len() { attrs.len() - k } else { 0 },
{
    if k < 0 || k >= attrs.len() {
        Seq::empty()
    } else {
        "@"@ + member_attr_text(attrs[k]) + "\n"@ + member_attr_lines(attrs, k + 1)
    }
}

/// The members of a structure from index `k` on: each one's attributes and then
/// `name: type,`, all indented by one level.
pub open spec fn members_text(ms: Seq<Rc<StructMember>>, k: int) -> Seq<char>
    decreases if k < ms.len() { ms.len() - k } else { 0 },
{
    if k < 0 || k >= ms.len() {
        Seq::empty()
    } else {
        indented_text(member_attr_lines(ms[k].attrs@, 0)) + indented_text(
            ms[k].name@ + ": "@ + data_type_text(ms[k].data_type) + ",\n"@,
        ) + members_text(ms, k + 1)
    }
}

/// The source text of a structure declaration.
pub open spec fn struct_text(d: StructDecl) -> Seq<char> {
    "struct "@ + d.name@ + " {\n"@ + members_text(d.members@, 0) + "}\n"@
}

/// The source text of a module-scope constant, `const` or `let` as the options say.
pub open spec fn global_const_text<F: Fn(u32) -> String>(ff: F, scope_constants: bool, d: GlobalConstDecl) -> Seq<char> {
    (if scope_constants {
        "const"@
    } else {
        "let"@
    }) + " "@ + d.name@ + ": "@ + data_type_text(d.data_type) + " = "@ + node_text(ff, d.initializer) + ";\n"@
}

/// The attributes of a global variable from index `k` on, each on a line of its own.
pub open spec fn global_attr_lines(attrs: Seq<GlobalVarAttr>, k: int) -> Seq<char>
    decreases if k < attrs.len() { attrs.len() - k } else { 0 },
{
    if k < 0 || k >= attrs.len() {
        Seq::empty()
    } else {
        "@"@ + global_attr_text(attrs[k]) + "\n"@ + global_attr_lines(attrs, k + 1)
    }
}

/// The address space and access mode of a global variable, where it has them.
pub open spec fn qualifier_text(q: Option<VarQualifier>) -> Seq<char> {
    match q {
        Some(q) => "<"@ + storage_class_text(q.storage_class) + match q.access_mode {
            Some(am) => ", "@ + access_mode_text(am),
            None => Seq::empty(),
        } + ">"@,
        None => Seq::empty(),
    }
}

/// The source text of a global variable declaration.
pub open spec fn global_var_text<F: Fn(u32) -> String>(ff: F, d: GlobalVarDecl) -> Seq<char> {
    global_attr_lines(d.attrs@, 0) + "var"@ + qualifier_text(d.qualifier) + " "@ + d.name@ + ": "@ + data_type_text(
        d.data_type,
    ) + match d.initializer {
        Some(i) => " = "@ + node_text(ff, i),
        None => Seq::empty(),
    } + ";\n"@
}

/// The attributes of a function from index `k` on, each on a line of its own; a stage
/// attribute is written as the bare stage.
pub open spec fn fn_attr_lines<F: Fn(u32) -> String>(ff: F, attrs: Seq<FnAttr>, k: int) -> Seq<char>
    decreases if k < attrs.len() { attrs.len() - k } else { 0 },
{
    if k < 0 || k >= attrs.len() {
        Seq::empty()
    } else {
        "@"@ + match attrs[k] {
            FnAttr::Stage(s) => stage_text(s),
            a => fn_attr_text(ff, a),
        } + "\n"@ + fn_attr_lines(ff, attrs, k + 1)
    }
}

/// The parameters of a function from index `k` on, separated by commas.
pub open spec fn inputs_text(ins: Seq<FnInput>, k: int) -> Seq<char>
    decreases if k < ins.len() { ins.len() - k } else { 0 },
{
    if k < 0 || k >= ins.len() {
        Seq::empty()
    } else {
        input_text(ins[k]) + (if k + 1 < ins.len() {
            ", "@
        } else {
            Seq::empty()
        }) + inputs_text(ins, k + 1)
    }
}

/// The source text of a function declaration.
pub open spec fn fn_text<F: Fn(u32) -> String>(ff: F, f: FnDecl) -> Seq<char> {
    fn_attr_lines(ff, f.attrs@, 0) + "fn "@ + f.name@ + "("@ + inputs_text(f.inputs@, 0) + ") "@ + match f.output {
        Some(o) => "-> "@ + output_text(o) + " "@,
        None => Seq::empty(),
    } + "{\n"@ + block_text(ff, f.body@, 0) + "}\n"@
}

/// The structure declarations from index `k` on, each followed by an empty line.
pub open spec fn structs_text(ds: Seq<Rc<StructDecl>>, k: int) -> Seq<char>
    decreases if k < ds.len() { ds.len() - k } else { 0 },
{
    if k < 0 || k >= ds.len() {
        Seq::empty()
    } else {
        struct_text(*ds[k]) + "\n"@ + structs_text(ds, k + 1)
    }
}

/// The constants from index `k` on, each followed by an empty line.
pub open spec fn consts_text<F: Fn(u32) -> String>(ff: F, scope_constants: bool, ds: Seq<GlobalConstDecl>, k: int) -> Seq<char>
    decreases if k < ds.len() { ds.len() - k } else { 0 },
{
    if k < 0 || k >= ds.len() {
        Seq::empty()
    } else {
        global_const_text(ff, scope_constants, ds[k]) + "\n"@ + consts_text(ff, scope_constants, ds, k + 1)
    }
}

/// The global variables from index `k` on, each followed by an empty line.
pub open spec fn vars_text<F: Fn(u32) -> String>(ff: F, ds: Seq<GlobalVarDecl>, k: int) -> Seq<char>
    decreases if k < ds.len() { ds.len() - k } else { 0 },
{
    if k < 0 || k >= ds.len() {
        Seq::empty()
    } else {
        global_var_text(ff, ds[k]) + "\n"@ + vars_text(ff, ds, k + 1)
    }
}

/// The functions from index `k` on, each followed by an empty line.
pub open spec fn fns_text<F: Fn(u32) -> String>(ff: F, ds: Seq<FnDecl>, k: int) -> Seq<char>
    decreases if k < ds.len() { ds.len() - k } else { 0 },
{
    if k < 0 || k >= ds.len() {
        Seq::empty()
    } else {
        fn_text(ff, ds[k]) + "\n"@ + fns_text(ff, ds, k + 1)
    }
}

/// The source text of a module: its structures, constants, variables and functions,
/// in that order, each followed by an empty line.
pub open spec fn module_text<F: Fn(u32) -> String>(ff: F, scope_constants: bool, m: Module) -> Seq<char> {
    structs_text(m.structs@, 0) + consts_text(ff, scope_constants, m.consts@, 0) + vars_text(ff, m.vars@, 0) + fns_text(
        ff,
        m.functions@,
        0,
    )
}

impl Writer {
    /// Whether the writer writes module-scope constants with `const`.
    pub closed spec fn module_scope_constants(&self) -> bool {
        self.options.module_scope_constants
    }

    pub fn new(options: Options) -> (r: Writer)
        ensures
            r.module_scope_constants() == options.module_scope_constants,
    {
        Writer { options }
    }

    /// Writes a module.
    #[verifier::spinoff_prover]
    #[verifier::rlimit(40)]
    pub fn write_module<F: Fn(u32) -> String>(&self, out: &mut String, ff: &F, module: &Module)
        requires
            float_spelling_deterministic(*ff),
        ensures
            final(out)@ == old(out)@ + module_text(*ff, self.module_scope_constants(), *module),
    {
        let ghost start = out@;
        self.write_structs(out, &module.structs, 0);
        self.write_consts(out, ff, &module.consts, 0);
        self.write_vars(out, ff, &module.vars, 0);
        self.write_funcs(out, ff, &module.functions, 0);
        assert(out@ =~= start + module_text(*ff, self.module_scope_constants(), *module));
    }

    #[verifier::spinoff_prover]
    #[verifier::rlimit(40)]
    fn write_structs(&self, out: &mut String, ds: &Vec<Rc<StructDecl>>, k: usize)
        ensures
            final(out)@ == old(out)@ + structs_text(ds@, k as int),
        decreases ds@.len() - k,
    {
        let ghost start = out@;
        if k < ds.len() {
            self.write_struct(out, &ds[k]);
            out.append("\n");
            self.write_structs(out, ds, k + 1);
        }
        assert(out@ =~= start + structs_text(ds@, k as int));
    }

    #[verifier::spinoff_prover]
    #[verifier::rlimit(40)]
    fn write_consts<F: Fn(u32) -> String>(&self, out: &mut String, ff: &F, ds: &Vec<GlobalConstDecl>, k: usize)
        requires
            float_spelling_deterministic(*ff),
        ensures
            final(out)@ == old(out)@ + consts_text(*ff, self.module_scope_constants(), ds@, k as int),
        decreases ds@.len() - k,
    {
        let ghost start = out@;
        if k < ds.len() {
            self.write_global_const(out, ff, &ds[k]);
            out.append("\n");
            self.write_consts(out, ff, ds, k + 1);
        }
        assert(out@ =~= start + consts_text(*ff, self.module_scope_constants(), ds@, k as int));
    }

    #[verifier::spinoff_prover]
    #[verifier::rlimit(40)]
    fn write_vars<F: Fn(u32) -> String>(&self, out: &mut String, ff: &F, ds: &Vec<GlobalVarDecl>, k: usize)
        requires
            float_spelling_deterministic(*ff),
        ensures
            final(out)@ == old(out)@ + vars_text(*ff, ds@, k as int),
        decreases ds@.len() - k,
    {
        let ghost start = out@;
        if k < ds.len() {
            self.write_global_var(out, ff, &ds[k]);
            out.append("\n");
            self.write_vars(out, ff, ds, k + 1);
        }
        assert(out@ =~= start + vars_text(*ff, ds@, k as int));
    }

    #[verifier::spinoff_prover]
    #[verifier::rlimit(40)]
    fn write_funcs<F: Fn(u32) -> String>(&self, out: &mut String, ff: &F, ds: &Vec<FnDecl>, k: usize)
        requires
            float_spelling_deterministic(*ff),
        ensures
            final(out)@ == old(out)@ + fns_text(*ff, ds@, k as int),
        decreases ds@.len() - k,
    {
        let ghost start = out@;
        if k < ds.len() {
            self.write_func(out, ff, &ds[k]);
            out.append("\n");
            self.write_funcs(out, ff, ds, k + 1);
        }
        assert(out@ =~= start + fns_text(*ff, ds@, k as int));
    }

    /// Writes a structure declaration.
    #[verifier::spinoff_prover]
    #[verifier::rlimit(40)]
    pub fn write_struct(&self, out: &mut String, decl: &StructDecl)
        ensures
            final(out)@ == old(out)@ + struct_text(*decl),
    {
        let ghost start = out@;
        out.append("struct ");
        out.append(decl.name.as_str());
        out.append(" {\n");
        self.write_members(out, &decl.members, 0);
        out.append("}\n");
        assert(out@ =~= start + struct_text(*decl));
    }

    #[verifier::spinoff_prover]
    #[verifier::rlimit(40)]
    fn write_members(&self, out: &mut String, ms: &Vec<Rc<StructMember>>, k: usize)
        ensures
            final(out)@ == old(out)@ + members_text(ms@, k as int),
        decreases ms@.len() - k,
    {
        let ghost start = out@;
        if k < ms.len() {
            let member = &ms[k];
            let mut attrs = String::new();
            write_member_attr_lines(&mut attrs, &member.attrs, 0);
            let attrs_ind = indent(attrs.as_str());
            out.append(attrs_ind.as_str());
            let mut line = String::new();
            line.append(member.name.as_str());
            line.append(": ");
            write_data_type(&mut line, &member.data_type);
            line.append(",\n");
            assert(line@ =~= ms@[k as int].name@ + ": "@ + data_type_text(ms@[k as int].data_type) + ",\n"@);
            let line_ind = indent(line.as_str());
            out.append(line_ind.as_str());
            self.write_members(out, ms, k + 1);
        }
        assert(out@ =~= start + members_text(ms@, k as int));
    }

    /// Writes a module-scope constant, with `const` or `let` as the options say.
    #[verifier::spinoff_prover]
    #[verifier::rlimit(40)]
    pub fn write_global_const<F: Fn(u32) -> String>(&self, out: &mut String, ff: &F, decl: &GlobalConstDecl)
        requires
            float_spelling_deterministic(*ff),
        ensures
            final(out)@ == old(out)@ + global_const_text(*ff, self.module_scope_constants(), *decl),
    {
        let ghost start = out@;
        if self.options.module_scope_constants {
            out.append("const");
        } else {
            out.append("let");
        }
        out.append(" ");
        out.append(decl.name.as_str());
        out.append(": ");
        write_data_type(out, &decl.data_type);
        out.append(" = ");
        write_expr(out, ff, &decl.initializer.expr);
        out.append(";\n");
        assert(out@ =~= start + global_const_text(*ff, self.module_scope_constants(), *decl));
    }

    /// Writes a global variable declaration.
    #[verifier::spinoff_prover]
    pub fn write_global_var<F: Fn(u32) -> String>(&self, out: &mut String, ff: &F, decl: &GlobalVarDecl)
        requires
            float_spelling_deterministic(*ff),
        ensures
            final(out)@ == old(out)@ + global_var_text(*ff, *decl),
    {
        let ghost start = out@;
        write_global_attr_lines(out, &decl.attrs, 0);
        out.append("var");
        let ghost a = out@;
        match &decl.qualifier {
            Some(q) => {
                out.append("<");
                out.append(storage_class_str(q.storage_class));
                match &q.access_mode {
                    Some(am) => {
                        out.append(", ");
                        out.append(access_mode_str(*am));
                    },
                    None => {},
                }
                out.append(">");
            },
            None => {},
        }
        let ghost b = out@;
        out.append(" ");
        out.append(decl.name.as_str());
        out.append(": ");
        write_data_type(out, &decl.data_type);
        let ghost c = out@;
        match &decl.initializer {
            Some(i) => {
                out.append(" = ");
                write_expr(out, ff, &i.expr);
            },
            None => {},
        }
        let ghost d = out@;
        out.append(";\n");
        proof {
            let dd = *decl;
            assert(b =~= a + qualifier_text(dd.qualifier));
            let init: Seq<char> = match dd.initializer {
                Some(i) => " = "@ + node_text(*ff, i),
                None => Seq::empty(),
            };
            assert(d =~= c + init);
        }
        assert(out@ =~= start + global_var_text(*ff, *decl));
    }

    /// Writes a function declaration.
    #[verifier::spinoff_prover]
    #[verifier::rlimit(30)]
    pub fn write_func<F: Fn(u32) -> String>(&self, out: &mut String, ff: &F, func: &FnDecl)
        requires
            float_spelling_deterministic(*ff),
        ensures
            final(out)@ == old(out)@ + fn_text(*ff, *func),
    {
        let ghost start = out@;
        write_fn_attr_lines(out, ff, &func.attrs, 0);
        out.append("fn ");
        out.append(func.name.as_str());
        out.append("(");
        write_inputs(out, &func.inputs, 0);
        out.append(") ");
        let ghost a = out@;
        match &func.output {
            Some(o) => {
                out.append("-> ");
                write_output(out, o);
                out.append(" ");
            },
            None => {},
        }
        let ghost b = out@;
        out.append("{\n");
        write_block(out, ff, &func.body, 0);
        out.append("}\n");
        proof {
            let f = *func;
            let ret: Seq<char> = match f.output {
                Some(o) => "-> "@ + output_text(o) + " "@,
                None => Seq::empty(),
            };
            assert(b =~= a + ret);
        }
        assert(out@ =~= start + fn_text(*ff, *func));
    }
}

#[verifier::spinoff_prover]
#[verifier::rlimit(40)]
fn write_member_attr_lines(out: &mut String, attrs: &Vec<StructMemberAttr>, k: usize)
    ensures
        final(out)@ == old(out)@ + member_attr_lines(attrs@, k as int),
    decreases attrs@.len() - k,
{
    let ghost start = out@;
    if k < attrs.len() {
        out.append("@");
        write_member_attr(out, &attrs[k]);
        out.append("\n");
        write_member_attr_lines(out, attrs, k + 1);
    }
    assert(out@ =~= start + member_attr_lines(attrs@, k as int));
}

#[verifier::spinoff_prover]
#[verifier::rlimit(40)]
fn write_global_attr_lines(out: &mut String, attrs: &Vec<GlobalVarAttr>, k: usize)
    ensures
        final(out)@ == old(out)@ + global_attr_lines(attrs@, k as int),
    decreases attrs@.len() - k,
{
    let ghost start = out@;
    if k < attrs.len() {
        out.append("@");
        write_global_attr(out, &attrs[k]);
        out.append("\n");
        write_global_attr_lines(out, attrs, k + 1);
    }
    assert(out@ =~= start + global_attr_lines(attrs@, k as int));
}

#[verifier::spinoff_prover]
#[verifier::rlimit(40)]
fn write_fn_attr_lines<F: Fn(u32) -> String>(out: &mut String, ff: &F, attrs: &Vec<FnAttr>, k: usize)
    requires
        float_spelling_deterministic(*ff),
    ensures
        final(out)@ == old(out)@ + fn_attr_lines(*ff, attrs@, k as int),
    decreases attrs@.len() - k,
{
    let ghost start = out@;
    if k < attrs.len() {
        out.append("@");
        match &attrs[k] {
            FnAttr::Stage(s) => out.append(stage_str(*s)),
            a => write_fn_attr(out, ff, a),
        }
        out.append("\n");
        write_fn_attr_lines(out, ff, attrs, k + 1);
    }
    assert(out@ =~= start + fn_attr_lines(*ff, attrs@, k as int));
}

#[verifier::spinoff_prover]
#[verifier::rlimit(40)]
fn write_inputs(out: &mut String, ins: &Vec<FnInput>, k: usize)
    ensures
        final(out)@ == old(out)@ + inputs_text(ins@, k as int),
    decreases ins@.len() - k,
{
    let ghost start = out@;
    if k < ins.len() {
        write_input(out, &ins[k]);
        if k + 1 < ins.len() {
            out.append(", ");
        }
        write_inputs(out, ins, k + 1);
    }
    assert(out@ =~= start + inputs_text(ins@, k as int));
}

} // verus!
