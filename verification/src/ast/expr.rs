use crate::ast::structs::StructDecl;
use crate::ast::types::{pointee, spec_dereference, spec_map, DataType, MemoryViewType, ScalarType};
use vstd::prelude::*;
use vstd::string::StrSliceExecFns;

verus! {

/// A literal. A 32-bit float is held as its IEEE-754 bit pattern.
#[derive(Clone, Copy, Debug, PartialEq, Eq, Structural)]
pub enum Lit {
    Bool(bool),
    I32(i32),
    U32(u32),
    F32(u32),
}

/// The scalar type of a literal.
pub open spec fn spec_lit_type(lit: Lit) -> ScalarType {
    match lit {
        Lit::Bool(_) => ScalarType::Bool,
        Lit::I32(_) => ScalarType::I32,
        Lit::U32(_) => ScalarType::U32,
        Lit::F32(_) => ScalarType::F32,
    }
}

impl Lit {
    pub fn data_type(&self) -> (r: DataType)
        ensures
            r == DataType::Scalar(spec_lit_type(*self)),
    {
        match self {
            Lit::Bool(_) => DataType::Scalar(ScalarType::Bool),
            Lit::I32(_) => DataType::Scalar(ScalarType::I32),
            Lit::U32(_) => DataType::Scalar(ScalarType::U32),
            Lit::F32(_) => DataType::Scalar(ScalarType::F32),
        }
    }
}

#[derive(Debug)]
pub struct TypeConsExpr {
    pub data_type: DataType,
    pub args: Vec<ExprNode>,
}

impl TypeConsExpr {
    pub fn new(data_type: DataType, args: Vec<ExprNode>) -> (r: Self)
        ensures
            r.data_type == data_type,
            r.args == args,
    {
        Self { data_type, args }
    }
}

#[derive(Clone, Copy, Debug, PartialEq, Eq, Structural)]
pub enum UnOp {
    Neg,
    Not,
    BitNot,
    AddressOf,
    Deref,
}

/// The result type of a unary operator applied to an operand of type `ty`.
pub open spec fn spec_unop_type(op: UnOp, ty: DataType) -> DataType
    decreases ty,
{
    match op {
        UnOp::Neg | UnOp::Not | UnOp::BitNot => match ty {
            DataType::Ref(view) => spec_unop_type(op, *view.inner),
            _ => ty,
        },
        UnOp::AddressOf => match ty {
            DataType::Ptr(view) | DataType::Ref(view) => DataType::Ptr(view),
            _ => ty,
        },
        UnOp::Deref => match ty {
            DataType::Ptr(view) | DataType::Ref(view) => DataType::Ref(view),
            _ => ty,
        },
    }
}

impl UnOp {
    /// Determines the return type of a unary operator given its operand type.
    pub fn type_eval(&self, ty: &DataType) -> (r: DataType)
        requires
            (*self == UnOp::AddressOf || *self == UnOp::Deref) ==> (ty is Ptr || ty is Ref),
        ensures
            r == spec_unop_type(*self, *ty),
        decreases ty,
    {
        match self {
            UnOp::Neg | UnOp::Not | UnOp::BitNot => {
                if let DataType::Ref(view) = ty {
                    self.type_eval(&*view.inner)
                } else {
                    ty.clone()
                }
            },
            UnOp::AddressOf => DataType::Ptr(ty.as_memory_view().unwrap().clone()),
            UnOp::Deref => DataType::Ref(ty.as_memory_view().unwrap().clone()),
        }
    }
}

#[derive(Clone, Copy, Debug, PartialEq, Eq, Structural)]
pub enum BinOp {
    Plus,
    Minus,
    Times,
    Divide,
    Mod,
    LogAnd,
    LogOr,
    BitAnd,
    BitOr,
    BitXOr,
    LShift,
    RShift,
    Equal,
    NotEqual,
    Less,
    LessEqual,
    Greater,
    GreaterEqual,
}

/// The operators that compare their operands.
pub open spec fn is_comparison(op: BinOp) -> bool {
    op == BinOp::Equal || op == BinOp::NotEqual || op == BinOp::Less || op == BinOp::LessEqual || op
        == BinOp::Greater || op == BinOp::GreaterEqual
}

/// The result type of a binary operator whose left operand has type `left`.
pub open spec fn spec_binop_type(op: BinOp, left: DataType) -> DataType {
    let left = match left {
        DataType::Ref(view) => *view.inner,
        _ => left,
    };
    if op == BinOp::LogAnd || op == BinOp::LogOr {
        DataType::Scalar(ScalarType::Bool)
    } else if is_comparison(op) {
        spec_map(left, ScalarType::Bool)
    } else {
        left
    }
}

/// The binding strength of a binary operator.
pub open spec fn spec_precedence(op: BinOp) -> u32 {
    match op {
        BinOp::BitAnd | BinOp::BitOr | BinOp::BitXOr => 1,
        BinOp::LogOr => 2,
        BinOp::LogAnd => 3,
        BinOp::Equal | BinOp::NotEqual | BinOp::Less | BinOp::LessEqual | BinOp::Greater | BinOp::GreaterEqual => 4,
        BinOp::LShift | BinOp::RShift => 5,
        BinOp::Plus | BinOp::Minus => 6,
        BinOp::Times | BinOp::Divide | BinOp::Mod => 7,
    }
}

impl BinOp {
    /// Determines the return type of a binary operator given its operand types.
    pub fn type_eval(&self, left: &DataType, right: &DataType) -> (r: DataType)
        requires
            is_comparison(*self) ==> (spec_dereference(*left) is Scalar || spec_dereference(*left) is Vector),
        ensures
            r == spec_binop_type(*self, *left),
    {
        let left = if let DataType::Ref(view) = left {
            &*view.inner
        } else {
            left
        };
        match self {
            BinOp::Plus | BinOp::Minus | BinOp::Times | BinOp::Divide | BinOp::Mod | BinOp::BitAnd | BinOp::BitOr
            | BinOp::BitXOr | BinOp::LShift | BinOp::RShift => left.clone(),
            BinOp::LogAnd | BinOp::LogOr => DataType::Scalar(ScalarType::Bool),
            BinOp::Less | BinOp::LessEqual | BinOp::Greater | BinOp::GreaterEqual | BinOp::Equal
            | BinOp::NotEqual => left.map(ScalarType::Bool),
        }
    }

    /// Returns the precendence level of `self`.
    pub fn precedence(&self) -> (r: u32)
        ensures
            r == spec_precedence(*self),
    {
        match self {
            BinOp::BitAnd => 1,
            BinOp::BitOr => 1,
            BinOp::BitXOr => 1,
            BinOp::LogOr => 2,
            BinOp::LogAnd => 3,
            BinOp::Equal => 4,
            BinOp::NotEqual => 4,
            BinOp::Less => 4,
            BinOp::LessEqual => 4,
            BinOp::Greater => 4,
            BinOp::GreaterEqual => 4,
            BinOp::LShift => 5,
            BinOp::RShift => 5,
            BinOp::Plus => 6,
            BinOp::Minus => 6,
            BinOp::Times => 7,
            BinOp::Divide => 7,
            BinOp::Mod => 7,
        }
    }
}

#[derive(Debug)]
pub enum Postfix {
    Index(Box<ExprNode>),
    Member(String),
}

/// The type of the member named `name` of a structure, if it has one.
pub open spec fn spec_member_type(decl: StructDecl, name: Seq<char>) -> Option<DataType> {
    if exists|i: int| 0 <= i < decl.members@.len() && (#[trigger] decl.members@[i]).name@ == name {
        let i = choose|i: int|
            0 <= i < decl.members@.len() && (#[trigger] decl.members@[i]).name@ == name && forall|p: int|
                0 <= p < i ==> (#[trigger] decl.members@[p]).name@ != name;
        Some(decl.members@[i].data_type)
    } else {
        None
    }
}

impl StructDecl {
    /// The type of the first member named `name`.
    pub fn member_type(&self, name: &String) -> (r: Option<&DataType>)
        ensures
            r matches Some(t) ==> spec_member_type(*self, name@) == Some(*t),
            r is None <==> spec_member_type(*self, name@) is None,
    {
        let mut i: usize = 0;
        while i < self.members.len()
            invariant
                i <= self.members.len(),
                forall|p: int| 0 <= p < i ==> (#[trigger] self.members@[p]).name@ != name@,
            decreases self.members.len() - i,
        {
            if self.members[i].name == *name {
                proof {
                    let c = choose|c: int|
                        0 <= c < self.members@.len() && (#[trigger] self.members@[c]).name@ == name@ && forall|p: int|
                            0 <= p < c ==> (#[trigger] self.members@[p]).name@ != name@;
                    assert(0 <= i < self.members@.len() && (self.members@[i as int]).name@ == name@ && forall|p: int|
                        0 <= p < i ==> (#[trigger] self.members@[p]).name@ != name@);
                    if c < i {
                        assert(self.members@[c].name@ != name@);
                    } else if c > i {
                        assert(self.members@[i as int].name@ != name@);
                    }
                }
                return Some(&self.members[i].data_type);
            }
            i = i + 1;
        }
        None
    }
}

/// The postfix can be applied to a value of type `ty`.
pub open spec fn spec_postfix_applies(p: Postfix, ty: DataType) -> bool
    decreases ty,
{
    match ty {
        DataType::Ref(view) => spec_postfix_applies(p, *view.inner),
        DataType::Vector(_, _) => match p {
            Postfix::Index(_) => true,
            Postfix::Member(ident) => ident@.len() < 256,
        },
        DataType::Array(_, _) => p is Index,
        DataType::Struct(decl) => match p {
            Postfix::Member(ident) => spec_member_type(*decl, ident@) is Some,
            _ => false,
        },
        _ => false,
    }
}

/// The type of a value of type `ty` after the postfix is applied.
pub open spec fn spec_postfix_type(p: Postfix, ty: DataType) -> DataType
    decreases ty,
{
    match ty {
        DataType::Ref(view) => DataType::Ref(
            MemoryViewType {
                inner: std::rc::Rc::new(spec_postfix_type(p, *view.inner)),
                storage_class: view.storage_class,
                access_mode: view.access_mode,
            },
        ),
        DataType::Vector(n, t) => match p {
            Postfix::Index(_) => DataType::Scalar(t),
            Postfix::Member(ident) => if ident@.len() == 1 {
                DataType::Scalar(t)
            } else {
                DataType::Vector(ident@.len() as u8, t)
            },
        },
        DataType::Array(t, _) => *t,
        DataType::Struct(decl) => match p {
            Postfix::Member(ident) => spec_member_type(*decl, ident@).unwrap(),
            _ => ty,
        },
        _ => ty,
    }
}

/// Two postfixes of one shape: both index, or both select the same member.
pub open spec fn same_postfix_shape(p1: Postfix, p2: Postfix) -> bool {
    match p1 {
        Postfix::Index(_) => p2 is Index,
        Postfix::Member(m) => p2 == Postfix::Member(m),
    }
}

/// Whether a postfix applies, and the type it gives, depend on its shape alone.
pub proof fn lemma_postfix_shape(p1: Postfix, p2: Postfix, ty: DataType)
    requires
        same_postfix_shape(p1, p2),
    ensures
        spec_postfix_applies(p1, ty) == spec_postfix_applies(p2, ty),
        spec_postfix_type(p1, ty) == spec_postfix_type(p2, ty),
    decreases ty,
{
    if let DataType::Ref(view) = ty {
        lemma_postfix_shape(p1, p2, pointee(view.inner));
    }
}

impl Postfix {
    pub fn index(expr: ExprNode) -> (r: Postfix)
        ensures
            r == Postfix::Index(Box::new(expr)),
    {
        Postfix::Index(Box::new(expr))
    }

    pub fn member(member: String) -> (r: Postfix)
        ensures
            r == Postfix::Member(member),
    {
        Postfix::Member(member)
    }

    /// The type of a value of type `ty` after the postfix is applied; a reference
    /// yields a reference to the result.
    pub fn type_eval(&self, ty: &DataType) -> (r: DataType)
        requires
            spec_postfix_applies(*self, *ty),
        ensures
            r == spec_postfix_type(*self, *ty),
        decreases ty,
    {
        if let DataType::Ref(view) = ty {
            return DataType::Ref(view.clone_with_type(self.type_eval(&*view.inner)));
        }
        match self {
            Postfix::Index(_) => match ty {
                DataType::Vector(_, t) => DataType::Scalar(*t),
                DataType::Array(t, _) => (**t).clone(),
                _ => ty.clone(),
            },
            Postfix::Member(ident) => match ty {
                DataType::Struct(decl) => decl.member_type(ident).unwrap().clone(),
                DataType::Vector(_, t) => {
                    let len = ident.as_str().unicode_len();
                    if len == 1 {
                        DataType::Scalar(*t)
                    } else {
                        DataType::Vector(len as u8, *t)
                    }
                },
                _ => ty.clone(),
            },
        }
    }
}

#[derive(Debug)]
pub struct VarExpr {
    pub ident: String,
}

impl VarExpr {
    pub fn new(ident: String) -> (r: Self)
        ensures
            r.ident == ident,
    {
        Self { ident }
    }

    pub fn into_node(self, data_type: DataType) -> (r: ExprNode)
        ensures
            r == (ExprNode { data_type, expr: Expr::Var(self) }),
    {
        ExprNode { data_type, expr: Expr::Var(self) }
    }
}

#[derive(Debug)]
pub struct PostfixExpr {
    pub inner: Box<ExprNode>,
    pub postfix: Postfix,
}

impl PostfixExpr {
    pub fn new(inner: ExprNode, postfix: Postfix) -> (r: Self)
        ensures
            *r.inner == inner,
            r.postfix == postfix,
    {
        Self { inner: Box::new(inner), postfix }
    }
}

impl PostfixExpr {
    /// The node of this expression, typed by the postfix's typing rule.
    pub fn into_node(self) -> (r: ExprNode)
        requires
            spec_postfix_applies(self.postfix, self.inner.data_type),
        ensures
            r.data_type == spec_postfix_type(self.postfix, self.inner.data_type),
            r.expr == Expr::Postfix(self),
    {
        let data_type = self.postfix.type_eval(&self.inner.data_type);
        ExprNode { data_type, expr: Expr::Postfix(self) }
    }
}

#[derive(Debug)]
pub struct UnOpExpr {
    pub op: UnOp,
    pub inner: Box<ExprNode>,
}

impl UnOpExpr {
    pub fn new(op: UnOp, inner: ExprNode) -> (r: Self)
        ensures
            r.op == op,
            *r.inner == inner,
    {
        Self { op, inner: Box::new(inner) }
    }

    /// The node of this expression, typed by the operator's typing rule.
    pub fn into_node(self) -> (r: ExprNode)
        requires
            (self.op == UnOp::AddressOf || self.op == UnOp::Deref) ==> (self.inner.data_type is Ptr
                || self.inner.data_type is Ref),
        ensures
            r.data_type == spec_unop_type(self.op, self.inner.data_type),
            r.expr == Expr::UnOp(self),
    {
        let data_type = self.op.type_eval(&self.inner.data_type);
        ExprNode { data_type, expr: Expr::UnOp(self) }
    }
}

#[derive(Debug)]
pub struct BinOpExpr {
    pub op: BinOp,
    pub left: Box<ExprNode>,
    pub right: Box<ExprNode>,
}

impl BinOpExpr {
    pub fn new(op: BinOp, left: ExprNode, right: ExprNode) -> (r: Self)
        ensures
            r.op == op,
            *r.left == left,
            *r.right == right,
    {
        Self { op, left: Box::new(left), right: Box::new(right) }
    }
}

impl BinOpExpr {
    /// The node of this expression, typed by the operator's typing rule.
    pub fn into_node(self) -> (r: ExprNode)
        requires
            is_comparison(self.op) ==> (spec_dereference(self.left.data_type) is Scalar || spec_dereference(
                self.left.data_type,
            ) is Vector),
        ensures
            r.data_type == spec_binop_type(self.op, self.left.data_type),
            r.expr == Expr::BinOp(self),
    {
        let data_type = self.op.type_eval(&self.left.data_type, &self.right.data_type);
        ExprNode { data_type, expr: Expr::BinOp(self) }
    }
}

impl TypeConsExpr {
    /// The node of this expression, typed by the constructed type.
    pub fn into_node(self) -> (r: ExprNode)
        ensures
            r.data_type == self.data_type,
            r.expr == Expr::TypeCons(self),
    {
        let data_type = self.data_type.clone();
        ExprNode { data_type, expr: Expr::TypeCons(self) }
    }
}

#[derive(Debug)]
pub struct FnCallExpr {
    pub ident: String,
    pub args: Vec<ExprNode>,
}

impl FnCallExpr {
    pub fn new(ident: String, args: Vec<ExprNode>) -> (r: Self)
        ensures
            r.ident == ident,
            r.args == args,
    {
        Self { ident, args }
    }

    pub fn into_node(self, return_type: DataType) -> (r: ExprNode)
        ensures
            r == (ExprNode { data_type: return_type, expr: Expr::FnCall(self) }),
    {
        ExprNode { data_type: return_type, expr: Expr::FnCall(self) }
    }
}

#[derive(Debug)]
pub enum Expr {
    Lit(Lit),
    TypeCons(TypeConsExpr),
    Var(VarExpr),
    Postfix(PostfixExpr),
    UnOp(UnOpExpr),
    BinOp(BinOpExpr),
    FnCall(FnCallExpr),
}

/// An expression with its type.
#[derive(Debug)]
pub struct ExprNode {
    pub data_type: DataType,
    pub expr: Expr,
}

impl ExprNode {
    /// The node of a literal, typed by the literal.
    pub fn from_lit(lit: Lit) -> (r: ExprNode)
        ensures
            r == (ExprNode { data_type: DataType::Scalar(spec_lit_type(lit)), expr: Expr::Lit(lit) }),
    {
        ExprNode { data_type: lit.data_type(), expr: Expr::Lit(lit) }
    }
}

} // verus!
