use crate::ast::expr::{ExprNode, Postfix};
use crate::ast::types::{spec_dereference, DataType, MemoryViewType};
use crate::ast::expr::spec_member_type;
use vstd::prelude::*;

verus! {

#[derive(Debug)]
pub struct LetDeclStatement {
    pub ident: String,
    pub initializer: ExprNode,
}

impl LetDeclStatement {
    pub fn new(ident: String, initializer: ExprNode) -> (r: Self)
        ensures
            r.ident == ident,
            r.initializer == initializer,
    {
        Self { ident, initializer }
    }

    /// The declared type: the initializer's type, or what it refers to if it is a reference.
    pub fn inferred_type(&self) -> (r: &DataType)
        ensures
            *r == spec_dereference(self.initializer.data_type),
    {
        if let DataType::Ref(view) = &self.initializer.data_type {
            &*view.inner
        } else {
            &self.initializer.data_type
        }
    }
}

#[derive(Debug)]
pub struct VarDeclStatement {
    pub ident: String,
    pub data_type: Option<DataType>,
    pub initializer: Option<ExprNode>,
}

impl VarDeclStatement {
    pub fn new(ident: String, data_type: Option<DataType>, initializer: Option<ExprNode>) -> (r: Self)
        ensures
            r.ident == ident,
            r.data_type == data_type,
            r.initializer == initializer,
    {
        Self { ident, data_type, initializer }
    }

    /// The declared type, or else the (dereferenced) type of the initializer.
    pub fn inferred_type(&self) -> (r: &DataType)
        requires
            self.data_type is Some || self.initializer is Some,
        ensures
            *r == match self.data_type {
                Some(t) => t,
                None => spec_dereference(self.initializer->0.data_type),
            },
    {
        match &self.data_type {
            Some(t) => t,
            None => {
                let initializer = self.initializer.as_ref().unwrap();
                if let DataType::Ref(view) = &initializer.data_type {
                    &*view.inner
                } else {
                    &initializer.data_type
                }
            },
        }
    }
}

#[derive(Debug)]
pub enum AssignmentLhs {
    Phony,
    Expr(LhsExprNode),
}

#[derive(Debug)]
pub enum LhsExpr {
    Ident(String),
    Postfix(Box<LhsExprNode>, Postfix),
    Deref(Box<LhsExprNode>),
    AddressOf(Box<LhsExprNode>),
}

#[derive(Debug)]
pub struct LhsExprNode {
    pub data_type: DataType,
    pub expr: LhsExpr,
}

impl LhsExprNode {
    pub fn name(name: String, data_type: DataType) -> (r: LhsExprNode)
        ensures
            r == (LhsExprNode { data_type, expr: LhsExpr::Ident(name) }),
    {
        LhsExprNode { data_type, expr: LhsExpr::Ident(name) }
    }

    /// `name[index]`, where `name` refers to an array; the result refers to an element.
    pub fn array_index(name: String, array_type: DataType, index: ExprNode) -> (r: LhsExprNode)
        requires
            (array_type matches DataType::Ref(view) && *view.inner is Array) || (array_type matches DataType::Ptr(view)
                && *view.inner is Array),
        ensures
            ({
                let view = if array_type is Ref { array_type->Ref_0 } else { array_type->Ptr_0 };
                r.data_type == DataType::Ref(
                    MemoryViewType {
                        inner: std::rc::Rc::new(*view.inner->Array_0),
                        storage_class: view.storage_class,
                        access_mode: view.access_mode,
                    },
                )
            }),
            r.expr == LhsExpr::Postfix(
                Box::new(LhsExprNode { data_type: array_type, expr: LhsExpr::Ident(name) }),
                Postfix::Index(Box::new(index)),
            ),
    {
        let element_type = {
            let mem_view = array_type.as_memory_view().unwrap();
            if let DataType::Array(ty, _) = &*mem_view.inner {
                DataType::Ref(mem_view.clone_with_type((**ty).clone()))
            } else {
                array_type.clone()
            }
        };
        LhsExprNode {
            data_type: element_type,
            expr: LhsExpr::Postfix(
                Box::new(LhsExprNode { data_type: array_type, expr: LhsExpr::Ident(name) }),
                Postfix::Index(Box::new(index)),
            ),
        }
    }

    /// `name.member`, where `name` has a vector or structure type.
    pub fn member(name: String, data_type: DataType, member: String) -> (r: LhsExprNode)
        requires
            data_type is Vector || (data_type matches DataType::Struct(decl) && spec_member_type(*decl, member@) is Some),
        ensures
            r.data_type == match data_type {
                DataType::Vector(_, t) => DataType::Scalar(t),
                DataType::Struct(decl) => spec_member_type(*decl, member@).unwrap(),
                _ => data_type,
            },
            r.expr == LhsExpr::Postfix(
                Box::new(LhsExprNode { data_type, expr: LhsExpr::Ident(name) }),
                Postfix::Member(member),
            ),
    {
        let member_type = match &data_type {
            DataType::Vector(_, ty) => DataType::Scalar(*ty),
            DataType::Struct(decl) => decl.member_type(&member).unwrap().clone(),
            _ => data_type.clone(),
        };
        LhsExprNode {
            data_type: member_type,
            expr: LhsExpr::Postfix(
                Box::new(LhsExprNode { data_type, expr: LhsExpr::Ident(name) }),
                Postfix::Member(member),
            ),
        }
    }
}

impl AssignmentLhs {
    pub fn name(name: String, data_type: DataType) -> (r: AssignmentLhs)
        ensures
            r == AssignmentLhs::Expr(LhsExprNode { data_type, expr: LhsExpr::Ident(name) }),
    {
        AssignmentLhs::Expr(LhsExprNode::name(name, data_type))
    }
}

#[derive(Clone, Copy, Debug, PartialEq, Eq, Structural)]
pub enum AssignmentOp {
    Simple,
    Plus,
    Minus,
    Times,
    Divide,
    Mod,
    And,
    Or,
    Xor,
}

#[derive(Debug)]
pub struct AssignmentStatement {
    pub lhs: AssignmentLhs,
    pub op: AssignmentOp,
    pub rhs: ExprNode,
}

impl AssignmentStatement {
    pub fn new(lhs: AssignmentLhs, op: AssignmentOp, rhs: ExprNode) -> (r: Self)
        ensures
            r.lhs == lhs,
            r.op == op,
            r.rhs == rhs,
    {
        Self { lhs, op, rhs }
    }
}

#[derive(Debug)]
pub enum Else {
    If(IfStatement),
    Else(Vec<Statement>),
}

#[derive(Debug)]
pub struct IfStatement {
    pub condition: ExprNode,
    pub body: Vec<Statement>,
    pub else_: Option<Box<Else>>,
}

impl IfStatement {
    pub fn new(condition: ExprNode, body: Vec<Statement>) -> (r: Self)
        ensures
            r.condition == condition,
            r.body == body,
            r.else_ is None,
    {
        Self { condition, body, else_: None }
    }

    pub fn with_else(self, else_: Option<Else>) -> (r: Self)
        ensures
            r.condition == self.condition,
            r.body == self.body,
            r.else_ == match else_ {
                Some(e) => Some(Box::new(e)),
                None => None,
            },
    {
        let else_ = match else_ {
            Some(e) => Some(Box::new(e)),
            None => None,
        };
        IfStatement { condition: self.condition, body: self.body, else_ }
    }
}

#[derive(Debug)]
pub struct ReturnStatement {
    pub value: Option<ExprNode>,
}

impl ReturnStatement {
    pub fn new(value: ExprNode) -> (r: Self)
        ensures
            r.value == Some(value),
    {
        Self { value: Some(value) }
    }

    pub fn optional(value: Option<ExprNode>) -> (r: Self)
        ensures
            r.value == value,
    {
        Self { value }
    }

    pub fn none() -> (r: Self)
        ensures
            r.value is None,
    {
        Self { value: None }
    }
}

#[derive(Debug)]
pub struct LoopStatement {
    pub body: Vec<Statement>,
}

impl LoopStatement {
    pub fn new(body: Vec<Statement>) -> (r: Self)
        ensures
            r.body == body,
    {
        Self { body }
    }
}

#[derive(Debug)]
pub struct SwitchStatement {
    pub selector: ExprNode,
    pub cases: Vec<SwitchCase>,
    pub default: Vec<Statement>,
}

impl SwitchStatement {
    pub fn new(selector: ExprNode, cases: Vec<SwitchCase>, default: Vec<Statement>) -> (r: Self)
        ensures
            r.selector == selector,
            r.cases == cases,
            r.default == default,
    {
        Self { selector, cases, default }
    }
}

#[derive(Debug)]
pub struct SwitchCase {
    pub selector: ExprNode,
    pub body: Vec<Statement>,
}

#[derive(Debug)]
pub enum ForLoopInit {
    VarDecl(VarDeclStatement),
}

#[derive(Debug)]
pub enum ForLoopUpdate {
    Assignment(AssignmentStatement),
}

#[derive(Debug)]
pub struct ForLoopHeader {
    pub init: Option<ForLoopInit>,
    pub condition: Option<ExprNode>,
    pub update: Option<ForLoopUpdate>,
}

#[derive(Debug)]
pub struct ForLoopStatement {
    pub header: Box<ForLoopHeader>,
    pub body: Vec<Statement>,
}

impl ForLoopStatement {
    pub fn new(header: ForLoopHeader, body: Vec<Statement>) -> (r: Self)
        ensures
            *r.header == header,
            r.body == body,
    {
        Self { header: Box::new(header), body }
    }
}

#[derive(Debug)]
pub struct FnCallStatement {
    pub ident: String,
    pub args: Vec<ExprNode>,
}

impl FnCallStatement {
    pub fn new(ident: String, args: Vec<ExprNode>) -> (r: Self)
        ensures
            r.ident == ident,
            r.args == args,
    {
        Self { ident, args }
    }
}

#[derive(Debug)]
pub enum Statement {
    LetDecl(LetDeclStatement),
    VarDecl(VarDeclStatement),
    Assignment(AssignmentStatement),
    Compound(Vec<Statement>),
    If(IfStatement),
    Return(ReturnStatement),
    Loop(LoopStatement),
    Break,
    Continue,
    Switch(SwitchStatement),
    Fallthrough,
    ForLoop(ForLoopStatement),
    FnCall(FnCallStatement),
}

impl Statement {
    /// Extracts the inner statements from a `Statement::Compound`.
    pub fn into_compount_statement(self) -> (r: Vec<Statement>)
        requires
            self is Compound,
        ensures
            r == self->Compound_0,
    {
        match self {
            Statement::Compound(stmts) => stmts,
            _ => Vec::new(),
        }
    }
}

} // verus!
