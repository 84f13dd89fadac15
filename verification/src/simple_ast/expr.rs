//! Expressions of the smaller shader syntax tree, and the typing rules of operators.
use crate::simple_ast::types::{spec_map, DataType, ScalarType};
use vstd::prelude::*;

verus! {

#[derive(Clone, Copy, Debug, PartialEq, Eq, Structural)]
pub enum Lit {
    Bool(bool),
    Int(i32),
    UInt(u32),
}

#[derive(Clone, Copy, Debug, PartialEq, Eq, Structural)]
pub enum UnOp {
    Neg,
    Not,
    BitNot,
}

impl UnOp {
    /// Determines the return type of a unary operator given its operand type: every
    /// unary operator gives the type of its operand.
    pub fn type_eval(&self, t: &DataType) -> (r: DataType)
        ensures
            r == *t,
    {
        t.clone()
    }
}

#[derive(Clone, Copy, Debug, PartialEq, Eq, Structural)]
pub enum BinOp {
    Plus,
    Minus,
    Times,
    Divide,
    Mod,
    LogAnd,
    LogOr,
    BitAnd,
    BitOr,
    BitXOr,
    LShift,
    RShift,
    Equal,
    NotEqual,
    Less,
    LessEqual,
    Greater,
    GreaterEqual,
}

/// The operator compares its operands.
pub open spec fn is_comparison(op: BinOp) -> bool {
    op == BinOp::Equal || op == BinOp::NotEqual || op == BinOp::Less || op == BinOp::LessEqual || op
        == BinOp::Greater || op == BinOp::GreaterEqual
}

/// The result type of a binary operator whose left operand has type `l`: the type of
/// the left operand for arithmetic and bitwise operators, a scalar bool for logical
/// ones, and a bool of the operand's shape for comparisons.
pub open spec fn spec_binop_type(op: BinOp, l: DataType) -> DataType {
    if op == BinOp::LogAnd || op == BinOp::LogOr {
        DataType::Scalar(ScalarType::Bool)
    } else if is_comparison(op) {
        spec_map(l, ScalarType::Bool)
    } else {
        l
    }
}

impl BinOp {
    /// Determines the return type of a binary operator given its operand types.
    pub fn type_eval(&self, l: &DataType, r: &DataType) -> (res: DataType)
        requires
            is_comparison(*self) ==> (l is Scalar || l is Vector),
        ensures
            res == spec_binop_type(*self, *l),
    {
        match self {
            BinOp::Plus | BinOp::Minus | BinOp::Times | BinOp::Divide | BinOp::Mod | BinOp::BitAnd | BinOp::BitOr
            | BinOp::BitXOr | BinOp::LShift | BinOp::RShift => l.clone(),
            BinOp::LogAnd | BinOp::LogOr => DataType::Scalar(ScalarType::Bool),
            BinOp::Less | BinOp::LessEqual | BinOp::Greater | BinOp::GreaterEqual | BinOp::Equal | BinOp::NotEqual => l.map(
                ScalarType::Bool,
            ),
        }
    }
}

pub enum Postfix {
    ArrayIndex(Box<ExprNode>),
    Member(String),
}

pub enum Expr {
    Lit(Lit),
    TypeCons(DataType, Vec<ExprNode>),
    Var(String),
    Postfix(Box<ExprNode>, Postfix),
    UnOp(UnOp, Box<ExprNode>),
    BinOp(BinOp, Box<ExprNode>, Box<ExprNode>),
    FnCall(String, Vec<ExprNode>),
}

pub struct ExprNode {
    pub data_type: DataType,
    pub expr: Expr,
}

} // verus!
