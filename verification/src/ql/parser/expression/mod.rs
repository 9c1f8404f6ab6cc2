use vstd::prelude::*;

use crate::ql::parser::expression::binary_op::BinaryOp;
use crate::ql::parser::expression::literal::{Literal, LiteralV};
use crate::ql::parser::expression::unary_op::UnaryOp;

pub mod binary_op;
pub mod error;
pub mod literal;
pub mod traits;
pub mod unary_op;

verus! {

/// An expression of the query language.
#[derive(Debug)]
#[allow(inconsistent_fields)]
pub enum Expr {
    Literal(Literal),
    Identifier(String),
    BinaryOp { lhs: Box<Expr>, op: BinaryOp, rhs: Box<Expr> },
    UnaryOp { op: UnaryOp, expr: Box<Expr> },
}

/// The mathematical form of an [`Expr`].
#[allow(inconsistent_fields)]
pub enum ExprV {
    Literal(LiteralV),
    Identifier(Seq<char>),
    BinaryOp { lhs: Box<ExprV>, op: BinaryOp, rhs: Box<ExprV> },
    UnaryOp { op: UnaryOp, expr: Box<ExprV> },
}

impl DeepView for Expr {
    type V = ExprV;

    open spec fn deep_view(&self) -> ExprV
        decreases self,
    {
        match self {
            Expr::Literal(l) => ExprV::Literal(l.deep_view()),
            Expr::Identifier(s) => ExprV::Identifier(s@),
            Expr::BinaryOp { lhs, op, rhs } => ExprV::BinaryOp {
                lhs: Box::new((**lhs).deep_view()),
                op: *op,
                rhs: Box::new((**rhs).deep_view()),
            },
            Expr::UnaryOp { op, expr } => ExprV::UnaryOp {
                op: *op,
                expr: Box::new((**expr).deep_view()),
            },
        }
    }
}

} // verus!
