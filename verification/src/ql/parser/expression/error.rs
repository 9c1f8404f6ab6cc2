use vstd::prelude::*;

use crate::ql::parser::expression::binary_op::BinaryOp;
use crate::ql::parser::expression::literal::{Literal, LiteralV};
use crate::ql::parser::expression::unary_op::UnaryOp;
use crate::ql::tokenizer::token::{TokenType, TokenTypeV};

verus! {

/// A binary operator was applied to literals it does not take.
#[derive(Debug)]
pub enum BinaryOperatorApplyError {
    IncompatibleLiterals(Literal, Literal, BinaryOp),
}

/// The mathematical form of a [`BinaryOperatorApplyError`].
pub enum BinaryOperatorApplyErrorV {
    IncompatibleLiterals(LiteralV, LiteralV, BinaryOp),
}

impl DeepView for BinaryOperatorApplyError {
    type V = BinaryOperatorApplyErrorV;

    open spec fn deep_view(&self) -> BinaryOperatorApplyErrorV {
        match self {
            BinaryOperatorApplyError::IncompatibleLiterals(l, r, op) =>
                BinaryOperatorApplyErrorV::IncompatibleLiterals(l.deep_view(), r.deep_view(), *op),
        }
    }
}

/// A unary operator was applied to a literal it does not take.
#[derive(Debug)]
pub enum UnaryOperatorApplyError {
    IncompatibleLiterals(Literal, UnaryOp),
}

/// A token that was expected to be an operator is not one.
#[derive(Debug)]
pub enum TokenToOperatorError {
    InvalidOperator(TokenType),
}

/// The mathematical form of a [`TokenToOperatorError`].
pub enum TokenToOperatorErrorV {
    InvalidOperator(TokenTypeV),
}

impl View for TokenToOperatorError {
    type V = TokenToOperatorErrorV;

    open spec fn view(&self) -> TokenToOperatorErrorV {
        match self {
            TokenToOperatorError::InvalidOperator(t) => TokenToOperatorErrorV::InvalidOperator(t@),
        }
    }
}

} // verus!
