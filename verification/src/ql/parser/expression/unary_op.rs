use vstd::prelude::*;

use crate::ql::parser::expression::error::{TokenToOperatorError, TokenToOperatorErrorV};
use crate::ql::tokenizer::token::{clone_token_type, Keyword, Operator, TokenType, TokenTypeV};

verus! {

#[derive(Debug, PartialEq, Eq, Clone, Copy, Structural)]
pub enum UnaryOp {
    Minus,
    Plus,
    Not,
    IsNull,
    IsNotNull,
}

impl DeepView for UnaryOp {
    type V = UnaryOp;

    open spec fn deep_view(&self) -> UnaryOp {
        *self
    }
}

/// The unary operator that a token stands for: `-`, `+` or `NOT`.
pub open spec fn unary_op_of(t: TokenTypeV) -> Result<UnaryOp, TokenToOperatorErrorV> {
    match t {
        TokenTypeV::Operator(Operator::Minus) => Ok(UnaryOp::Minus),
        TokenTypeV::Operator(Operator::Plus) => Ok(UnaryOp::Plus),
        TokenTypeV::Keyword(Keyword::Not) => Ok(UnaryOp::Not),
        other => Err(TokenToOperatorErrorV::InvalidOperator(other)),
    }
}

impl UnaryOp {
    /// The unary operator that a token stands for.
    pub fn try_from(value: &TokenType) -> (r: Result<UnaryOp, TokenToOperatorError>)
        ensures
            match r {
                Ok(op) => unary_op_of(value@) == Ok::<UnaryOp, TokenToOperatorErrorV>(op),
                Err(e) => unary_op_of(value@) == Err::<UnaryOp, TokenToOperatorErrorV>(e@),
            },
    {
        match value {
            TokenType::Operator(Operator::Minus) => Ok(UnaryOp::Minus),
            TokenType::Operator(Operator::Plus) => Ok(UnaryOp::Plus),
            TokenType::Keyword(Keyword::Not) => Ok(UnaryOp::Not),
            other => Err(TokenToOperatorError::InvalidOperator(clone_token_type(other))),
        }
    }
}

} // verus!
