use vstd::prelude::*;

use crate::ql::parser::expression::error::{TokenToOperatorError, TokenToOperatorErrorV};
use crate::ql::tokenizer::token::{Keyword, Operator, TokenType, TokenTypeV};

verus! {

/// An error met while parsing tokens into statements. The positions count
/// tokens from the start of the token list.
#[derive(Debug)]
pub enum QLParseError {
    EOF,
    ExpectedOneOfKeywords(Vec<Keyword>, usize),
    ExpectedKeyword(Keyword, usize),
    UnknownToken(TokenType, usize),
    IllegalToken(TokenType, usize),
    ExpectedIdent(usize),
    ExpectedOneOfTokens(Vec<TokenType>, usize),
    ExpectedToken(TokenType, usize),
    KeywordIsNotColumnType(Keyword),
    /// Either a semicolon or EOF
    ExpectedEndOfQuery(usize),
    ExpectedLiteralString(usize),
    ExpectedLiteralInt(usize),
    ExpectedLiteralBigInt(usize),
    ExpectedLiteralFloat(usize),
    ExpectedLiteralBigFloat(usize),
    ExpectedLiteralBool(usize),
    ExpectedLiteralNull(usize),
    ExpectedLiteral(usize),
    ExpectedOperator(Operator, usize),
    TokenToOperatorConversionError(TokenToOperatorError),
}

/// The mathematical form of a [`QLParseError`].
pub enum QLParseErrorV {
    EOF,
    ExpectedOneOfKeywords(Seq<Keyword>, usize),
    ExpectedKeyword(Keyword, usize),
    UnknownToken(TokenTypeV, usize),
    IllegalToken(TokenTypeV, usize),
    ExpectedIdent(usize),
    ExpectedOneOfTokens(Seq<TokenTypeV>, usize),
    ExpectedToken(TokenTypeV, usize),
    KeywordIsNotColumnType(Keyword),
    ExpectedEndOfQuery(usize),
    ExpectedLiteralString(usize),
    ExpectedLiteralInt(usize),
    ExpectedLiteralBigInt(usize),
    ExpectedLiteralFloat(usize),
    ExpectedLiteralBigFloat(usize),
    ExpectedLiteralBool(usize),
    ExpectedLiteralNull(usize),
    ExpectedLiteral(usize),
    ExpectedOperator(Operator, usize),
    TokenToOperatorConversionError(TokenToOperatorErrorV),
}

impl View for QLParseError {
    type V = QLParseErrorV;

    open spec fn view(&self) -> QLParseErrorV {
        match self {
            QLParseError::EOF => QLParseErrorV::EOF,
            QLParseError::ExpectedOneOfKeywords(k, p) => QLParseErrorV::ExpectedOneOfKeywords(
                k@,
                *p,
            ),
            QLParseError::ExpectedKeyword(k, p) => QLParseErrorV::ExpectedKeyword(*k, *p),
            QLParseError::UnknownToken(t, p) => QLParseErrorV::UnknownToken(t@, *p),
            QLParseError::IllegalToken(t, p) => QLParseErrorV::IllegalToken(t@, *p),
            QLParseError::ExpectedIdent(p) => QLParseErrorV::ExpectedIdent(*p),
            QLParseError::ExpectedOneOfTokens(ts, p) => QLParseErrorV::ExpectedOneOfTokens(
                ts@.map_values(|t: TokenType| t@),
                *p,
            ),
            QLParseError::ExpectedToken(t, p) => QLParseErrorV::ExpectedToken(t@, *p),
            QLParseError::KeywordIsNotColumnType(k) => QLParseErrorV::KeywordIsNotColumnType(*k),
            QLParseError::ExpectedEndOfQuery(p) => QLParseErrorV::ExpectedEndOfQuery(*p),
            QLParseError::ExpectedLiteralString(p) => QLParseErrorV::ExpectedLiteralString(*p),
            QLParseError::ExpectedLiteralInt(p) => QLParseErrorV::ExpectedLiteralInt(*p),
            QLParseError::ExpectedLiteralBigInt(p) => QLParseErrorV::ExpectedLiteralBigInt(*p),
            QLParseError::ExpectedLiteralFloat(p) => QLParseErrorV::ExpectedLiteralFloat(*p),
            QLParseError::ExpectedLiteralBigFloat(p) => QLParseErrorV::ExpectedLiteralBigFloat(*p),
            QLParseError::ExpectedLiteralBool(p) => QLParseErrorV::ExpectedLiteralBool(*p),
            QLParseError::ExpectedLiteralNull(p) => QLParseErrorV::ExpectedLiteralNull(*p),
            QLParseError::ExpectedLiteral(p) => QLParseErrorV::ExpectedLiteral(*p),
            QLParseError::ExpectedOperator(o, p) => QLParseErrorV::ExpectedOperator(*o, *p),
            QLParseError::TokenToOperatorConversionError(e) =>
                QLParseErrorV::TokenToOperatorConversionError(e@),
        }
    }
}

} // verus!
