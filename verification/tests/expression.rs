use dbms_upended::ql::parser::expression::binary_op::BinaryOp;
use dbms_upended::ql::parser::expression::error::{BinaryOperatorApplyError, TokenToOperatorError};
use dbms_upended::ql::parser::expression::literal::Literal;
use dbms_upended::ql::parser::expression::unary_op::UnaryOp;
use dbms_upended::ql::tokenizer::token::{Keyword, Operator, TokenType};

fn s(x: &str) -> Literal {
    Literal::String(x.to_string())
}

fn apply(op: BinaryOp, l: Literal, r: Literal) -> Result<Literal, BinaryOperatorApplyError> {
    op.apply_exact(l, r)
}

#[test]
fn equality_compares_kind_and_value() {
    assert!(matches!(apply(BinaryOp::Eq, Literal::Int(1), Literal::Int(1)), Ok(Literal::Bool(true))));
    assert!(matches!(
        apply(BinaryOp::Eq, Literal::Int(1), Literal::BigInt(1)),
        Ok(Literal::Bool(false))
    ));
    assert!(matches!(apply(BinaryOp::Eq, s("a"), s("a")), Ok(Literal::Bool(true))));
    assert!(matches!(apply(BinaryOp::NotEq, s("a"), s("b")), Ok(Literal::Bool(true))));
    assert!(matches!(apply(BinaryOp::Eq, Literal::Null, Literal::Null), Ok(Literal::Bool(true))));
}

#[test]
fn comparisons_order_integers_only() {
    assert!(matches!(
        apply(BinaryOp::Lt, Literal::Int(1), Literal::BigInt(2)),
        Ok(Literal::Bool(true))
    ));
    assert!(matches!(
        apply(BinaryOp::GtEq, Literal::BigInt(2), Literal::Int(2)),
        Ok(Literal::Bool(true))
    ));
    assert!(matches!(apply(BinaryOp::Gt, Literal::Int(1), Literal::Int(2)), Ok(Literal::Bool(false))));
    assert!(matches!(apply(BinaryOp::Lt, s("a"), s("b")), Ok(Literal::Bool(false))));
    assert!(matches!(
        apply(BinaryOp::LtEq, Literal::Bool(true), Literal::Bool(true)),
        Ok(Literal::Bool(false))
    ));
}

#[test]
fn logical_operators_take_booleans() {
    assert!(matches!(
        apply(BinaryOp::And, Literal::Bool(true), Literal::Bool(false)),
        Ok(Literal::Bool(false))
    ));
    assert!(matches!(
        apply(BinaryOp::Or, Literal::Bool(true), Literal::Bool(false)),
        Ok(Literal::Bool(true))
    ));
    match apply(BinaryOp::And, Literal::Int(1), Literal::Bool(true)) {
        Err(BinaryOperatorApplyError::IncompatibleLiterals(Literal::Int(1), Literal::Bool(true), op)) => {
            assert_eq!(op, BinaryOp::And)
        }
        other => panic!("unexpected: {:?}", other),
    }
}

#[test]
fn sums_keep_the_larger_integer_type() {
    assert!(matches!(apply(BinaryOp::Plus, Literal::Int(2), Literal::Int(3)), Ok(Literal::Int(5))));
    assert!(matches!(
        apply(BinaryOp::Plus, Literal::Int(2), Literal::BigInt(3)),
        Ok(Literal::BigInt(5))
    ));
    assert!(matches!(
        apply(BinaryOp::Minus, Literal::BigInt(2), Literal::Int(3)),
        Ok(Literal::BigInt(-1))
    ));
    assert!(matches!(apply(BinaryOp::Minus, Literal::Int(2), Literal::Int(3)), Ok(Literal::Int(-1))));
    assert!(matches!(
        apply(BinaryOp::Plus, s("a"), Literal::Int(1)),
        Err(BinaryOperatorApplyError::IncompatibleLiterals(_, _, BinaryOp::Plus))
    ));
}

#[test]
fn operators_from_tokens() {
    assert_eq!(BinaryOp::try_from(&TokenType::Operator(Operator::Lte)).unwrap(), BinaryOp::LtEq);
    assert_eq!(BinaryOp::try_from(&TokenType::Keyword(Keyword::Or)).unwrap(), BinaryOp::Or);
    assert_eq!(BinaryOp::try_from(&TokenType::Operator(Operator::Star)).unwrap(), BinaryOp::Mul);
    match BinaryOp::try_from(&TokenType::Comma) {
        Err(TokenToOperatorError::InvalidOperator(TokenType::Comma)) => {}
        other => panic!("unexpected: {:?}", other),
    }
    assert_eq!(UnaryOp::try_from(&TokenType::Keyword(Keyword::Not)).unwrap(), UnaryOp::Not);
    assert_eq!(UnaryOp::try_from(&TokenType::Operator(Operator::Minus)).unwrap(), UnaryOp::Minus);
    assert!(UnaryOp::try_from(&TokenType::Operator(Operator::Star)).is_err());
}

#[test]
fn literals_from_values() {
    assert!(matches!(Literal::from(true), Literal::Bool(true)));
    assert!(matches!(Literal::from(7i32), Literal::Int(7)));
    assert!(matches!(Literal::from(7i64), Literal::BigInt(7)));
    assert!(matches!(Literal::from("x".to_string()), Literal::String(ref v) if v == "x"));
}

#[test]
fn token_kinds_compare_by_value() {
    assert_eq!(TokenType::Identifier("a".to_string()), TokenType::Identifier("a".to_string()));
    assert_ne!(TokenType::Identifier("a".to_string()), TokenType::QuotedIdentifier("a".to_string()));
    assert_ne!(TokenType::Keyword(Keyword::Select), TokenType::Keyword(Keyword::From));
    assert_eq!(TokenType::SemiColon, TokenType::SemiColon);
}
