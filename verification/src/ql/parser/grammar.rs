//! The grammar of the query language, stated over sequences of tokens.
//!
//! Each rule reads tokens from a position and gives its outcome together with
//! the position reached. A rule that fails reports the position reached when it
//! failed: tokens that it took before failing stay taken.
use vstd::prelude::*;

use crate::ql::parser::column_type::{column_type_of, ColumnType};
use crate::ql::parser::error::QLParseErrorV;
use crate::ql::parser::expression::binary_op::binary_op_of;
use crate::ql::parser::expression::literal::LiteralV;
use crate::ql::parser::expression::unary_op::{unary_op_of, UnaryOp};
use crate::ql::parser::expression::ExprV;
use crate::ql::parser::statement::QLStatementV;
use crate::ql::parser::statements::alter_stmt::{
    AlterActionModifiers, AlterActionV, AlterMode, AlterObject, AlterStatementV,
};
use crate::ql::parser::statements::create_stmt::{ColumnModifiersV, CreateStatementV, CreateTypeV};
use crate::ql::parser::statements::delete_stmt::DeleteStatementV;
use crate::ql::parser::statements::drop_stmt::{DropStatementV, DropType};
use crate::ql::parser::statements::insert_stmt::InsertStatementV;
use crate::ql::parser::statements::load_stmt::LoadStatementV;
use crate::ql::parser::statements::select_stmt::{JoinTypeV, SelectStatementV};
use crate::ql::parser::statements::update_stmt::UpdateStatementV;
use crate::ql::parser::statements::use_stmt::UseStatementV;
use crate::ql::tokenizer::token::{
    prefix_bp, token_bp, Keyword, LiteralTokenV, Operator, TokenTypeV, TokenV,
};

verus! {

/// The outcome of a rule and the position reached.
pub type Step<T> = (Result<T, QLParseErrorV>, int);

/// The kind of the token at position `p`, if there is one.
pub open spec fn kind_at(t: Seq<TokenV>, p: int) -> Option<TokenTypeV> {
    if 0 <= p < t.len() {
        Some(t[p].token_type)
    } else {
        None
    }
}

// ===========================================================================
// Single tokens
// ===========================================================================

pub open spec fn g_token(t: Seq<TokenV>, p: int, expected: TokenTypeV) -> Step<TokenTypeV> {
    if kind_at(t, p) == Some(expected) {
        (Ok(expected), p + 1)
    } else {
        (Err(QLParseErrorV::ExpectedToken(expected, p as usize)), p)
    }
}

pub open spec fn g_operator(t: Seq<TokenV>, p: int, expected: Operator) -> Step<Operator> {
    if kind_at(t, p) == Some(TokenTypeV::Operator(expected)) {
        (Ok(expected), p + 1)
    } else {
        (Err(QLParseErrorV::ExpectedOperator(expected, p as usize)), p)
    }
}

/// An identifier, plain or quoted.
pub open spec fn g_ident(t: Seq<TokenV>, p: int) -> Step<Seq<char>> {
    match kind_at(t, p) {
        Some(TokenTypeV::Identifier(s)) => (Ok(s), p + 1),
        Some(TokenTypeV::QuotedIdentifier(s)) => (Ok(s), p + 1),
        _ => (Err(QLParseErrorV::ExpectedIdent(p as usize)), p),
    }
}

pub open spec fn g_keyword(t: Seq<TokenV>, p: int, expected: Keyword) -> Step<()> {
    if kind_at(t, p) == Some(TokenTypeV::Keyword(expected)) {
        (Ok(()), p + 1)
    } else {
        (Err(QLParseErrorV::ExpectedKeyword(expected, p as usize)), p)
    }
}

/// The end of a statement: a semicolon, or the end of the tokens.
pub open spec fn g_end_of_query(t: Seq<TokenV>, p: int) -> Step<()> {
    match kind_at(t, p) {
        Some(TokenTypeV::SemiColon) => (Ok(()), p + 1),
        Some(_) => (Err(QLParseErrorV::ExpectedEndOfQuery(p as usize)), p),
        None => (Ok(()), p),
    }
}

pub open spec fn g_one_of_keywords(t: Seq<TokenV>, p: int, kws: Seq<Keyword>) -> Step<Keyword> {
    match kind_at(t, p) {
        Some(TokenTypeV::Keyword(k)) => if kws.contains(k) {
            (Ok(k), p + 1)
        } else {
            (Err(QLParseErrorV::ExpectedOneOfKeywords(kws, p as usize)), p)
        },
        _ => (Err(QLParseErrorV::ExpectedOneOfKeywords(kws, p as usize)), p),
    }
}

pub open spec fn g_one_of_tokens(t: Seq<TokenV>, p: int, expected: Seq<TokenTypeV>) -> Step<
    TokenTypeV,
> {
    match kind_at(t, p) {
        Some(k) => if expected.contains(k) {
            (Ok(k), p + 1)
        } else {
            (Err(QLParseErrorV::ExpectedOneOfTokens(expected, p as usize)), p)
        },
        None => (Err(QLParseErrorV::ExpectedOneOfTokens(expected, p as usize)), p),
    }
}

/// Whether the token at `p` is one of the keywords `kws` (nothing is taken).
pub open spec fn g_peek_is_keyword(t: Seq<TokenV>, p: int, kws: Seq<Keyword>) -> bool {
    match kind_at(t, p) {
        Some(TokenTypeV::Keyword(k)) => kws.contains(k),
        _ => false,
    }
}

// ===========================================================================
// Literals
// ===========================================================================

pub open spec fn g_literal_null(t: Seq<TokenV>, p: int) -> Step<()> {
    if kind_at(t, p) == Some(TokenTypeV::Keyword(Keyword::Null)) {
        (Ok(()), p + 1)
    } else {
        (Err(QLParseErrorV::ExpectedLiteralNull(p as usize)), p)
    }
}

pub open spec fn g_literal_bool(t: Seq<TokenV>, p: int) -> Step<bool> {
    match kind_at(t, p) {
        Some(TokenTypeV::Keyword(Keyword::True)) => (Ok(true), p + 1),
        Some(TokenTypeV::Keyword(Keyword::False)) => (Ok(false), p + 1),
        _ => (Err(QLParseErrorV::ExpectedLiteralBool(p as usize)), p),
    }
}

pub open spec fn g_literal_bigfloat(t: Seq<TokenV>, p: int) -> Step<Seq<char>> {
    match kind_at(t, p) {
        Some(TokenTypeV::Literal(LiteralTokenV::BigFloat(s))) => (Ok(s), p + 1),
        _ => (Err(QLParseErrorV::ExpectedLiteralBigFloat(p as usize)), p),
    }
}

pub open spec fn g_literal_float(t: Seq<TokenV>, p: int) -> Step<Seq<char>> {
    match kind_at(t, p) {
        Some(TokenTypeV::Literal(LiteralTokenV::Float(s))) => (Ok(s), p + 1),
        _ => (Err(QLParseErrorV::ExpectedLiteralFloat(p as usize)), p),
    }
}

pub open spec fn g_literal_i64(t: Seq<TokenV>, p: int) -> Step<i64> {
    match kind_at(t, p) {
        Some(TokenTypeV::Literal(LiteralTokenV::BigInt(n))) => (Ok(n), p + 1),
        _ => (Err(QLParseErrorV::ExpectedLiteralBigInt(p as usize)), p),
    }
}

pub open spec fn g_literal_i32(t: Seq<TokenV>, p: int) -> Step<i32> {
    match kind_at(t, p) {
        Some(TokenTypeV::Literal(LiteralTokenV::Int(n))) => (Ok(n), p + 1),
        _ => (Err(QLParseErrorV::ExpectedLiteralInt(p as usize)), p),
    }
}

pub open spec fn g_literal_string(t: Seq<TokenV>, p: int) -> Step<Seq<char>> {
    match kind_at(t, p) {
        Some(TokenTypeV::Literal(LiteralTokenV::String(s))) => (Ok(s), p + 1),
        _ => (Err(QLParseErrorV::ExpectedLiteralString(p as usize)), p),
    }
}

/// Any literal value: a boolean, a string, a number or `NULL`.
pub open spec fn g_literal(t: Seq<TokenV>, p: int) -> Step<LiteralV> {
    match kind_at(t, p) {
        Some(TokenTypeV::Keyword(Keyword::True)) => (Ok(LiteralV::Bool(true)), p + 1),
        Some(TokenTypeV::Keyword(Keyword::False)) => (Ok(LiteralV::Bool(false)), p + 1),
        Some(TokenTypeV::Literal(LiteralTokenV::String(s))) => (Ok(LiteralV::String(s)), p + 1),
        Some(TokenTypeV::Literal(LiteralTokenV::Int(n))) => (Ok(LiteralV::Int(n)), p + 1),
        Some(TokenTypeV::Literal(LiteralTokenV::BigInt(n))) => (Ok(LiteralV::BigInt(n)), p + 1),
        Some(TokenTypeV::Literal(LiteralTokenV::Float(s))) => (Ok(LiteralV::Float(s)), p + 1),
        Some(TokenTypeV::Literal(LiteralTokenV::BigFloat(s))) => (
            Ok(LiteralV::BigFloat(s)),
            p + 1,
        ),
        Some(TokenTypeV::Keyword(Keyword::Null)) => (Ok(LiteralV::Null), p + 1),
        _ => (Err(QLParseErrorV::ExpectedLiteral(p as usize)), p),
    }
}

/// Literals separated by commas, as many as there are. A comma that no
/// literal follows is taken.
pub open spec fn g_literal_items(t: Seq<TokenV>, p: int) -> (Seq<LiteralV>, int)
    decreases t.len() - p,
{
    match g_literal(t, p) {
        (Ok(l), q) => match g_token(t, q, TokenTypeV::Comma) {
            (Ok(_), q2) => if p < q2 <= t.len() {
                let r = g_literal_items(t, q2);
                (seq![l] + r.0, r.1)
            } else {
                (seq![l], q2)
            },
            (Err(_), _) => (seq![l], q),
        },
        (Err(_), _) => (Seq::empty(), p),
    }
}

/// A parenthesised, comma separated list of literals.
pub open spec fn g_literal_list(t: Seq<TokenV>, p: int) -> Step<Seq<LiteralV>> {
    match g_token(t, p, TokenTypeV::LParen) {
        (Err(e), q) => (Err(e), q),
        (Ok(_), q) => {
            let (lits, q2) = g_literal_items(t, q);
            match g_token(t, q2, TokenTypeV::RParen) {
                (Err(e), q3) => (Err(e), q3),
                (Ok(_), q3) => (Ok(lits), q3),
            }
        },
    }
}

/// Identifiers separated by commas, as many as there are. A comma that no
/// identifier follows is taken.
pub open spec fn g_ident_items(t: Seq<TokenV>, p: int) -> (Seq<Seq<char>>, int)
    decreases t.len() - p,
{
    match g_ident(t, p) {
        (Ok(s), q) => match g_token(t, q, TokenTypeV::Comma) {
            (Ok(_), q2) => if p < q2 <= t.len() {
                let r = g_ident_items(t, q2);
                (seq![s] + r.0, r.1)
            } else {
                (seq![s], q2)
            },
            (Err(_), _) => (seq![s], q),
        },
        (Err(_), _) => (Seq::empty(), p),
    }
}

/// A parenthesised, comma separated list of identifiers.
pub open spec fn g_ident_list(t: Seq<TokenV>, p: int) -> Step<Seq<Seq<char>>> {
    match g_token(t, p, TokenTypeV::LParen) {
        (Err(e), q) => (Err(e), q),
        (Ok(_), q) => {
            let (ids, q2) = g_ident_items(t, q);
            match g_token(t, q2, TokenTypeV::RParen) {
                (Err(e), q3) => (Err(e), q3),
                (Ok(_), q3) => (Ok(ids), q3),
            }
        },
    }
}

// ===========================================================================
// Column declarations
// ===========================================================================

pub open spec fn type_keywords() -> Seq<Keyword> {
    seq![
        Keyword::Int,
        Keyword::BigInt,
        Keyword::Float,
        Keyword::BigFloat,
        Keyword::String,
        Keyword::Bool,
    ]
}

pub open spec fn modifier_keywords() -> Seq<Keyword> {
    seq![Keyword::Nullable, Keyword::Indexed, Keyword::Unique]
}

pub open spec fn no_modifiers() -> ColumnModifiersV {
    ColumnModifiersV { nullable: false, unique: false, indexed: None }
}

/// Column modifiers (`NULLABLE`, `UNIQUE`, `INDEXED name`) added to `m`, as many as follow.
pub open spec fn g_modifiers(t: Seq<TokenV>, p: int, m: ColumnModifiersV) -> Step<ColumnModifiersV>
    decreases t.len() - p,
{
    if !g_peek_is_keyword(t, p, modifier_keywords()) {
        (Ok(m), p)
    } else {
        match g_one_of_keywords(t, p, modifier_keywords()) {
            (Err(e), q) => (Err(e), q),
            (Ok(k), q) => if !(p < q <= t.len()) {
                (Ok(m), q)
            } else if k == Keyword::Nullable {
                g_modifiers(t, q, ColumnModifiersV { nullable: true, ..m })
            } else if k == Keyword::Unique {
                g_modifiers(t, q, ColumnModifiersV { unique: true, ..m })
            } else {
                match g_ident(t, q) {
                    (Err(e), q2) => (Err(e), q2),
                    (Ok(name), q2) => if q2 <= t.len() {
                        g_modifiers(t, q2, ColumnModifiersV { indexed: Some(name), ..m })
                    } else {
                        (Ok(m), q2)
                    },
                }
            },
        }
    }
}

/// A column declaration: a name, a type keyword and modifiers.
pub open spec fn g_column_decl(t: Seq<TokenV>, p: int) -> Step<
    (Seq<char>, ColumnType, ColumnModifiersV),
> {
    match g_ident(t, p) {
        (Err(e), q) => (Err(e), q),
        (Ok(name), q) => match g_one_of_keywords(t, q, type_keywords()) {
            (Err(e), q2) => (Err(e), q2),
            (Ok(k), q2) => match g_modifiers(t, q2, no_modifiers()) {
                (Err(e), q3) => (Err(e), q3),
                (Ok(m), q3) => (Ok((name, column_type_of(k)->Ok_0, m)), q3),
            },
        },
    }
}

// ===========================================================================
// Expressions
// ===========================================================================

/// An expression whose operators bind at least as tightly as `min_bp`.
pub open spec fn g_expr(t: Seq<TokenV>, p: int, min_bp: u8) -> Step<ExprV>
    decreases t.len() - p, 2int,
{
    if !(0 <= p <= t.len()) {
        (Err(QLParseErrorV::EOF), p)
    } else {
        match g_prefix(t, p) {
            (Err(e), q) => (Err(e), q),
            (Ok(lhs), q) => if p < q <= t.len() {
                g_expr_rest(t, q, min_bp, lhs)
            } else {
                (Ok(lhs), q)
            },
        }
    }
}

/// The operators and operands that follow the left operand `lhs`, taken while
/// they bind at least as tightly as `min_bp`.
pub open spec fn g_expr_rest(t: Seq<TokenV>, p: int, min_bp: u8, lhs: ExprV) -> Step<ExprV>
    decreases t.len() - p, 3int,
{
    match kind_at(t, p) {
        None => (Ok(lhs), p),
        Some(op) => if op == TokenTypeV::Keyword(Keyword::Is) {
            // `IS` is taken before its binding power is checked.
            if 7 < min_bp {
                (Ok(lhs), p + 1)
            } else {
                match g_one_of_keywords(t, p + 1, seq![Keyword::Null, Keyword::Not]) {
                    (Err(e), q) => (Err(e), q),
                    (Ok(k), q) => if k == Keyword::Null {
                        if q <= t.len() {
                            g_expr_rest(
                                t,
                                q,
                                min_bp,
                                ExprV::UnaryOp { op: UnaryOp::IsNull, expr: Box::new(lhs) },
                            )
                        } else {
                            (Ok(lhs), q)
                        }
                    } else {
                        match g_keyword(t, q, Keyword::Null) {
                            (Err(e), q2) => (Err(e), q2),
                            (Ok(_), q2) => if q2 <= t.len() {
                                g_expr_rest(
                                    t,
                                    q2,
                                    min_bp,
                                    ExprV::UnaryOp { op: UnaryOp::IsNotNull, expr: Box::new(lhs) },
                                )
                            } else {
                                (Ok(lhs), q2)
                            },
                        }
                    },
                }
            }
        } else {
            match token_bp(op) {
                None => (Ok(lhs), p),
                Some((l_bp, r_bp)) => if l_bp < min_bp {
                    (Ok(lhs), p)
                } else {
                    match binary_op_of(op) {
                        Err(e) => (Err(QLParseErrorV::TokenToOperatorConversionError(e)), p + 1),
                        Ok(bop) => match g_expr(t, p + 1, r_bp) {
                            (Err(e), q) => (Err(e), q),
                            (Ok(rhs), q) => if p < q <= t.len() {
                                g_expr_rest(
                                    t,
                                    q,
                                    min_bp,
                                    ExprV::BinaryOp { lhs: Box::new(lhs), op: bop, rhs: Box::new(rhs) },
                                )
                            } else {
                                (Ok(lhs), q)
                            },
                        },
                    }
                },
            }
        },
    }
}

/// A unary operator applied to the expression that follows it.
pub open spec fn g_unary(t: Seq<TokenV>, p: int, op_token: TokenTypeV) -> Step<ExprV>
    decreases t.len() - p, 0int,
{
    if !(0 <= p < t.len()) {
        (Err(QLParseErrorV::EOF), p)
    } else {
        match g_expr(t, p + 1, prefix_bp(op_token)->Some_0) {
            (Err(e), q) => (Err(e), q),
            (Ok(e), q) => match unary_op_of(op_token) {
                Ok(op) => (Ok(ExprV::UnaryOp { op, expr: Box::new(e) }), q),
                Err(x) => (Err(QLParseErrorV::TokenToOperatorConversionError(x)), q),
            },
        }
    }
}

/// What can stand on the left of an expression: a literal, `NOT` or `-` and
/// the operand they apply to, a parenthesised expression, or an identifier.
pub open spec fn g_prefix(t: Seq<TokenV>, p: int) -> Step<ExprV>
    decreases t.len() - p, 1int,
{
    if !(0 <= p < t.len()) {
        (Err(QLParseErrorV::EOF), p)
    } else {
        match g_literal(t, p) {
            (Ok(l), q) => (Ok(ExprV::Literal(l)), q),
            (Err(_), _) => if kind_at(t, p) == Some(TokenTypeV::Keyword(Keyword::Not)) {
                g_unary(t, p, TokenTypeV::Keyword(Keyword::Not))
            } else if kind_at(t, p) == Some(TokenTypeV::Operator(Operator::Minus)) {
                g_unary(t, p, TokenTypeV::Operator(Operator::Minus))
            } else if kind_at(t, p) == Some(TokenTypeV::LParen) {
                match g_expr(t, p + 1, 0) {
                    (Err(e), q) => (Err(e), q),
                    (Ok(e), q) => match g_token(t, q, TokenTypeV::RParen) {
                        (Err(er), q2) => (Err(er), q2),
                        (Ok(_), q2) => (Ok(e), q2),
                    },
                }
            } else {
                match g_ident(t, p) {
                    (Ok(s), q) => (Ok(ExprV::Identifier(s)), q),
                    (Err(_), _) => (Err(QLParseErrorV::UnknownToken(t[p].token_type, p as usize)), p),
                }
            }
        }
    }
}


// ===========================================================================
// Statements
// ===========================================================================

/// Column declarations of `CREATE TABLE`, each followed by a comma or by the
/// closing parenthesis that ends the list; `cols` holds those already read.
pub open spec fn g_create_columns(
    t: Seq<TokenV>,
    p: int,
    cols: Seq<(Seq<char>, ColumnType, ColumnModifiersV)>,
) -> Step<Seq<(Seq<char>, ColumnType, ColumnModifiersV)>>
    decreases t.len() - p,
{
    match g_column_decl(t, p) {
        (Err(e), q) => (Err(e), q),
        (Ok(c), q) => match g_one_of_tokens(t, q, seq![TokenTypeV::Comma, TokenTypeV::RParen]) {
            (Err(e), q2) => (Err(e), q2),
            (Ok(sep), q2) => if sep == TokenTypeV::RParen || !(p < q2 <= t.len()) {
                (Ok(cols.push(c)), q2)
            } else {
                g_create_columns(t, q2, cols.push(c))
            },
        },
    }
}

pub open spec fn g_create(t: Seq<TokenV>, p: int) -> Step<QLStatementV> {
    match g_one_of_keywords(t, p, seq![Keyword::Table, Keyword::Index, Keyword::Database]) {
        (Err(e), q) => (Err(e), q),
        (Ok(k), q) => if k == Keyword::Table {
            match g_ident(t, q) {
                (Err(e), q2) => (Err(e), q2),
                (Ok(name), q2) => match g_token(t, q2, TokenTypeV::LParen) {
                    (Err(e), q3) => (Err(e), q3),
                    (Ok(_), q3) => match g_create_columns(t, q3, Seq::empty()) {
                        (Err(e), q4) => (Err(e), q4),
                        (Ok(cols), q4) => match g_end_of_query(t, q4) {
                            (Err(e), q5) => (Err(e), q5),
                            (Ok(_), q5) => (
                                Ok(
                                    QLStatementV::Create(
                                        CreateStatementV { create_type: CreateTypeV::Table(cols), name },
                                    ),
                                ),
                                q5,
                            ),
                        },
                    },
                },
            }
        } else if k == Keyword::Database {
            match g_ident(t, q) {
                (Err(e), q2) => (Err(e), q2),
                (Ok(name), q2) => match g_end_of_query(t, q2) {
                    (Err(e), q3) => (Err(e), q3),
                    (Ok(_), q3) => (
                        Ok(
                            QLStatementV::Create(
                                CreateStatementV { create_type: CreateTypeV::Database, name },
                            ),
                        ),
                        q3,
                    ),
                },
            }
        } else {
            match g_ident(t, q) {
                (Err(e), q2) => (Err(e), q2),
                (Ok(name), q2) => match g_keyword(t, q2, Keyword::On) {
                    (Err(e), q3) => (Err(e), q3),
                    (Ok(_), q3) => match g_ident(t, q3) {
                        (Err(e), q4) => (Err(e), q4),
                        (Ok(target), q4) => match g_end_of_query(t, q4) {
                            (Err(e), q5) => (Err(e), q5),
                            (Ok(_), q5) => (
                                Ok(
                                    QLStatementV::Create(
                                        CreateStatementV {
                                            create_type: CreateTypeV::Index(target),
                                            name,
                                        },
                                    ),
                                ),
                                q5,
                            ),
                        },
                    },
                },
            }
        },
    }
}

pub open spec fn join_keywords() -> Seq<Keyword> {
    seq![Keyword::Inner, Keyword::Right, Keyword::Left, Keyword::Full, Keyword::Cross]
}

/// The join of kind `k` with condition `cond`.
pub open spec fn join_of(k: Keyword, cond: ExprV) -> JoinTypeV {
    if k == Keyword::Inner {
        JoinTypeV::Inner(cond)
    } else if k == Keyword::Right {
        JoinTypeV::Right(cond)
    } else if k == Keyword::Left {
        JoinTypeV::Left(cond)
    } else {
        JoinTypeV::Full(cond)
    }
}

/// Joins (`INNER`, `RIGHT`, `LEFT` or `FULL JOIN table ON condition`, or
/// `CROSS JOIN table`) as many as follow; `joins` holds those already read.
pub open spec fn g_joins(t: Seq<TokenV>, p: int, joins: Seq<(Seq<char>, JoinTypeV)>) -> Step<
    Seq<(Seq<char>, JoinTypeV)>,
>
    decreases t.len() - p,
{
    match g_one_of_keywords(t, p, join_keywords()) {
        (Err(_), _) => (Ok(joins), p),
        (Ok(k), q) => match g_keyword(t, q, Keyword::Join) {
            (Err(e), q2) => (Err(e), q2),
            (Ok(_), q2) => match g_ident(t, q2) {
                (Err(e), q3) => (Err(e), q3),
                (Ok(table), q3) => if k == Keyword::Cross {
                    if p < q3 <= t.len() {
                        g_joins(t, q3, joins.push((table, JoinTypeV::Cross)))
                    } else {
                        (Ok(joins), q3)
                    }
                } else {
                    match g_keyword(t, q3, Keyword::On) {
                        (Err(e), q4) => (Err(e), q4),
                        (Ok(_), q4) => match g_expr(t, q4, 0) {
                            (Err(e), q5) => (Err(e), q5),
                            (Ok(cond), q5) => if p < q5 <= t.len() {
                                g_joins(t, q5, joins.push((table, join_of(k, cond))))
                            } else {
                                (Ok(joins), q5)
                            },
                        },
                    }
                },
            },
        },
    }
}

/// The tables listed after the first one in the `FROM` of a `SELECT`, each
/// after a comma; each is cross joined. `joins` holds those already read.
pub open spec fn g_listed_tables(t: Seq<TokenV>, p: int, joins: Seq<(Seq<char>, JoinTypeV)>) -> Step<
    Seq<(Seq<char>, JoinTypeV)>,
>
    decreases t.len() - p,
{
    match g_token(t, p, TokenTypeV::Comma) {
        (Err(_), _) => (Ok(joins), p),
        (Ok(_), q) => match g_ident(t, q) {
            (Err(e), q2) => (Err(e), q2),
            (Ok(table), q2) => if p < q2 <= t.len() {
                g_listed_tables(t, q2, joins.push((table, JoinTypeV::Cross)))
            } else {
                (Ok(joins), q2)
            },
        },
    }
}

/// The columns of a `SELECT`: `*` for all of them, or identifiers separated by commas.
pub open spec fn g_select_columns(t: Seq<TokenV>, p: int) -> (Option<Seq<Seq<char>>>, int) {
    match g_operator(t, p, Operator::Star) {
        (Ok(_), q) => (None, q),
        (Err(_), _) => {
            let (cols, q) = g_ident_items(t, p);
            (Some(cols), q)
        },
    }
}

/// An optional `WHERE condition`.
pub open spec fn g_where(t: Seq<TokenV>, p: int) -> Step<Option<ExprV>> {
    match g_keyword(t, p, Keyword::Where) {
        (Err(_), _) => (Ok(None), p),
        (Ok(_), q) => match g_expr(t, q, 0) {
            (Err(e), q2) => (Err(e), q2),
            (Ok(cond), q2) => (Ok(Some(cond)), q2),
        },
    }
}

pub open spec fn g_select(t: Seq<TokenV>, p: int) -> Step<QLStatementV> {
    let (filter_cols, q) = g_select_columns(t, p);
    match g_keyword(t, q, Keyword::From) {
        (Err(e), q2) => (Err(e), q2),
        (Ok(_), q2) => match g_ident(t, q2) {
            (Err(e), q3) => (Err(e), q3),
            (Ok(primary_table), q3) => match g_listed_tables(t, q3, Seq::empty()) {
                (Err(e), q4) => (Err(e), q4),
                (Ok(listed), q4) => match g_joins(t, q4, listed) {
                    (Err(e), q5) => (Err(e), q5),
                    (Ok(joins), q5) => match g_where(t, q5) {
                        (Err(e), q6) => (Err(e), q6),
                        (Ok(where_clause), q6) => match g_end_of_query(t, q6) {
                            (Err(e), q7) => (Err(e), q7),
                            (Ok(_), q7) => (
                                Ok(
                                    QLStatementV::Select(
                                        SelectStatementV {
                                            filter_cols,
                                            primary_table,
                                            where_clause,
                                            joins,
                                        },
                                    ),
                                ),
                                q7,
                            ),
                        },
                    },
                },
            },
        },
    }
}

pub open spec fn g_load(t: Seq<TokenV>, p: int) -> Step<QLStatementV> {
    match g_ident(t, p) {
        (Err(e), q) => (Err(e), q),
        (Ok(target), q) => match g_keyword(t, q, Keyword::From) {
            (Err(e), q2) => (Err(e), q2),
            (Ok(_), q2) => match g_literal_string(t, q2) {
                (Err(e), q3) => (Err(e), q3),
                (Ok(file_path), q3) => match g_end_of_query(t, q3) {
                    (Err(e), q4) => (Err(e), q4),
                    (Ok(_), q4) => (
                        Ok(QLStatementV::Load(LoadStatementV { target, file_path })),
                        q4,
                    ),
                },
            },
        },
    }
}

/// Rows of values of `INSERT`: parenthesised literal lists separated by commas,
/// as many as follow. A row that fails to read ends the rows, and the tokens it
/// took stay taken.
pub open spec fn g_rows(t: Seq<TokenV>, p: int) -> (Seq<Seq<LiteralV>>, int)
    decreases t.len() - p,
{
    match g_literal_list(t, p) {
        (Err(_), q) => (Seq::empty(), q),
        (Ok(row), q) => match g_token(t, q, TokenTypeV::Comma) {
            (Err(_), _) => (seq![row], q),
            (Ok(_), q2) => if p < q2 <= t.len() {
                let r = g_rows(t, q2);
                (seq![row] + r.0, r.1)
            } else {
                (seq![row], q2)
            },
        },
    }
}

/// The optional column list of `INSERT`, present unless `VALUES` comes next.
pub open spec fn g_insert_columns(t: Seq<TokenV>, p: int) -> Step<Option<Seq<Seq<char>>>> {
    if g_peek_is_keyword(t, p, seq![Keyword::Values]) {
        (Ok(None), p)
    } else {
        match g_ident_list(t, p) {
            (Err(e), q) => (Err(e), q),
            (Ok(cols), q) => (Ok(Some(cols)), q),
        }
    }
}

pub open spec fn g_insert(t: Seq<TokenV>, p: int) -> Step<QLStatementV> {
    match g_keyword(t, p, Keyword::Into) {
        (Err(e), q) => (Err(e), q),
        (Ok(_), q) => match g_ident(t, q) {
            (Err(e), q2) => (Err(e), q2),
            (Ok(name), q2) => match g_insert_columns(t, q2) {
                (Err(e), q3) => (Err(e), q3),
                (Ok(columns), q3) => match g_keyword(t, q3, Keyword::Values) {
                    (Err(e), q4) => (Err(e), q4),
                    (Ok(_), q4) => {
                        let (values, q5) = g_rows(t, q4);
                        match g_end_of_query(t, q5) {
                            (Err(e), q6) => (Err(e), q6),
                            (Ok(_), q6) => (
                                Ok(QLStatementV::Insert(InsertStatementV { name, columns, values })),
                                q6,
                            ),
                        }
                    },
                },
            },
        },
    }
}

/// Assignments `column = literal` of `UPDATE`, separated by commas; `set`
/// holds those already read.
pub open spec fn g_assignments(t: Seq<TokenV>, p: int, set: Seq<(Seq<char>, LiteralV)>) -> Step<
    Seq<(Seq<char>, LiteralV)>,
>
    decreases t.len() - p,
{
    match g_ident(t, p) {
        (Err(e), q) => (Err(e), q),
        (Ok(col), q) => match g_operator(t, q, Operator::Equals) {
            (Err(e), q2) => (Err(e), q2),
            (Ok(_), q2) => match g_literal(t, q2) {
                (Err(e), q3) => (Err(e), q3),
                (Ok(val), q3) => match g_token(t, q3, TokenTypeV::Comma) {
                    (Err(_), _) => (Ok(set.push((col, val))), q3),
                    (Ok(_), q4) => if p < q4 <= t.len() {
                        g_assignments(t, q4, set.push((col, val)))
                    } else {
                        (Ok(set.push((col, val))), q4)
                    },
                },
            },
        },
    }
}

pub open spec fn g_update(t: Seq<TokenV>, p: int) -> Step<QLStatementV> {
    match g_ident(t, p) {
        (Err(e), q) => (Err(e), q),
        (Ok(target), q) => match g_keyword(t, q, Keyword::SetKw) {
            (Err(e), q2) => (Err(e), q2),
            (Ok(_), q2) => match g_assignments(t, q2, Seq::empty()) {
                (Err(e), q3) => (Err(e), q3),
                (Ok(set), q3) => match g_where(t, q3) {
                    (Err(e), q4) => (Err(e), q4),
                    (Ok(where_cond), q4) => match g_end_of_query(t, q4) {
                        (Err(e), q5) => (Err(e), q5),
                        (Ok(_), q5) => (
                            Ok(QLStatementV::Update(UpdateStatementV { target, set, where_cond })),
                            q5,
                        ),
                    },
                },
            },
        },
    }
}

pub open spec fn g_delete(t: Seq<TokenV>, p: int) -> Step<QLStatementV> {
    match g_keyword(t, p, Keyword::From) {
        (Err(e), q) => (Err(e), q),
        (Ok(_), q) => match g_ident(t, q) {
            (Err(e), q2) => (Err(e), q2),
            (Ok(name), q2) => match g_keyword(t, q2, Keyword::Where) {
                (Err(e), q3) => (Err(e), q3),
                (Ok(_), q3) => match g_expr(t, q3, 0) {
                    (Err(e), q4) => (Err(e), q4),
                    (Ok(where_cond), q4) => match g_end_of_query(t, q4) {
                        (Err(e), q5) => (Err(e), q5),
                        (Ok(_), q5) => (
                            Ok(QLStatementV::Delete(DeleteStatementV { name, where_cond })),
                            q5,
                        ),
                    },
                },
            },
        },
    }
}

/// `ADD` or `DROP`.
pub open spec fn g_alter_mode(t: Seq<TokenV>, p: int) -> Step<AlterMode> {
    match g_one_of_keywords(t, p, seq![Keyword::Add, Keyword::Drop]) {
        (Err(e), q) => (Err(e), q),
        (Ok(k), q) => (Ok(if k == Keyword::Add { AlterMode::Add } else { AlterMode::Drop }), q),
    }
}

pub open spec fn g_alter(t: Seq<TokenV>, p: int) -> Step<QLStatementV> {
    match g_one_of_keywords(t, p, seq![Keyword::Table, Keyword::Column]) {
        (Err(e), q) => (Err(e), q),
        (Ok(k), q) => if k == Keyword::Table {
            match g_ident(t, q) {
                (Err(e), q2) => (Err(e), q2),
                (Ok(object_name), q2) => match g_alter_mode(t, q2) {
                    (Err(e), q3) => (Err(e), q3),
                    (Ok(mode), q3) => match g_keyword(t, q3, Keyword::Column) {
                        (Err(e), q4) => (Err(e), q4),
                        (Ok(_), q4) => if mode == AlterMode::Add {
                            match g_column_decl(t, q4) {
                                (Err(e), q5) => (Err(e), q5),
                                (Ok(decl), q5) => match g_end_of_query(t, q5) {
                                    (Err(e), q6) => (Err(e), q6),
                                    (Ok(_), q6) => (
                                        Ok(
                                            QLStatementV::Alter(
                                                AlterStatementV {
                                                    object: AlterObject::Table,
                                                    object_name,
                                                    mode,
                                                    action: AlterActionV::AddColumn(
                                                        decl.0,
                                                        decl.1,
                                                        decl.2,
                                                    ),
                                                },
                                            ),
                                        ),
                                        q6,
                                    ),
                                },
                            }
                        } else {
                            match g_ident(t, q4) {
                                (Err(e), q5) => (Err(e), q5),
                                (Ok(col), q5) => match g_end_of_query(t, q5) {
                                    (Err(e), q6) => (Err(e), q6),
                                    (Ok(_), q6) => (
                                        Ok(
                                            QLStatementV::Alter(
                                                AlterStatementV {
                                                    object: AlterObject::Table,
                                                    object_name,
                                                    mode,
                                                    action: AlterActionV::DropColumn(col),
                                                },
                                            ),
                                        ),
                                        q6,
                                    ),
                                },
                            }
                        },
                    },
                },
            }
        } else {
            match g_ident(t, q) {
                (Err(e), q2) => (Err(e), q2),
                (Ok(object_name), q2) => match g_alter_mode(t, q2) {
                    (Err(e), q3) => (Err(e), q3),
                    (Ok(mode), q3) => match g_keyword(t, q3, Keyword::Modifier) {
                        (Err(e), q4) => (Err(e), q4),
                        (Ok(_), q4) => match g_one_of_keywords(
                            t,
                            q4,
                            seq![Keyword::Unique, Keyword::Nullable],
                        ) {
                            (Err(e), q5) => (Err(e), q5),
                            (Ok(m), q5) => match g_end_of_query(t, q5) {
                                (Err(e), q6) => (Err(e), q6),
                                (Ok(_), q6) => (
                                    Ok(
                                        QLStatementV::Alter(
                                            AlterStatementV {
                                                object: AlterObject::Column,
                                                object_name,
                                                mode,
                                                action: AlterActionV::Modifier(
                                                    if m == Keyword::Unique {
                                                        AlterActionModifiers::Unique
                                                    } else {
                                                        AlterActionModifiers::Nullable
                                                    },
                                                ),
                                            },
                                        ),
                                    ),
                                    q6,
                                ),
                            },
                        },
                    },
                },
            }
        },
    }
}

pub open spec fn g_drop(t: Seq<TokenV>, p: int) -> Step<QLStatementV> {
    match g_one_of_keywords(t, p, seq![Keyword::Table, Keyword::Database, Keyword::Index]) {
        (Err(e), q) => (Err(e), q),
        (Ok(k), q) => {
            let drop_type = if k == Keyword::Table {
                DropType::Table
            } else if k == Keyword::Database {
                DropType::Database
            } else {
                DropType::Index
            };
            match g_ident(t, q) {
                (Err(e), q2) => (Err(e), q2),
                (Ok(target), q2) => match g_end_of_query(t, q2) {
                    (Err(e), q3) => (Err(e), q3),
                    (Ok(_), q3) => (Ok(QLStatementV::Drop(DropStatementV { drop_type, target })), q3),
                },
            }
        },
    }
}

pub open spec fn g_use(t: Seq<TokenV>, p: int) -> Step<QLStatementV> {
    match g_ident(t, p) {
        (Err(e), q) => (Err(e), q),
        (Ok(target), q) => match g_end_of_query(t, q) {
            (Err(e), q2) => (Err(e), q2),
            (Ok(_), q2) => (Ok(QLStatementV::Use(UseStatementV { target })), q2),
        },
    }
}

/// One statement, chosen by the keyword that starts it.
#[verifier::opaque]
pub open spec fn g_statement(t: Seq<TokenV>, p: int) -> Step<QLStatementV> {
    match kind_at(t, p) {
        None => (Err(QLParseErrorV::EOF), p),
        Some(first) => {
            let q = p + 1;
            match first {
                TokenTypeV::Keyword(Keyword::Create) => g_create(t, q),
                TokenTypeV::Keyword(Keyword::Select) => g_select(t, q),
                TokenTypeV::Keyword(Keyword::Insert) => g_insert(t, q),
                TokenTypeV::Keyword(Keyword::Update) => g_update(t, q),
                TokenTypeV::Keyword(Keyword::Delete) => g_delete(t, q),
                TokenTypeV::Keyword(Keyword::Alter) => g_alter(t, q),
                TokenTypeV::Keyword(Keyword::Drop) => g_drop(t, q),
                TokenTypeV::Keyword(Keyword::Use) => g_use(t, q),
                TokenTypeV::Keyword(Keyword::Load) => g_load(t, q),
                TokenTypeV::Unknown(_) => (Err(QLParseErrorV::UnknownToken(first, q as usize)), q),
                _ => (Err(QLParseErrorV::IllegalToken(first, q as usize)), q),
            }
        },
    }
}

/// The statements that the tokens from `p` on make up, or the first error.
pub open spec fn g_statements(t: Seq<TokenV>, p: int) -> Result<Seq<QLStatementV>, QLParseErrorV>
    decreases t.len() - p,
{
    if !(0 <= p < t.len()) {
        Ok(Seq::empty())
    } else {
        match g_statement(t, p) {
            (Err(e), _) => Err(e),
            (Ok(s), q) => if p < q <= t.len() {
                match g_statements(t, q) {
                    Ok(rest) => Ok(seq![s] + rest),
                    Err(e) => Err(e),
                }
            } else {
                Ok(seq![s])
            },
        }
    }
}

/// `DROP TABLE name`, `DROP DATABASE name` and `DROP INDEX name`, ended by a
/// semicolon or by the end of the tokens, are one statement each: a drop of a
/// table, of a database and of an index respectively, of the object `name`.
pub proof fn lemma_drop_statements(t: Seq<TokenV>, p: int, k: Keyword, name: Seq<char>)
    requires
        0 <= p,
        p + 3 <= t.len(),
        t[p].token_type == TokenTypeV::Keyword(Keyword::Drop),
        t[p + 1].token_type == TokenTypeV::Keyword(k),
        k == Keyword::Table || k == Keyword::Database || k == Keyword::Index,
        t[p + 2].token_type == TokenTypeV::Identifier(name),
        p + 3 == t.len() || t[p + 3].token_type == TokenTypeV::SemiColon,
    ensures
        g_statement(t, p).0 matches Ok(QLStatementV::Drop(d)) && {
            &&& d.target == name
            &&& k == Keyword::Table ==> d.drop_type == DropType::Table
            &&& k == Keyword::Database ==> d.drop_type == DropType::Database
            &&& k == Keyword::Index ==> d.drop_type == DropType::Index
        },
        p + 3 == t.len() || p + 4 == t.len() ==> g_statements(t, p) == Ok::<_, QLParseErrorV>(
            seq![g_statement(t, p).0->Ok_0],
        ),
{
    reveal(g_statement);
    let kws = seq![Keyword::Table, Keyword::Database, Keyword::Index];
    assert(kws[0] == Keyword::Table && kws[1] == Keyword::Database && kws[2] == Keyword::Index);
    assert(kws.contains(k));
    let q = g_statement(t, p).1;
    assert(q == p + 3 || q == p + 4);
    if p + 3 == t.len() || p + 4 == t.len() {
        assert(g_statements(t, q) == Ok::<Seq<QLStatementV>, QLParseErrorV>(Seq::empty()));
        assert(seq![g_statement(t, p).0->Ok_0] + Seq::<QLStatementV>::empty() =~= seq![g_statement(t, p).0->Ok_0]);
    }
}

} // verus!
