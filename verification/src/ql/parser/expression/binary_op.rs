use vstd::prelude::*;

use crate::ql::parser::expression::error::{
    BinaryOperatorApplyError, BinaryOperatorApplyErrorV, TokenToOperatorError,
    TokenToOperatorErrorV,
};
use crate::ql::parser::expression::literal::{Literal, LiteralV};
use crate::ql::tokenizer::token::{clone_token_type, Keyword, Operator, TokenType, TokenTypeV};
use crate::ql::tokenizer::tokenizer::{
    is_whitespace, lemma_block_comment_end, lemma_line_comment_end, lemma_token_text_agrees,
    block_comment_end, line_comment_end, next_token, spells,
};

verus! {

#[derive(Debug, PartialEq, Eq, Clone, Copy, Structural)]
pub enum BinaryOp {
    Eq,
    NotEq,
    Lt,
    LtEq,
    Gt,
    GtEq,
    And,
    Or,
    Plus,
    Minus,
    Mul,
    Div,
    Mod,
    Pow,
}

impl DeepView for BinaryOp {
    type V = BinaryOp;

    open spec fn deep_view(&self) -> BinaryOp {
        *self
    }
}

/// The binary operator that a token stands for.
pub open spec fn binary_op_of(t: TokenTypeV) -> Result<BinaryOp, TokenToOperatorErrorV> {
    match t {
        TokenTypeV::Operator(Operator::Equals) => Ok(BinaryOp::Eq),
        TokenTypeV::Operator(Operator::NotEq) => Ok(BinaryOp::NotEq),
        TokenTypeV::Operator(Operator::Lt) => Ok(BinaryOp::Lt),
        TokenTypeV::Operator(Operator::Lte) => Ok(BinaryOp::LtEq),
        TokenTypeV::Operator(Operator::Gt) => Ok(BinaryOp::Gt),
        TokenTypeV::Operator(Operator::Gte) => Ok(BinaryOp::GtEq),
        TokenTypeV::Operator(Operator::Plus) => Ok(BinaryOp::Plus),
        TokenTypeV::Operator(Operator::Minus) => Ok(BinaryOp::Minus),
        TokenTypeV::Operator(Operator::Star) => Ok(BinaryOp::Mul),
        TokenTypeV::Operator(Operator::Divide) => Ok(BinaryOp::Div),
        TokenTypeV::Operator(Operator::Modulus) => Ok(BinaryOp::Mod),
        TokenTypeV::Operator(Operator::Pow) => Ok(BinaryOp::Pow),
        TokenTypeV::Keyword(Keyword::And) => Ok(BinaryOp::And),
        TokenTypeV::Keyword(Keyword::Or) => Ok(BinaryOp::Or),
        other => Err(TokenToOperatorErrorV::InvalidOperator(other)),
    }
}

/// Whether a literal is a fractional number.
pub open spec fn is_fractional(l: LiteralV) -> bool {
    l is Float || l is BigFloat
}

/// The value of an integer literal.
pub open spec fn int_value(l: LiteralV) -> Option<int> {
    match l {
        LiteralV::Int(n) => Some(n as int),
        LiteralV::BigInt(n) => Some(n as int),
        _ => None,
    }
}

/// Whether `op` is applied by [`BinaryOp::apply_exact`]: the comparisons, the
/// logical operators, addition and subtraction.
pub open spec fn is_exact_op(op: BinaryOp) -> bool {
    !(op is Mul || op is Div || op is Mod || op is Pow)
}

/// The sum (or, when `minus`, the difference) of two integer literals: an
/// `Int` when both are `Int`, a `BigInt` otherwise; `None` when either is no integer.
pub open spec fn int_sum(l: LiteralV, r: LiteralV, minus: bool) -> Option<(int, bool)> {
    match (int_value(l), int_value(r)) {
        (Some(a), Some(b)) => Some(
            (if minus {
                a - b
            } else {
                a + b
            }, l is Int && r is Int),
        ),
        _ => None,
    }
}

/// Whether the sum or difference of two integer literals fits the type it is computed in.
pub open spec fn int_sum_fits(l: LiteralV, r: LiteralV, minus: bool) -> bool {
    match int_sum(l, r, minus) {
        Some((v, small)) => if small {
            i32::MIN <= v <= i32::MAX
        } else {
            i64::MIN <= v <= i64::MAX
        },
        None => true,
    }
}

/// How two integer literals compare; `None` when either is no integer, for
/// only numbers are ordered.
pub open spec fn int_order(l: LiteralV, r: LiteralV) -> Option<(int, int)> {
    match (int_value(l), int_value(r)) {
        (Some(a), Some(b)) => Some((a, b)),
        _ => None,
    }
}

/// What applying `op` to `l` and `r` gives, neither being a fractional number.
pub open spec fn applied(op: BinaryOp, l: LiteralV, r: LiteralV) -> Result<
    LiteralV,
    BinaryOperatorApplyErrorV,
> {
    let incompatible = Err(BinaryOperatorApplyErrorV::IncompatibleLiterals(l, r, op));
    match op {
        BinaryOp::Eq => Ok(LiteralV::Bool(l == r)),
        BinaryOp::NotEq => Ok(LiteralV::Bool(l != r)),
        BinaryOp::Lt => Ok(LiteralV::Bool(int_order(l, r) matches Some((a, b)) && a < b)),
        BinaryOp::LtEq => Ok(LiteralV::Bool(int_order(l, r) matches Some((a, b)) && a <= b)),
        BinaryOp::Gt => Ok(LiteralV::Bool(int_order(l, r) matches Some((a, b)) && a > b)),
        BinaryOp::GtEq => Ok(LiteralV::Bool(int_order(l, r) matches Some((a, b)) && a >= b)),
        BinaryOp::And => match (l, r) {
            (LiteralV::Bool(a), LiteralV::Bool(b)) => Ok(LiteralV::Bool(a && b)),
            _ => incompatible,
        },
        BinaryOp::Or => match (l, r) {
            (LiteralV::Bool(a), LiteralV::Bool(b)) => Ok(LiteralV::Bool(a || b)),
            _ => incompatible,
        },
        BinaryOp::Plus | BinaryOp::Minus => match int_sum(l, r, op is Minus) {
            Some((v, small)) => if small {
                Ok(LiteralV::Int(v as i32))
            } else {
                Ok(LiteralV::BigInt(v as i64))
            },
            None => incompatible,
        },
        _ => incompatible,
    }
}

/// Adding or subtracting integers gives the type of the larger operand: an
/// `Int` from two `Int`s, a `BigInt` when either operand is a `BigInt`.
pub proof fn lemma_integer_sum_type(op: BinaryOp, l: LiteralV, r: LiteralV)
    requires
        op is Plus || op is Minus,
        int_value(l) is Some,
        int_value(r) is Some,
    ensures
        applied(op, l, r) is Ok,
        applied(op, l, r)->Ok_0 is Int <==> (l is Int && r is Int),
        applied(op, l, r)->Ok_0 is BigInt <==> (l is BigInt || r is BigInt),
{
}

/// `AND` and `OR` take two booleans and fail on anything else; `+` and `-`
/// fail exactly when an operand is a boolean, a string or `NULL`.
pub proof fn lemma_operator_errors(op: BinaryOp, l: LiteralV, r: LiteralV)
    requires
        !is_fractional(l),
        !is_fractional(r),
    ensures
        op is And ==> applied(op, l, r) == (match (l, r) {
            (LiteralV::Bool(a), LiteralV::Bool(b)) => Ok::<_, BinaryOperatorApplyErrorV>(
                LiteralV::Bool(a && b),
            ),
            _ => Err(BinaryOperatorApplyErrorV::IncompatibleLiterals(l, r, op)),
        }),
        op is Or ==> applied(op, l, r) == (match (l, r) {
            (LiteralV::Bool(a), LiteralV::Bool(b)) => Ok::<_, BinaryOperatorApplyErrorV>(
                LiteralV::Bool(a || b),
            ),
            _ => Err(BinaryOperatorApplyErrorV::IncompatibleLiterals(l, r, op)),
        }),
        (op is Plus || op is Minus) ==> ((applied(op, l, r) is Err) <==> (l is Bool || l is String
            || l is Null || r is Bool || r is String || r is Null)),
        (op is Plus || op is Minus) && applied(op, l, r) is Err ==> applied(op, l, r) == Err::<
            LiteralV,
            _,
        >(BinaryOperatorApplyErrorV::IncompatibleLiterals(l, r, op)),
{
}

/// Whether `v` is a way of writing the operator `op` in a query: the usual
/// symbols, with `<>` and `!=` both for "not equal", and the words `AND` and
/// `OR` in any case.
pub open spec fn written_as(op: BinaryOp, v: Seq<char>) -> bool {
    match op {
        BinaryOp::Eq => v == seq!['='],
        BinaryOp::NotEq => v == seq!['<', '>'] || v == seq!['!', '='],
        BinaryOp::Lt => v == seq!['<'],
        BinaryOp::LtEq => v == seq!['<', '='],
        BinaryOp::Gt => v == seq!['>'],
        BinaryOp::GtEq => v == seq!['>', '='],
        BinaryOp::Plus => v == seq!['+'],
        BinaryOp::Minus => v == seq!['-'],
        BinaryOp::Mul => v == seq!['*'],
        BinaryOp::Div => v == seq!['/'],
        BinaryOp::Mod => v == seq!['%'],
        BinaryOp::Pow => v == seq!['^'],
        BinaryOp::And => spells(Keyword::And, v),
        BinaryOp::Or => spells(Keyword::Or, v),
    }
}

/// Every token read from a query that stands for a binary operator stands
/// for the operator its text writes: `/` divides, `%` takes the remainder,
/// `<>` and `!=` compare for inequality, and so on.
pub proof fn lemma_operator_tokens_mean_what_they_write(s: Seq<char>, i: int)
    requires
        0 <= i <= s.len(),
    ensures
        next_token(s, i).0 matches Some(t) ==> (binary_op_of(t.token_type) matches Ok(op)
            ==> written_as(op, t.value)),
    decreases s.len() - i,
{
    lemma_token_text_agrees(s, i);
    if 0 <= i < s.len() {
        let c = s[i];
        if is_whitespace(c) {
            lemma_operator_tokens_mean_what_they_write(s, i + 1);
        } else if c == '-' && i + 1 < s.len() && s[i + 1] == '-' {
            lemma_line_comment_end(s, i + 2);
            lemma_operator_tokens_mean_what_they_write(s, line_comment_end(s, i + 2));
        } else if c == '/' && i + 1 < s.len() && s[i + 1] == '*' {
            lemma_block_comment_end(s, i + 2);
            lemma_operator_tokens_mean_what_they_write(s, block_comment_end(s, i + 2));
        }
    }
}

/// Distinct tokens stand for distinct operators: no two tokens are read as
/// the same operator.
pub proof fn lemma_operator_of_token_is_injective(a: TokenTypeV, b: TokenTypeV)
    requires
        binary_op_of(a) is Ok,
        binary_op_of(a) == binary_op_of(b),
    ensures
        a == b,
{
}

/// The comparison tokens compare integers as their symbols say, and `=` and
/// `<>` (or `!=`) test literals for being equal and different.
pub proof fn lemma_comparison_tokens_compare(a: i32, b: i32, l: LiteralV, r: LiteralV)
    ensures
        binary_op_of(TokenTypeV::Operator(Operator::Lt)) matches Ok(op) && applied(
            op,
            LiteralV::Int(a),
            LiteralV::Int(b),
        ) == Ok::<_, BinaryOperatorApplyErrorV>(LiteralV::Bool(a < b)),
        binary_op_of(TokenTypeV::Operator(Operator::Lte)) matches Ok(op) && applied(
            op,
            LiteralV::Int(a),
            LiteralV::Int(b),
        ) == Ok::<_, BinaryOperatorApplyErrorV>(LiteralV::Bool(a <= b)),
        binary_op_of(TokenTypeV::Operator(Operator::Gt)) matches Ok(op) && applied(
            op,
            LiteralV::Int(a),
            LiteralV::Int(b),
        ) == Ok::<_, BinaryOperatorApplyErrorV>(LiteralV::Bool(a > b)),
        binary_op_of(TokenTypeV::Operator(Operator::Gte)) matches Ok(op) && applied(
            op,
            LiteralV::Int(a),
            LiteralV::Int(b),
        ) == Ok::<_, BinaryOperatorApplyErrorV>(LiteralV::Bool(a >= b)),
        binary_op_of(TokenTypeV::Operator(Operator::Equals)) matches Ok(op) && applied(op, l, r)
            == Ok::<_, BinaryOperatorApplyErrorV>(LiteralV::Bool(l == r)),
        binary_op_of(TokenTypeV::Operator(Operator::NotEq)) matches Ok(op) && applied(op, l, r)
            == Ok::<_, BinaryOperatorApplyErrorV>(LiteralV::Bool(l != r)),
{
}

/// The order comparisons on integer literals of values `a` and `b`, `Int`
/// and `BigInt` alike, are the order of the numbers: `>` is false on equal
/// values, `l > r` is `r < l` and the negation of `l <= r`, and `l >= r` is
/// `r <= l` and the negation of `l < r`.
pub proof fn lemma_integer_order(l: LiteralV, r: LiteralV, a: int, b: int)
    requires
        int_value(l) == Some(a),
        int_value(r) == Some(b),
    ensures
        applied(BinaryOp::Lt, l, r) == Ok::<_, BinaryOperatorApplyErrorV>(LiteralV::Bool(a < b)),
        applied(BinaryOp::LtEq, l, r) == Ok::<_, BinaryOperatorApplyErrorV>(LiteralV::Bool(a <= b)),
        applied(BinaryOp::Gt, l, r) == Ok::<_, BinaryOperatorApplyErrorV>(LiteralV::Bool(a > b)),
        applied(BinaryOp::GtEq, l, r) == Ok::<_, BinaryOperatorApplyErrorV>(LiteralV::Bool(a >= b)),
        applied(BinaryOp::Gt, l, l) == Ok::<_, BinaryOperatorApplyErrorV>(LiteralV::Bool(false)),
        applied(BinaryOp::Lt, l, l) == Ok::<_, BinaryOperatorApplyErrorV>(LiteralV::Bool(false)),
        applied(BinaryOp::Gt, l, r) == applied(BinaryOp::Lt, r, l),
        applied(BinaryOp::GtEq, l, r) == applied(BinaryOp::LtEq, r, l),
        applied(BinaryOp::Gt, l, r) == Ok::<_, BinaryOperatorApplyErrorV>(
            LiteralV::Bool(!(applied(BinaryOp::LtEq, l, r)->Ok_0->Bool_0)),
        ),
        applied(BinaryOp::GtEq, l, r) == Ok::<_, BinaryOperatorApplyErrorV>(
            LiteralV::Bool(!(applied(BinaryOp::Lt, l, r)->Ok_0->Bool_0)),
        ),
{
}

/// `+` and `-` on integer literals of values `a` and `b` give `a + b` and
/// `a - b`, where the result fits the type it is computed in.
pub proof fn lemma_integer_sum_value(l: LiteralV, r: LiteralV, a: int, b: int)
    requires
        int_value(l) == Some(a),
        int_value(r) == Some(b),
    ensures
        int_sum_fits(l, r, false) ==> (applied(BinaryOp::Plus, l, r) matches Ok(v) && int_value(v)
            == Some(a + b)),
        int_sum_fits(l, r, true) ==> (applied(BinaryOp::Minus, l, r) matches Ok(v) && int_value(v)
            == Some(a - b)),
{
}

/// Whether two literals are equal, as the query language compares them: of
/// the same kind and with the same value.
fn literal_eq(l: &Literal, r: &Literal) -> (b: bool)
    ensures
        b == (l.deep_view() == r.deep_view()),
{
    match (l, r) {
        (Literal::Int(a), Literal::Int(b)) => *a == *b,
        (Literal::BigInt(a), Literal::BigInt(b)) => *a == *b,
        (Literal::Float(a), Literal::Float(b)) => *a == *b,
        (Literal::BigFloat(a), Literal::BigFloat(b)) => *a == *b,
        (Literal::Bool(a), Literal::Bool(b)) => *a == *b,
        (Literal::String(a), Literal::String(b)) => *a == *b,
        (Literal::Null, Literal::Null) => true,
        _ => false,
    }
}

/// The value of an integer literal, widened to an `i64`.
fn int_of(l: &Literal) -> (r: Option<i64>)
    ensures
        match r {
            Some(v) => int_value(l.deep_view()) == Some(v as int),
            None => int_value(l.deep_view()) is None,
        },
{
    match l {
        Literal::Int(n) => Some(*n as i64),
        Literal::BigInt(n) => Some(*n),
        _ => None,
    }
}

impl BinaryOp {
    /// Applies this operator to two literals that are no fractional numbers.
    ///
    /// Comparisons order integers by value (`Int` against `BigInt` too) and
    /// order nothing else, so they are false on other literals; `=` and `<>`
    /// compare kind and value. `AND` and `OR` take booleans. `+` and `-` give an
    /// `Int` from two `Int`s and a `BigInt` from any other two integers.
    pub fn apply_exact(&self, l: Literal, r: Literal) -> (res: Result<Literal, BinaryOperatorApplyError>)
        requires
            !is_fractional(l.deep_view()),
            !is_fractional(r.deep_view()),
            is_exact_op(*self),
            *self is Plus ==> int_sum_fits(l.deep_view(), r.deep_view(), false),
            *self is Minus ==> int_sum_fits(l.deep_view(), r.deep_view(), true),
        ensures
            match res {
                Ok(v) => applied(*self, l.deep_view(), r.deep_view()) == Ok::<
                    LiteralV,
                    BinaryOperatorApplyErrorV,
                >(v.deep_view()),
                Err(e) => applied(*self, l.deep_view(), r.deep_view()) == Err::<
                    LiteralV,
                    BinaryOperatorApplyErrorV,
                >(e.deep_view()),
            },
    {
        match self {
            BinaryOp::Eq => Ok(Literal::Bool(literal_eq(&l, &r))),
            BinaryOp::NotEq => Ok(Literal::Bool(!literal_eq(&l, &r))),
            BinaryOp::Lt | BinaryOp::LtEq | BinaryOp::Gt | BinaryOp::GtEq => {
                let b = match (int_of(&l), int_of(&r)) {
                    (Some(a), Some(b)) => match self {
                        BinaryOp::Lt => a < b,
                        BinaryOp::LtEq => a <= b,
                        BinaryOp::Gt => a > b,
                        _ => a >= b,
                    },
                    _ => false,
                };
                Ok(Literal::Bool(b))
            },
            BinaryOp::And => match (l, r) {
                (Literal::Bool(a), Literal::Bool(b)) => Ok(Literal::Bool(a && b)),
                (l, r) => Err(BinaryOperatorApplyError::IncompatibleLiterals(l, r, *self)),
            },
            BinaryOp::Or => match (l, r) {
                (Literal::Bool(a), Literal::Bool(b)) => Ok(Literal::Bool(a || b)),
                (l, r) => Err(BinaryOperatorApplyError::IncompatibleLiterals(l, r, *self)),
            },
            BinaryOp::Plus => match (l, r) {
                (Literal::Int(a), Literal::Int(b)) => Ok(Literal::Int(a + b)),
                (Literal::Int(a), Literal::BigInt(b)) => Ok(Literal::BigInt(a as i64 + b)),
                (Literal::BigInt(a), Literal::Int(b)) => Ok(Literal::BigInt(a + b as i64)),
                (Literal::BigInt(a), Literal::BigInt(b)) => Ok(Literal::BigInt(a + b)),
                (l, r) => Err(BinaryOperatorApplyError::IncompatibleLiterals(l, r, *self)),
            },
            _ => match (l, r) {
                (Literal::Int(a), Literal::Int(b)) => Ok(Literal::Int(a - b)),
                (Literal::Int(a), Literal::BigInt(b)) => Ok(Literal::BigInt(a as i64 - b)),
                (Literal::BigInt(a), Literal::Int(b)) => Ok(Literal::BigInt(a - b as i64)),
                (Literal::BigInt(a), Literal::BigInt(b)) => Ok(Literal::BigInt(a - b)),
                (l, r) => Err(BinaryOperatorApplyError::IncompatibleLiterals(l, r, *self)),
            },
        }
    }

    /// The binary operator that a token stands for.
    pub fn try_from(tok: &TokenType) -> (r: Result<BinaryOp, TokenToOperatorError>)
        ensures
            match r {
                Ok(op) => binary_op_of(tok@) == Ok::<BinaryOp, TokenToOperatorErrorV>(op),
                Err(e) => binary_op_of(tok@) == Err::<BinaryOp, TokenToOperatorErrorV>(e@),
            },
    {
        match tok {
            TokenType::Operator(Operator::Equals) => Ok(BinaryOp::Eq),
            TokenType::Operator(Operator::NotEq) => Ok(BinaryOp::NotEq),
            TokenType::Operator(Operator::Lt) => Ok(BinaryOp::Lt),
            TokenType::Operator(Operator::Lte) => Ok(BinaryOp::LtEq),
            TokenType::Operator(Operator::Gt) => Ok(BinaryOp::Gt),
            TokenType::Operator(Operator::Gte) => Ok(BinaryOp::GtEq),
            TokenType::Operator(Operator::Plus) => Ok(BinaryOp::Plus),
            TokenType::Operator(Operator::Minus) => Ok(BinaryOp::Minus),
            TokenType::Operator(Operator::Star) => Ok(BinaryOp::Mul),
            TokenType::Operator(Operator::Divide) => Ok(BinaryOp::Div),
            TokenType::Operator(Operator::Modulus) => Ok(BinaryOp::Mod),
            TokenType::Operator(Operator::Pow) => Ok(BinaryOp::Pow),
            TokenType::Keyword(Keyword::And) => Ok(BinaryOp::And),
            TokenType::Keyword(Keyword::Or) => Ok(BinaryOp::Or),
            other => Err(TokenToOperatorError::InvalidOperator(clone_token_type(other))),
        }
    }
}

} // verus!
