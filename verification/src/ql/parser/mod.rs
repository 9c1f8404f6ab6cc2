pub mod column_type;
pub mod error;
pub mod expression;
pub mod grammar;
pub mod statement;
pub mod statements;

use vstd::prelude::*;

use crate::ql::parser::column_type::ColumnType;
use crate::ql::parser::error::{QLParseError, QLParseErrorV};
use crate::ql::parser::expression::binary_op::BinaryOp;
use crate::ql::parser::expression::literal::{Literal, LiteralV};
use crate::ql::parser::expression::unary_op::UnaryOp;
use crate::ql::parser::expression::{Expr, ExprV};
use crate::ql::parser::grammar::{
    g_alter, g_assignments, g_column_decl, g_create, g_create_columns, g_delete, g_drop,
    g_end_of_query, g_expr, g_expr_rest, g_ident, g_ident_items, g_ident_list, g_insert, g_joins,
    g_keyword, g_listed_tables, g_literal, g_literal_bigfloat, g_literal_bool, g_literal_float, g_literal_i32,
    g_literal_i64, g_literal_items, g_literal_list, g_literal_null, g_literal_string, g_load,
    g_modifiers, g_one_of_keywords, g_one_of_tokens, g_operator, g_peek_is_keyword, g_prefix,
    g_rows, g_select, g_statement, g_statements, g_token, g_update, g_use, join_keywords, kind_at,
    modifier_keywords, no_modifiers, type_keywords, Step,
};
use crate::ql::parser::statement::{QLStatement, QLStatementV};
use crate::ql::parser::statements::alter_stmt::{
    AlterAction, AlterActionModifiers, AlterMode, AlterObject, AlterStatement,
};
use crate::ql::parser::statements::create_stmt::{ColumnModifiers, CreateStatement, CreateType};
use crate::ql::parser::statements::delete_stmt::DeleteStatement;
use crate::ql::parser::statements::drop_stmt::{DropStatement, DropType};
use crate::ql::parser::statements::insert_stmt::InsertStatement;
use crate::ql::parser::statements::load_stmt::LoadStatement;
use crate::ql::parser::statements::select_stmt::{JoinType, SelectStatement};
use crate::ql::parser::statements::update_stmt::UpdateStatement;
use crate::ql::parser::statements::use_stmt::UseStatement;
use crate::ql::tokenizer::token::{
    clone_token_type, get_prefix_bp, get_token_bp, Keyword, LiteralToken, Operator, Token,
    TokenType, TokenTypeV, TokenV,
};

verus! {

/// The outcome of a parsing method, in the form the grammar states it.
pub open spec fn step_of<T: DeepView>(r: Result<T, QLParseError>, p: int) -> Step<T::V> {
    (
        match r {
            Ok(x) => Ok(x.deep_view()),
            Err(e) => Err(e@),
        },
        p,
    )
}

/// Turns a list of tokens into statements.
#[derive(Debug)]
pub struct Parser<'a> {
    tokens: &'a Vec<Token>,
    /// The number of tokens consumed so far
    pos: usize,
}

impl<'a> Parser<'a> {
    #[verifier::type_invariant]
    spec fn inv(self) -> bool {
        self.pos <= self.tokens@.len()
    }

    /// The tokens being parsed.
    pub closed spec fn toks(self) -> Seq<TokenV> {
        self.tokens@.map_values(|t: Token| t@)
    }

    /// The number of tokens consumed so far.
    pub closed spec fn position(self) -> int {
        self.pos as int
    }

    pub fn new(tokens: &'a Vec<Token>) -> (p: Self)
        ensures
            p.toks() == tokens@.map_values(|t: Token| t@),
            p.position() == 0,
    {
        Parser { tokens, pos: 0 }
    }

    /// Consumes this parser and parses its tokens into a list of statements.
    #[verifier::loop_isolation(false)]
    pub fn parse(self) -> (r: Result<Vec<QLStatement>, QLParseError>)
        ensures
            match r {
                Ok(qs) => g_statements(self.toks(), self.position()) == Ok::<
                    Seq<QLStatementV>,
                    QLParseErrorV,
                >(qs.deep_view()),
                Err(e) => g_statements(self.toks(), self.position()) == Err::<
                    Seq<QLStatementV>,
                    QLParseErrorV,
                >(e@),
            },
    {
        let ghost t = self.toks();
        let ghost p0 = self.position();
        let mut parser = self;
        let mut queries: Vec<QLStatement> = Vec::new();
        loop
            invariant
                parser.toks() == t,
                p0 <= parser.position(),
                g_statements(t, p0) == match g_statements(t, parser.position()) {
                    Ok(rest) => Ok(queries.deep_view() + rest),
                    Err(e) => Err::<Seq<QLStatementV>, QLParseErrorV>(e),
                },
            decreases t.len() - parser.position(),
        {
            proof {
                use_type_invariant(&parser);
            }
            if parser.peek().is_none() {
                break;
            }
            let ghost before = queries.deep_view();
            let q: QLStatement = parser.parse_single_query()?;
            let ghost qv = q.deep_view();
            queries.push(q);
            proof {
                use_type_invariant(&parser);
                assert(queries.deep_view() =~= before.push(qv));
                match g_statements(t, parser.position()) {
                    Ok(rest) => {
                        assert(before + (seq![qv] + rest) =~= queries.deep_view() + rest);
                    },
                    Err(_) => {},
                }
            }
        }
        proof {
            assert(queries.deep_view() + Seq::<QLStatementV>::empty() =~= queries.deep_view());
        }
        Ok(queries)
    }

    /// Parses one statement, chosen by the keyword that starts it.
    fn parse_single_query(&mut self) -> (r: Result<QLStatement, QLParseError>)
        ensures
            final(self).toks() == old(self).toks(),
            old(self).position() <= final(self).position(),
            step_of(r, final(self).position()) == g_statement(
                old(self).toks(),
                old(self).position(),
            ),
            old(self).position() < old(self).toks().len() ==> old(self).position()
                < final(self).position(),
    {
        proof {
            reveal(g_statement);
        }
        match self.advance() {
            Some(tok) => match &tok.token_type {
                TokenType::Keyword(keyword) => match keyword {
                    Keyword::Create => self.parse_create(),
                    Keyword::Select => self.parse_select(),
                    Keyword::Insert => self.parse_insert(),
                    Keyword::Update => self.parse_update(),
                    Keyword::Delete => self.parse_delete(),
                    Keyword::Alter => self.parse_alter(),
                    Keyword::Drop => self.parse_drop(),
                    Keyword::Use => self.parse_use(),
                    Keyword::Load => self.parse_load(),
                    _ => Err(QLParseError::IllegalToken(clone_token_type(&tok.token_type), self.pos)),
                },
                TokenType::Unknown(_) => Err(
                    QLParseError::UnknownToken(clone_token_type(&tok.token_type), self.pos),
                ),
                token_type => Err(QLParseError::IllegalToken(clone_token_type(token_type), self.pos)),
            },
            None => Err(QLParseError::EOF),
        }
    }

    /// The next token, which is not consumed.
    fn peek(&self) -> (r: Option<&'a Token>)
        ensures
            match r {
                Some(tok) => {
                    &&& self.position() < self.toks().len()
                    &&& tok@ == self.toks()[self.position()]
                    &&& kind_at(self.toks(), self.position()) == Some(tok@.token_type)
                },
                None => kind_at(self.toks(), self.position()) is None,
            },
            0 <= self.position() <= self.toks().len(),
    {
        proof {
            use_type_invariant(self);
        }
        let toks: &'a Vec<Token> = self.tokens;
        if self.pos < toks.len() {
            Some(&toks[self.pos])
        } else {
            None
        }
    }

    /// Consumes the next token in the stream and returns it while incrementing
    /// the position counter
    fn advance(&mut self) -> (r: Option<&'a Token>)
        ensures
            final(self).toks() == old(self).toks(),
            match r {
                Some(tok) => {
                    &&& old(self).position() < old(self).toks().len()
                    &&& tok@ == old(self).toks()[old(self).position()]
                    &&& kind_at(old(self).toks(), old(self).position()) == Some(tok@.token_type)
                    &&& final(self).position() == old(self).position() + 1
                },
                None => {
                    &&& kind_at(old(self).toks(), old(self).position()) is None
                    &&& final(self).position() == old(self).position()
                },
            },
            0 <= old(self).position() <= final(self).position() <= final(self).toks().len(),
    {
        proof {
            use_type_invariant(&*self);
        }
        let toks: &'a Vec<Token> = self.tokens;
        if self.pos < toks.len() {
            let t = &toks[self.pos];
            self.pos = self.pos + 1;
            Some(t)
        } else {
            None
        }
    }

    fn expect_token(&mut self, expected: TokenType) -> (r: Result<TokenType, QLParseError>)
        ensures
            final(self).toks() == old(self).toks(),
            old(self).position() <= final(self).position(),
            step_of(r, final(self).position()) == g_token(
                old(self).toks(),
                old(self).position(),
                expected@,
            ),
    {
        match self.peek() {
            Some(tok) => {
                if tok.token_type == expected {
                    self.advance();
                    return Ok(expected);
                }
            },
            None => {},
        }
        Err(QLParseError::ExpectedToken(expected, self.pos))
    }

    fn expect_operator(&mut self, expected: Operator) -> (r: Result<Operator, QLParseError>)
        ensures
            final(self).toks() == old(self).toks(),
            old(self).position() <= final(self).position(),
            step_of(r, final(self).position()) == g_operator(
                old(self).toks(),
                old(self).position(),
                expected,
            ),
    {
        match self.peek() {
            Some(tok) => match &tok.token_type {
                TokenType::Operator(op) => {
                    if *op == expected {
                        self.advance();
                        return Ok(expected);
                    }
                },
                _ => {},
            },
            None => {},
        }
        Err(QLParseError::ExpectedOperator(expected, self.pos))
    }

    /// Expects that the next token is an identifier (either an identifier or a quoted identifier)
    fn expect_ident(&mut self) -> (r: Result<String, QLParseError>)
        ensures
            final(self).toks() == old(self).toks(),
            old(self).position() <= final(self).position(),
            step_of(r, final(self).position()) == g_ident(old(self).toks(), old(self).position()),
    {
        match self.peek() {
            Some(tok) => match &tok.token_type {
                TokenType::Identifier(ident) => {
                    let name = ident.clone();
                    self.advance();
                    return Ok(name);
                },
                TokenType::QuotedIdentifier(ident) => {
                    let name = ident.clone();
                    self.advance();
                    return Ok(name);
                },
                _ => {},
            },
            None => {},
        }
        Err(QLParseError::ExpectedIdent(self.pos))
    }

    fn expect_keyword(&mut self, expected_kw: Keyword) -> (r: Result<(), QLParseError>)
        ensures
            final(self).toks() == old(self).toks(),
            old(self).position() <= final(self).position(),
            step_of(r, final(self).position()) == g_keyword(
                old(self).toks(),
                old(self).position(),
                expected_kw,
            ),
    {
        match self.peek() {
            Some(tok) => match &tok.token_type {
                TokenType::Keyword(keyword) => {
                    if *keyword == expected_kw {
                        self.advance();
                        return Ok(());
                    }
                },
                _ => {},
            },
            None => {},
        }
        Err(QLParseError::ExpectedKeyword(expected_kw, self.pos))
    }

    fn expect_end_of_query(&mut self) -> (r: Result<(), QLParseError>)
        ensures
            final(self).toks() == old(self).toks(),
            old(self).position() <= final(self).position(),
            step_of(r, final(self).position()) == g_end_of_query(
                old(self).toks(),
                old(self).position(),
            ),
    {
        match self.peek() {
            Some(tok) => match &tok.token_type {
                TokenType::SemiColon => {
                    self.advance();
                    Ok(())
                },
                _ => Err(QLParseError::ExpectedEndOfQuery(self.pos)),
            },
            None => Ok(()),
        }
    }

    fn expect_one_of_keywords(&mut self, kws: &[Keyword]) -> (r: Result<Keyword, QLParseError>)
        ensures
            final(self).toks() == old(self).toks(),
            old(self).position() <= final(self).position(),
            step_of(r, final(self).position()) == g_one_of_keywords(
                old(self).toks(),
                old(self).position(),
                kws@,
            ),
    {
        match self.peek() {
            Some(tok) => match &tok.token_type {
                TokenType::Keyword(keyword) => {
                    if keywords_contain(kws, *keyword) {
                        let kw = *keyword;
                        self.advance();
                        return Ok(kw);
                    }
                },
                _ => {},
            },
            None => {},
        }
        Err(QLParseError::ExpectedOneOfKeywords(keywords_to_vec(kws), self.pos))
    }

    fn expect_one_of_tokens(&mut self, expected: &[TokenType]) -> (r: Result<
        TokenType,
        QLParseError,
    >)
        ensures
            final(self).toks() == old(self).toks(),
            old(self).position() <= final(self).position(),
            step_of(r, final(self).position()) == g_one_of_tokens(
                old(self).toks(),
                old(self).position(),
                expected@.map_values(|t: TokenType| t@),
            ),
    {
        match self.peek() {
            Some(tok) => {
                if token_types_contain(expected, &tok.token_type) {
                    let tt = clone_token_type(&tok.token_type);
                    self.advance();
                    return Ok(tt);
                }
            },
            None => {},
        }
        Err(QLParseError::ExpectedOneOfTokens(token_types_to_vec(expected), self.pos))
    }

    /// Non-consuming check: is the next token a keyword in `kws`?
    fn peek_is_keyword(&self, kws: &[Keyword]) -> (r: bool)
        ensures
            r == g_peek_is_keyword(self.toks(), self.position(), kws@),
    {
        match self.peek() {
            Some(tok) => match &tok.token_type {
                TokenType::Keyword(k) => keywords_contain(kws, *k),
                _ => false,
            },
            None => false,
        }
    }
    fn expect_literal_null(&mut self) -> (r: Result<(), QLParseError>)
        ensures
            final(self).toks() == old(self).toks(),
            old(self).position() <= final(self).position(),
            step_of(r, final(self).position()) == g_literal_null(
                old(self).toks(),
                old(self).position(),
            ),
    {
        match self.peek() {
            Some(tok) => match &tok.token_type {
                TokenType::Keyword(Keyword::Null) => {
                    self.advance();
                    return Ok(());
                },
                _ => {},
            },
            None => {},
        }
        Err(QLParseError::ExpectedLiteralNull(self.pos))
    }

    fn expect_literal_bool(&mut self) -> (r: Result<bool, QLParseError>)
        ensures
            final(self).toks() == old(self).toks(),
            old(self).position() <= final(self).position(),
            step_of(r, final(self).position()) == g_literal_bool(
                old(self).toks(),
                old(self).position(),
            ),
    {
        match self.peek() {
            Some(tok) => match &tok.token_type {
                TokenType::Keyword(Keyword::True) => {
                    self.advance();
                    return Ok(true);
                },
                TokenType::Keyword(Keyword::False) => {
                    self.advance();
                    return Ok(false);
                },
                _ => {},
            },
            None => {},
        }
        Err(QLParseError::ExpectedLiteralBool(self.pos))
    }

    /// A `BigFloat` literal, as its decimal text.
    fn expect_literal_f64(&mut self) -> (r: Result<String, QLParseError>)
        ensures
            final(self).toks() == old(self).toks(),
            old(self).position() <= final(self).position(),
            step_of(r, final(self).position()) == g_literal_bigfloat(
                old(self).toks(),
                old(self).position(),
            ),
    {
        match self.peek() {
            Some(tok) => match &tok.token_type {
                TokenType::Literal(LiteralToken::BigFloat(n)) => {
                    let text = n.clone();
                    self.advance();
                    return Ok(text);
                },
                _ => {},
            },
            None => {},
        }
        Err(QLParseError::ExpectedLiteralBigFloat(self.pos))
    }

    /// A `Float` literal, as its decimal text.
    fn expect_literal_f32(&mut self) -> (r: Result<String, QLParseError>)
        ensures
            final(self).toks() == old(self).toks(),
            old(self).position() <= final(self).position(),
            step_of(r, final(self).position()) == g_literal_float(
                old(self).toks(),
                old(self).position(),
            ),
    {
        match self.peek() {
            Some(tok) => match &tok.token_type {
                TokenType::Literal(LiteralToken::Float(n)) => {
                    let text = n.clone();
                    self.advance();
                    return Ok(text);
                },
                _ => {},
            },
            None => {},
        }
        Err(QLParseError::ExpectedLiteralFloat(self.pos))
    }

    fn expect_literal_i64(&mut self) -> (r: Result<i64, QLParseError>)
        ensures
            final(self).toks() == old(self).toks(),
            old(self).position() <= final(self).position(),
            step_of(r, final(self).position()) == g_literal_i64(
                old(self).toks(),
                old(self).position(),
            ),
    {
        match self.peek() {
            Some(tok) => match &tok.token_type {
                TokenType::Literal(LiteralToken::BigInt(n)) => {
                    let v = *n;
                    self.advance();
                    return Ok(v);
                },
                _ => {},
            },
            None => {},
        }
        Err(QLParseError::ExpectedLiteralBigInt(self.pos))
    }

    fn expect_literal_i32(&mut self) -> (r: Result<i32, QLParseError>)
        ensures
            final(self).toks() == old(self).toks(),
            old(self).position() <= final(self).position(),
            step_of(r, final(self).position()) == g_literal_i32(
                old(self).toks(),
                old(self).position(),
            ),
    {
        match self.peek() {
            Some(tok) => match &tok.token_type {
                TokenType::Literal(LiteralToken::Int(n)) => {
                    let v = *n;
                    self.advance();
                    return Ok(v);
                },
                _ => {},
            },
            None => {},
        }
        Err(QLParseError::ExpectedLiteralInt(self.pos))
    }

    fn expect_literal_string(&mut self) -> (r: Result<String, QLParseError>)
        ensures
            final(self).toks() == old(self).toks(),
            old(self).position() <= final(self).position(),
            step_of(r, final(self).position()) == g_literal_string(
                old(self).toks(),
                old(self).position(),
            ),
    {
        match self.peek() {
            Some(tok) => match &tok.token_type {
                TokenType::Literal(LiteralToken::String(s)) => {
                    let text = s.clone();
                    self.advance();
                    return Ok(text);
                },
                _ => {},
            },
            None => {},
        }
        Err(QLParseError::ExpectedLiteralString(self.pos))
    }

    fn expect_literal(&mut self) -> (r: Result<Literal, QLParseError>)
        ensures
            final(self).toks() == old(self).toks(),
            old(self).position() <= final(self).position(),
            step_of(r, final(self).position()) == g_literal(old(self).toks(), old(self).position()),
    {
        if let Ok(b) = self.expect_literal_bool() {
            Ok(Literal::from(b))
        } else if let Ok(s) = self.expect_literal_string() {
            Ok(Literal::from(s))
        } else if let Ok(n) = self.expect_literal_i32() {
            Ok(Literal::from(n))
        } else if let Ok(n) = self.expect_literal_i64() {
            Ok(Literal::from(n))
        } else if let Ok(n) = self.expect_literal_f32() {
            Ok(Literal::Float(n))
        } else if let Ok(n) = self.expect_literal_f64() {
            Ok(Literal::BigFloat(n))
        } else if let Ok(_) = self.expect_literal_null() {
            Ok(Literal::Null)
        } else {
            Err(QLParseError::ExpectedLiteral(self.pos))
        }
    }

    /// Parses `CREATE TABLE`, `CREATE DATABASE` or `CREATE INDEX` after the
    /// `CREATE` keyword.
    #[verifier::loop_isolation(false)]
    fn parse_create(&mut self) -> (r: Result<QLStatement, QLParseError>)
        ensures
            final(self).toks() == old(self).toks(),
            old(self).position() <= final(self).position(),
            step_of(r, final(self).position()) == g_create(old(self).toks(), old(self).position()),
    {
        let ghost t = self.toks();
        let kinds: [Keyword; 3] = [Keyword::Table, Keyword::Index, Keyword::Database];
        assert(kinds@ =~= seq![Keyword::Table, Keyword::Index, Keyword::Database]);
        match self.expect_one_of_keywords(&kinds)? {
            Keyword::Table => {
                let tbl_name: String = self.expect_ident()?;
                self.expect_token(TokenType::LParen)?;
                let ghost q3 = self.position();
                let seps: [TokenType; 2] = [TokenType::Comma, TokenType::RParen];
                assert(seps@.map_values(|x: TokenType| x@) =~= seq![
                    TokenTypeV::Comma,
                    TokenTypeV::RParen,
                ]);
                let mut columns: Vec<(String, ColumnType, ColumnModifiers)> = Vec::new();
                assert(columns.deep_view() =~= Seq::empty());
                loop
                    invariant
                        self.toks() == t,
                        q3 <= self.position(),
                        g_create_columns(t, self.position(), columns.deep_view()) == g_create_columns(
                            t,
                            q3,
                            Seq::empty(),
                        ),
                    decreases t.len() - self.position(),
                {
                    proof {
                        use_type_invariant(&*self);
                    }
                    let ghost before = columns.deep_view();
                    let col = self.expect_column_decl()?;
                    let ghost cv = col.deep_view();
                    columns.push(col);
                    assert(columns.deep_view() =~= before.push(cv));
                    // After a column: a comma (more columns follow) or a closing parenthesis (done).
                    match self.expect_one_of_tokens(&seps)? {
                        TokenType::RParen => break,
                        _ => {},
                    }
                    proof {
                        use_type_invariant(&*self);
                    }
                }
                self.expect_end_of_query()?;
                Ok(
                    QLStatement::Create(
                        CreateStatement { create_type: CreateType::Table(columns), name: tbl_name },
                    ),
                )
            },
            Keyword::Database => {
                let db_name: String = self.expect_ident()?;
                self.expect_end_of_query()?;
                Ok(
                    QLStatement::Create(
                        CreateStatement { create_type: CreateType::Database, name: db_name },
                    ),
                )
            },
            _ => {
                let idx_name: String = self.expect_ident()?;
                self.expect_keyword(Keyword::On)?;
                let tbl_and_col: String = self.expect_ident()?;
                self.expect_end_of_query()?;
                Ok(
                    QLStatement::Create(
                        CreateStatement { create_type: CreateType::Index(tbl_and_col), name: idx_name },
                    ),
                )
            },
        }
    }

    /// Reads a column declaration: a name, a type and modifiers.
    #[verifier::loop_isolation(false)]
    fn expect_column_decl(&mut self) -> (r: Result<(String, ColumnType, ColumnModifiers), QLParseError>)
        ensures
            final(self).toks() == old(self).toks(),
            old(self).position() <= final(self).position(),
            step_of(r, final(self).position()) == g_column_decl(
                old(self).toks(),
                old(self).position(),
            ),
    {
        let ghost t = self.toks();
        let col_name = self.expect_ident()?;
        let types: [Keyword; 6] = [
            Keyword::Int,
            Keyword::BigInt,
            Keyword::Float,
            Keyword::BigFloat,
            Keyword::String,
            Keyword::Bool,
        ];
        assert(types@ =~= type_keywords());
        let k = self.expect_one_of_keywords(&types)?;
        let col_type = ColumnType::try_from(k).unwrap();
        let mut col_mods = ColumnModifiers { nullable: false, unique: false, indexed: None };
        let ghost q2 = self.position();
        let mods: [Keyword; 3] = [Keyword::Nullable, Keyword::Indexed, Keyword::Unique];
        assert(mods@ =~= modifier_keywords());
        // Peek before consuming, so a token that is no modifier is left in place.
        while self.peek_is_keyword(&mods)
            invariant
                self.toks() == t,
                t == old(self).toks(),
                old(self).position() <= q2 <= self.position(),
                mods@ == modifier_keywords(),
                g_modifiers(t, self.position(), col_mods.deep_view()) == g_modifiers(
                    t,
                    q2,
                    no_modifiers(),
                ),
            decreases t.len() - self.position(),
        {
            proof {
                use_type_invariant(&*self);
            }
            let tok = self.expect_one_of_keywords(&mods)?;
            match tok {
                Keyword::Nullable => col_mods.nullable = true,
                Keyword::Unique => col_mods.unique = true,
                _ => {
                    let name = self.expect_ident()?;
                    col_mods.indexed = Some(name);
                },
            }
            proof {
                use_type_invariant(&*self);
            }
        }
        Ok((col_name, col_type, col_mods))
    }

    /// Parses a `SELECT` statement after the `SELECT` keyword.
    fn parse_select(&mut self) -> (r: Result<QLStatement, QLParseError>)
        ensures
            final(self).toks() == old(self).toks(),
            old(self).position() <= final(self).position(),
            step_of(r, final(self).position()) == g_select(old(self).toks(), old(self).position()),
    {
        let filter_cols: Option<Vec<String>> = if self.expect_operator(Operator::Star).is_ok() {
            None
        } else {
            Some(self.ident_items())
        };
        self.expect_keyword(Keyword::From)?;
        let primary_table: String = self.expect_ident()?;
        let listed = self.parse_listed_tables()?;
        let joins = self.parse_joins(listed)?;
        let where_clause: Option<Expr> = if self.expect_keyword(Keyword::Where).is_ok() {
            Some(self.parse_expr(0)?)
        } else {
            None
        };
        self.expect_end_of_query()?;
        Ok(QLStatement::Select(SelectStatement { filter_cols, primary_table, where_clause, joins }))
    }

    /// Reads the tables that follow the primary table in a comma separated
    /// list, as many as there are; each is cross joined.
    #[verifier::loop_isolation(false)]
    fn parse_listed_tables(&mut self) -> (r: Result<Vec<(String, JoinType)>, QLParseError>)
        ensures
            final(self).toks() == old(self).toks(),
            old(self).position() <= final(self).position(),
            step_of(r, final(self).position()) == g_listed_tables(
                old(self).toks(),
                old(self).position(),
                Seq::empty(),
            ),
    {
        let ghost t = self.toks();
        let ghost q0 = self.position();
        let mut tables: Vec<(String, JoinType)> = Vec::new();
        assert(tables.deep_view() =~= Seq::empty());
        loop
            invariant
                self.toks() == t,
                q0 <= self.position(),
                g_listed_tables(t, self.position(), tables.deep_view()) == g_listed_tables(
                    t,
                    q0,
                    Seq::empty(),
                ),
            decreases t.len() - self.position(),
        {
            proof {
                use_type_invariant(&*self);
            }
            if self.expect_token(TokenType::Comma).is_err() {
                break;
            }
            let name: String = self.expect_ident()?;
            let ghost before = tables.deep_view();
            let ghost tv = (name@, JoinType::Cross.deep_view());
            tables.push((name, JoinType::Cross));
            assert(tables.deep_view() =~= before.push(tv));
            proof {
                use_type_invariant(&*self);
            }
        }
        Ok(tables)
    }

    /// Reads the joins of a `SELECT`, as many as follow its tables; `joins`
    /// holds those already read.
    #[verifier::loop_isolation(false)]
    fn parse_joins(&mut self, joins: Vec<(String, JoinType)>) -> (r: Result<
        Vec<(String, JoinType)>,
        QLParseError,
    >)
        ensures
            final(self).toks() == old(self).toks(),
            old(self).position() <= final(self).position(),
            step_of(r, final(self).position()) == g_joins(
                old(self).toks(),
                old(self).position(),
                joins.deep_view(),
            ),
    {
        let ghost t = self.toks();
        let ghost q3 = self.position();
        let ghost init = joins.deep_view();
        let join_kws: [Keyword; 5] = [
            Keyword::Inner,
            Keyword::Right,
            Keyword::Left,
            Keyword::Full,
            Keyword::Cross,
        ];
        assert(join_kws@ =~= join_keywords());
        let mut joins = joins;
        loop
            invariant
                self.toks() == t,
                q3 <= self.position(),
                join_kws@ == join_keywords(),
                g_joins(t, self.position(), joins.deep_view()) == g_joins(t, q3, init),
            decreases t.len() - self.position(),
        {
            proof {
                use_type_invariant(&*self);
            }
            let kw = match self.expect_one_of_keywords(&join_kws) {
                Ok(k) => k,
                Err(_) => break,
            };
            self.expect_keyword(Keyword::Join)?;
            let joined_table: String = self.expect_ident()?;
            let ghost before = joins.deep_view();
            let join = match kw {
                Keyword::Cross => JoinType::Cross,
                _ => {
                    self.expect_keyword(Keyword::On)?;
                    let cond = self.parse_expr(0)?;
                    match kw {
                        Keyword::Inner => JoinType::Inner(cond),
                        Keyword::Right => JoinType::Right(cond),
                        Keyword::Left => JoinType::Left(cond),
                        _ => JoinType::Full(cond),
                    }
                },
            };
            let ghost jv = (joined_table@, join.deep_view());
            joins.push((joined_table, join));
            assert(joins.deep_view() =~= before.push(jv));
            proof {
                use_type_invariant(&*self);
            }
        }
        Ok(joins)
    }

    /// Parses `LOAD table FROM 'path'` after the `LOAD` keyword.
    fn parse_load(&mut self) -> (r: Result<QLStatement, QLParseError>)
        ensures
            final(self).toks() == old(self).toks(),
            old(self).position() <= final(self).position(),
            step_of(r, final(self).position()) == g_load(old(self).toks(), old(self).position()),
    {
        let tbl_name = self.expect_ident()?;
        self.expect_keyword(Keyword::From)?;
        let file_path = self.expect_literal_string()?;
        self.expect_end_of_query()?;
        Ok(QLStatement::Load(LoadStatement { target: tbl_name, file_path }))
    }

    /// Parses an `INSERT` statement after the `INSERT` keyword.
    #[verifier::loop_isolation(false)]
    fn parse_insert(&mut self) -> (r: Result<QLStatement, QLParseError>)
        ensures
            final(self).toks() == old(self).toks(),
            old(self).position() <= final(self).position(),
            step_of(r, final(self).position()) == g_insert(old(self).toks(), old(self).position()),
    {
        let ghost t = self.toks();
        self.expect_keyword(Keyword::Into)?;
        let tbl_name: String = self.expect_ident()?;
        let mut cols: Option<Vec<String>> = None;
        let values_kw: [Keyword; 1] = [Keyword::Values];
        assert(values_kw@ =~= seq![Keyword::Values]);
        if !self.peek_is_keyword(&values_kw) {
            cols = Some(self.expect_identifier_list()?);
        }
        self.expect_keyword(Keyword::Values)?;
        let ghost q4 = self.position();
        let mut rows: Vec<Vec<Literal>> = Vec::new();
        loop
            invariant
                self.toks() == t,
                q4 <= self.position(),
                g_rows(t, q4) == (
                    rows.deep_view() + g_rows(t, self.position()).0,
                    g_rows(t, self.position()).1,
                ),
            decreases t.len() - self.position(),
        {
            proof {
                use_type_invariant(&*self);
            }
            match self.expect_literal_list() {
                Ok(row) => {
                    let ghost before = rows.deep_view();
                    let ghost rv = row.deep_view();
                    rows.push(row);
                    assert(rows.deep_view() =~= before.push(rv));
                    if self.expect_token(TokenType::Comma).is_err() {
                        assert(before + seq![rv] =~= rows.deep_view());
                        break;
                    }
                    proof {
                        use_type_invariant(&*self);
                        let r = g_rows(t, self.position());
                        assert(before + (seq![rv] + r.0) =~= rows.deep_view() + r.0);
                    }
                },
                Err(_) => {
                    assert(rows.deep_view() + Seq::<Seq<LiteralV>>::empty() =~= rows.deep_view());
                    break;
                },
            }
        }
        self.expect_end_of_query()?;
        Ok(QLStatement::Insert(InsertStatement { name: tbl_name, columns: cols, values: rows }))
    }

    /// Parses an `UPDATE` statement after the `UPDATE` keyword.
    #[verifier::loop_isolation(false)]
    fn parse_update(&mut self) -> (r: Result<QLStatement, QLParseError>)
        ensures
            final(self).toks() == old(self).toks(),
            old(self).position() <= final(self).position(),
            step_of(r, final(self).position()) == g_update(old(self).toks(), old(self).position()),
    {
        let ghost t = self.toks();
        let tbl_name = self.expect_ident()?;
        self.expect_keyword(Keyword::SetKw)?;
        let ghost q2 = self.position();
        let mut cols: Vec<(String, Literal)> = Vec::new();
        assert(cols.deep_view() =~= Seq::empty());
        loop
            invariant
                self.toks() == t,
                q2 <= self.position(),
                g_assignments(t, self.position(), cols.deep_view()) == g_assignments(
                    t,
                    q2,
                    Seq::empty(),
                ),
            decreases t.len() - self.position(),
        {
            proof {
                use_type_invariant(&*self);
            }
            let col_name = self.expect_ident()?;
            self.expect_operator(Operator::Equals)?;
            let val = self.expect_literal()?;
            let ghost before = cols.deep_view();
            let ghost cv = (col_name@, val.deep_view());
            cols.push((col_name, val));
            assert(cols.deep_view() =~= before.push(cv));
            if self.expect_token(TokenType::Comma).is_err() {
                break;
            }
            proof {
                use_type_invariant(&*self);
            }
        }
        let mut where_cond: Option<Expr> = None;
        if self.expect_keyword(Keyword::Where).is_ok() {
            where_cond = Some(self.parse_expr(0)?);
        }
        self.expect_end_of_query()?;
        Ok(QLStatement::Update(UpdateStatement { target: tbl_name, set: cols, where_cond }))
    }

    /// Parses `DELETE FROM table WHERE condition` after the `DELETE` keyword.
    fn parse_delete(&mut self) -> (r: Result<QLStatement, QLParseError>)
        ensures
            final(self).toks() == old(self).toks(),
            old(self).position() <= final(self).position(),
            step_of(r, final(self).position()) == g_delete(old(self).toks(), old(self).position()),
    {
        self.expect_keyword(Keyword::From)?;
        let tbl_name: String = self.expect_ident()?;
        self.expect_keyword(Keyword::Where)?;
        let where_cond = self.parse_expr(0)?;
        self.expect_end_of_query()?;
        Ok(QLStatement::Delete(DeleteStatement { name: tbl_name, where_cond }))
    }

    /// Parses `ALTER TABLE` or `ALTER COLUMN` after the `ALTER` keyword.
    fn parse_alter(&mut self) -> (r: Result<QLStatement, QLParseError>)
        ensures
            final(self).toks() == old(self).toks(),
            old(self).position() <= final(self).position(),
            step_of(r, final(self).position()) == g_alter(old(self).toks(), old(self).position()),
    {
        let objects: [Keyword; 2] = [Keyword::Table, Keyword::Column];
        assert(objects@ =~= seq![Keyword::Table, Keyword::Column]);
        let modes: [Keyword; 2] = [Keyword::Add, Keyword::Drop];
        assert(modes@ =~= seq![Keyword::Add, Keyword::Drop]);
        match self.expect_one_of_keywords(&objects)? {
            Keyword::Table => {
                let tbl_name: String = self.expect_ident()?;
                let mode: AlterMode = match self.expect_one_of_keywords(&modes)? {
                    Keyword::Add => AlterMode::Add,
                    _ => AlterMode::Drop,
                };
                self.expect_keyword(Keyword::Column)?;
                if mode == AlterMode::Add {
                    let (col_name, col_type, col_modifs) = self.expect_column_decl()?;
                    self.expect_end_of_query()?;
                    Ok(
                        QLStatement::Alter(
                            AlterStatement {
                                object: AlterObject::Table,
                                object_name: tbl_name,
                                mode,
                                action: AlterAction::AddColumn(col_name, col_type, col_modifs),
                            },
                        ),
                    )
                } else {
                    let col_name = self.expect_ident()?;
                    self.expect_end_of_query()?;
                    Ok(
                        QLStatement::Alter(
                            AlterStatement {
                                object: AlterObject::Table,
                                object_name: tbl_name,
                                mode,
                                action: AlterAction::DropColumn(col_name),
                            },
                        ),
                    )
                }
            },
            _ => {
                let column_name: String = self.expect_ident()?;
                let mode: AlterMode = match self.expect_one_of_keywords(&modes)? {
                    Keyword::Add => AlterMode::Add,
                    _ => AlterMode::Drop,
                };
                self.expect_keyword(Keyword::Modifier)?;
                let modifiers: [Keyword; 2] = [Keyword::Unique, Keyword::Nullable];
                assert(modifiers@ =~= seq![Keyword::Unique, Keyword::Nullable]);
                let modifier = match self.expect_one_of_keywords(&modifiers)? {
                    Keyword::Unique => AlterActionModifiers::Unique,
                    _ => AlterActionModifiers::Nullable,
                };
                self.expect_end_of_query()?;
                Ok(
                    QLStatement::Alter(
                        AlterStatement {
                            object: AlterObject::Column,
                            object_name: column_name,
                            mode,
                            action: AlterAction::Modifier(modifier),
                        },
                    ),
                )
            },
        }
    }

    /// Parses `DROP TABLE`, `DROP DATABASE` or `DROP INDEX` after the `DROP` keyword.
    fn parse_drop(&mut self) -> (r: Result<QLStatement, QLParseError>)
        ensures
            final(self).toks() == old(self).toks(),
            old(self).position() <= final(self).position(),
            step_of(r, final(self).position()) == g_drop(old(self).toks(), old(self).position()),
    {
        let kinds: [Keyword; 3] = [Keyword::Table, Keyword::Database, Keyword::Index];
        assert(kinds@ =~= seq![Keyword::Table, Keyword::Database, Keyword::Index]);
        let drop_type = match self.expect_one_of_keywords(&kinds)? {
            Keyword::Table => DropType::Table,
            Keyword::Database => DropType::Database,
            _ => DropType::Index,
        };
        let target = self.expect_ident()?;
        self.expect_end_of_query()?;
        Ok(QLStatement::Drop(DropStatement { drop_type, target }))
    }

    /// Parses `USE database` after the `USE` keyword.
    fn parse_use(&mut self) -> (r: Result<QLStatement, QLParseError>)
        ensures
            final(self).toks() == old(self).toks(),
            old(self).position() <= final(self).position(),
            step_of(r, final(self).position()) == g_use(old(self).toks(), old(self).position()),
    {
        let target = self.expect_ident()?;
        self.expect_end_of_query()?;
        Ok(QLStatement::Use(UseStatement { target }))
    }

    /// Parses an expression by precedence climbing: operators that bind less
    /// tightly than `min_bp` are left for the caller.
    fn parse_expr(&mut self, min_bp: u8) -> (r: Result<Expr, QLParseError>)
        ensures
            final(self).toks() == old(self).toks(),
            old(self).position() <= final(self).position(),
            step_of(r, final(self).position()) == g_expr(
                old(self).toks(),
                old(self).position(),
                min_bp,
            ),
            r is Ok ==> old(self).position() < final(self).position(),
        decreases old(self).toks().len() - old(self).position(), 2int,
    {
        proof {
            use_type_invariant(&*self);
        }
        let ghost t = self.toks();
        let ghost p0 = self.position();
        // first grab the left hand side of the expression
        let mut root = match self.parse_prefix() {
            Ok(e) => e,
            Err(e) => {
                return Err(e);
            },
        };
        proof {
            use_type_invariant(&*self);
        }
        // then, while the next operator binds tightly enough, extend the tree
        loop
            invariant_except_break
                g_expr_rest(t, self.position(), min_bp, root.deep_view()) == g_expr(t, p0, min_bp),
            invariant
                self.toks() == t,
                t == old(self).toks(),
                p0 == old(self).position(),
                p0 < self.position() <= t.len(),
            ensures
                g_expr(t, p0, min_bp) == (
                    Ok::<ExprV, QLParseErrorV>(root.deep_view()),
                    self.position(),
                ),
            decreases t.len() - self.position(),
        {
            proof {
                use_type_invariant(&*self);
            }
            let op = match self.peek() {
                Some(tok) => clone_token_type(&tok.token_type),
                None => break,
            };
            // `IS NULL` and `IS NOT NULL`
            if op == TokenType::Keyword(Keyword::Is) {
                self.advance();
                let l_bind_pow: u8 = 7;
                if l_bind_pow < min_bp {
                    break;
                }
                let kws: [Keyword; 2] = [Keyword::Null, Keyword::Not];
                assert(kws@ =~= seq![Keyword::Null, Keyword::Not]);
                let uop = match self.expect_one_of_keywords(&kws)? {
                    Keyword::Null => UnaryOp::IsNull,
                    _ => {
                        self.expect_keyword(Keyword::Null)?;
                        UnaryOp::IsNotNull
                    },
                };
                root = Expr::UnaryOp { op: uop, expr: Box::new(root) };
                proof {
                    use_type_invariant(&*self);
                }
                continue ;
            }
            match get_token_bp(&op) {
                Some((l_bind_pow, r_bind_pow)) => {
                    if l_bind_pow < min_bp {
                        break;
                    }
                    // consume the operator
                    self.advance();
                    let bop = match BinaryOp::try_from(&op) {
                        Ok(b) => b,
                        Err(e) => {
                            return Err(QLParseError::TokenToOperatorConversionError(e));
                        },
                    };
                    let rhs = self.parse_expr(r_bind_pow)?;
                    root = Expr::BinaryOp { lhs: Box::new(root), op: bop, rhs: Box::new(rhs) };
                    proof {
                        use_type_invariant(&*self);
                    }
                },
                None => break,
            }
        }
        Ok(root)
    }

    /// Parses what can stand on the left of an expression: a literal, an
    /// identifier, a parenthesised expression, or a unary operator and its operand.
    fn parse_prefix(&mut self) -> (r: Result<Expr, QLParseError>)
        ensures
            final(self).toks() == old(self).toks(),
            old(self).position() <= final(self).position(),
            step_of(r, final(self).position()) == g_prefix(old(self).toks(), old(self).position()),
            r is Ok ==> old(self).position() < final(self).position(),
        decreases old(self).toks().len() - old(self).position(), 1int,
    {
        proof {
            use_type_invariant(&*self);
        }
        if let Ok(lit) = self.expect_literal() {
            Ok(Expr::Literal(lit))
        } else if self.expect_keyword(Keyword::Not).is_ok() {
            let op_tok = TokenType::Keyword(Keyword::Not);
            let bind_pow = get_prefix_bp(&op_tok).unwrap();
            let expr = self.parse_expr(bind_pow)?;
            match UnaryOp::try_from(&op_tok) {
                Ok(op) => Ok(Expr::UnaryOp { op, expr: Box::new(expr) }),
                Err(e) => Err(QLParseError::TokenToOperatorConversionError(e)),
            }
        } else if self.expect_operator(Operator::Minus).is_ok() {
            let op_tok = TokenType::Operator(Operator::Minus);
            let bind_pow = get_prefix_bp(&op_tok).unwrap();
            let expr = self.parse_expr(bind_pow)?;
            match UnaryOp::try_from(&op_tok) {
                Ok(op) => Ok(Expr::UnaryOp { op, expr: Box::new(expr) }),
                Err(e) => Err(QLParseError::TokenToOperatorConversionError(e)),
            }
        } else if self.expect_token(TokenType::LParen).is_ok() {
            let expr = self.parse_expr(0)?;
            self.expect_token(TokenType::RParen)?;
            Ok(expr)
        } else if let Ok(ident) = self.expect_ident() {
            Ok(Expr::Identifier(ident))
        } else {
            match self.peek() {
                Some(tok) => Err(QLParseError::UnknownToken(clone_token_type(&tok.token_type), self.pos)),
                None => Err(QLParseError::EOF),
            }
        }
    }

    /// Consumes the next sequence of tokens that looks like a list of literals
    /// (basically a comma seperated list of literal values with parenthesis around them)
    fn expect_literal_list(&mut self) -> (r: Result<Vec<Literal>, QLParseError>)
        ensures
            final(self).toks() == old(self).toks(),
            old(self).position() <= final(self).position(),
            step_of(r, final(self).position()) == g_literal_list(
                old(self).toks(),
                old(self).position(),
            ),
    {
        let ghost t = self.toks();
        let mut lits: Vec<Literal> = Vec::new();
        self.expect_token(TokenType::LParen)?;
        let ghost q0 = self.position();
        loop
            invariant_except_break
                g_literal_items(t, q0) == (
                    lits.deep_view() + g_literal_items(t, self.position()).0,
                    g_literal_items(t, self.position()).1,
                ),
            invariant
                self.toks() == t,
                old(self).position() <= q0 <= self.position(),
            ensures
                g_literal_items(t, q0) == (lits.deep_view(), self.position()),
                self.toks() == t,
                old(self).position() <= self.position(),
            decreases t.len() - self.position(),
        {
            proof {
                use_type_invariant(&*self);
            }
            match self.expect_literal() {
                Ok(lit) => {
                    let ghost before = lits.deep_view();
                    lits.push(lit);
                    assert(lits.deep_view() =~= before.push(lit.deep_view()));
                    if self.expect_token(TokenType::Comma).is_err() {
                        assert(before + seq![lit.deep_view()] =~= lits.deep_view());
                        break;
                    }
                    proof {
                        use_type_invariant(&*self);
                        let r = g_literal_items(t, self.position());
                        assert(before + (seq![lit.deep_view()] + r.0) =~= lits.deep_view() + r.0);
                    }
                },
                Err(_) => {
                    assert(lits.deep_view() + Seq::<LiteralV>::empty() =~= lits.deep_view());
                    break;
                },
            }
        }
        self.expect_token(TokenType::RParen)?;
        Ok(lits)
    }

    fn expect_identifier_list(&mut self) -> (r: Result<Vec<String>, QLParseError>)
        ensures
            final(self).toks() == old(self).toks(),
            old(self).position() <= final(self).position(),
            step_of(r, final(self).position()) == g_ident_list(
                old(self).toks(),
                old(self).position(),
            ),
    {
        self.expect_token(TokenType::LParen)?;
        let idents = self.ident_items();
        self.expect_token(TokenType::RParen)?;
        Ok(idents)
    }

    /// Identifiers separated by commas, as many as follow.
    fn ident_items(&mut self) -> (r: Vec<String>)
        ensures
            final(self).toks() == old(self).toks(),
            old(self).position() <= final(self).position(),
            g_ident_items(old(self).toks(), old(self).position()) == (
                r.deep_view(),
                final(self).position(),
            ),
    {
        let ghost t = self.toks();
        let ghost q0 = self.position();
        let mut idents: Vec<String> = Vec::new();
        loop
            invariant_except_break
                g_ident_items(t, q0) == (
                    idents.deep_view() + g_ident_items(t, self.position()).0,
                    g_ident_items(t, self.position()).1,
                ),
            invariant
                self.toks() == t,
                q0 == old(self).position(),
                q0 <= self.position(),
            ensures
                g_ident_items(t, q0) == (idents.deep_view(), self.position()),
                self.toks() == t,
                q0 <= self.position(),
            decreases t.len() - self.position(),
        {
            proof {
                use_type_invariant(&*self);
            }
            match self.expect_ident() {
                Ok(ident) => {
                    let ghost before = idents.deep_view();
                    let ghost iv = ident@;
                    idents.push(ident);
                    assert(idents.deep_view() =~= before.push(iv));
                    if self.expect_token(TokenType::Comma).is_err() {
                        assert(before + seq![iv] =~= idents.deep_view());
                        break;
                    }
                    proof {
                        use_type_invariant(&*self);
                        let r = g_ident_items(t, self.position());
                        assert(before + (seq![iv] + r.0) =~= idents.deep_view() + r.0);
                    }
                },
                Err(_) => {
                    assert(idents.deep_view() + Seq::<Seq<char>>::empty() =~= idents.deep_view());
                    break;
                },
            }
        }
        idents
    }

}

fn keywords_contain(kws: &[Keyword], k: Keyword) -> (r: bool)
    ensures
        r == kws@.contains(k),
{
    let mut i: usize = 0;
    while i < kws.len()
        invariant
            i <= kws@.len(),
            forall|j: int| 0 <= j < i ==> kws@[j] != k,
        decreases kws@.len() - i,
    {
        if kws[i] == k {
            return true;
        }
        i += 1;
    }
    false
}

fn keywords_to_vec(kws: &[Keyword]) -> (r: Vec<Keyword>)
    ensures
        r@ == kws@,
{
    let mut v: Vec<Keyword> = Vec::new();
    let mut i: usize = 0;
    while i < kws.len()
        invariant
            i <= kws@.len(),
            v@ == kws@.take(i as int),
        decreases kws@.len() - i,
    {
        v.push(kws[i]);
        i += 1;
        assert(v@ =~= kws@.take(i as int));
    }
    assert(kws@.take(kws@.len() as int) =~= kws@);
    v
}

fn token_types_contain(ts: &[TokenType], t: &TokenType) -> (r: bool)
    ensures
        r == ts@.map_values(|x: TokenType| x@).contains(t@),
{
    let ghost vs = ts@.map_values(|x: TokenType| x@);
    let mut i: usize = 0;
    while i < ts.len()
        invariant
            i <= ts@.len(),
            vs == ts@.map_values(|x: TokenType| x@),
            forall|j: int| 0 <= j < i ==> vs[j] != t@,
        decreases ts@.len() - i,
    {
        if ts[i] == *t {
            assert(vs[i as int] == t@);
            return true;
        }
        i += 1;
    }
    false
}

fn token_types_to_vec(ts: &[TokenType]) -> (r: Vec<TokenType>)
    ensures
        r@.map_values(|x: TokenType| x@) == ts@.map_values(|x: TokenType| x@),
{
    let mut v: Vec<TokenType> = Vec::new();
    let mut i: usize = 0;
    while i < ts.len()
        invariant
            i <= ts@.len(),
            v@.len() == i,
            forall|j: int| 0 <= j < i ==> #[trigger] v@[j]@ == ts@[j]@,
        decreases ts@.len() - i,
    {
        v.push(clone_token_type(&ts[i]));
        i += 1;
    }
    assert(v@.map_values(|x: TokenType| x@) =~= ts@.map_values(|x: TokenType| x@));
    v
}

} // verus!
