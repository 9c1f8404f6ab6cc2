use dbms_upended::ql::parser::column_type::ColumnType;
use dbms_upended::ql::parser::error::QLParseError;
use dbms_upended::ql::parser::expression::literal::Literal;
use dbms_upended::ql::parser::expression::Expr;
use dbms_upended::ql::parser::statement::QLStatement;
use dbms_upended::ql::parser::statements::alter_stmt::{
    AlterAction, AlterActionModifiers, AlterMode, AlterObject,
};
use dbms_upended::ql::parser::statements::create_stmt::CreateType;
use dbms_upended::ql::parser::statements::drop_stmt::DropType;
use dbms_upended::ql::parser::statements::select_stmt::JoinType;
use dbms_upended::ql::parser::Parser;
use dbms_upended::ql::tokenizer::token::{Keyword, Operator, TokenType};
use dbms_upended::ql::tokenizer::tokenizer::Tokenizer;

fn parse(sql: &str) -> Result<Vec<QLStatement>, QLParseError> {
    let mut tokenizer = Tokenizer::new(sql);
    let tokens = tokenizer.tokenize().expect("the input tokenizes");
    Parser::new(&tokens).parse()
}

fn parse_one(sql: &str) -> QLStatement {
    let mut stmts = parse(sql).expect("the input parses");
    assert_eq!(stmts.len(), 1);
    stmts.remove(0)
}

fn dbg<T: std::fmt::Debug>(x: &T) -> String {
    format!("{:?}", x)
}

#[test]
fn parse_create_table() {
    let stmt = parse_one("CREATE TABLE users (id INT UNIQUE, name STRING NULLABLE INDEXED name_idx);");
    match stmt {
        QLStatement::Create(c) => {
            assert_eq!(c.name, "users");
            match c.create_type {
                CreateType::Table(cols) => {
                    assert_eq!(cols.len(), 2);
                    assert_eq!(cols[0].0, "id");
                    assert_eq!(cols[0].1, ColumnType::Int);
                    assert!(!cols[0].2.nullable);
                    assert!(cols[0].2.unique);
                    assert_eq!(cols[0].2.indexed, None);
                    assert_eq!(cols[1].0, "name");
                    assert_eq!(cols[1].1, ColumnType::String);
                    assert!(cols[1].2.nullable);
                    assert!(!cols[1].2.unique);
                    assert_eq!(cols[1].2.indexed.as_deref(), Some("name_idx"));
                }
                other => panic!("unexpected: {:?}", other),
            }
        }
        other => panic!("unexpected: {:?}", other),
    }
}

#[test]
fn parse_create_table_every_type() {
    let stmt = parse_one("create table t (a int, b bigint, c float, d bigfloat, e string, f bool)");
    match stmt {
        QLStatement::Create(c) => match c.create_type {
            CreateType::Table(cols) => {
                let types: Vec<ColumnType> = cols.iter().map(|c| c.1).collect();
                assert_eq!(
                    types,
                    vec![
                        ColumnType::Int,
                        ColumnType::BigInt,
                        ColumnType::Float,
                        ColumnType::BigFloat,
                        ColumnType::String,
                        ColumnType::Bool,
                    ]
                );
            }
            other => panic!("unexpected: {:?}", other),
        },
        other => panic!("unexpected: {:?}", other),
    }
}

#[test]
fn parse_create_database_and_index() {
    match parse_one("CREATE DATABASE shop;") {
        QLStatement::Create(c) => {
            assert_eq!(c.name, "shop");
            assert!(matches!(c.create_type, CreateType::Database));
        }
        other => panic!("unexpected: {:?}", other),
    }
    match parse_one("CREATE INDEX by_name ON users.name;") {
        QLStatement::Create(c) => {
            assert_eq!(c.name, "by_name");
            assert!(matches!(c.create_type, CreateType::Index(ref s) if s == "users.name"));
        }
        other => panic!("unexpected: {:?}", other),
    }
}

#[test]
fn parse_select_columns_join_and_where() {
    match parse_one("SELECT a, \"b c\" FROM t INNER JOIN u ON t.id = u.id CROSS JOIN v WHERE a > 1;") {
        QLStatement::Select(s) => {
            assert_eq!(s.filter_cols, Some(vec!["a".to_string(), "b c".to_string()]));
            assert_eq!(s.primary_table, "t");
            assert_eq!(s.joins.len(), 2);
            assert_eq!(s.joins[0].0, "u");
            match &s.joins[0].1 {
                JoinType::Inner(e) => assert_eq!(
                    dbg(e),
                    "BinaryOp { lhs: Identifier(\"t.id\"), op: Eq, rhs: Identifier(\"u.id\") }"
                ),
                other => panic!("unexpected: {:?}", other),
            }
            assert_eq!(s.joins[1].0, "v");
            assert!(matches!(s.joins[1].1, JoinType::Cross));
            assert_eq!(
                dbg(&s.where_clause),
                "Some(BinaryOp { lhs: Identifier(\"a\"), op: Gt, rhs: Literal(Int(1)) })"
            );
        }
        other => panic!("unexpected: {:?}", other),
    }
}

#[test]
fn parse_select_star_and_every_join_kind() {
    match parse_one(
        "SELECT * FROM a LEFT JOIN b ON x = 1 RIGHT JOIN c ON y = 2 FULL JOIN d ON z = 3",
    ) {
        QLStatement::Select(s) => {
            assert_eq!(s.filter_cols, None);
            assert!(matches!(s.joins[0].1, JoinType::Left(_)));
            assert!(matches!(s.joins[1].1, JoinType::Right(_)));
            assert!(matches!(s.joins[2].1, JoinType::Full(_)));
            assert!(s.where_clause.is_none());
        }
        other => panic!("unexpected: {:?}", other),
    }
}

#[test]
fn select_without_columns_reads_an_empty_list() {
    match parse_one("SELECT FROM t") {
        QLStatement::Select(s) => assert_eq!(s.filter_cols, Some(vec![])),
        other => panic!("unexpected: {:?}", other),
    }
}

#[test]
fn operator_precedence() {
    match parse_one("SELECT * FROM t WHERE 1 + 2 * 3 = 7 OR NOT b AND c;") {
        QLStatement::Select(s) => assert_eq!(
            dbg(&s.where_clause.unwrap()),
            "BinaryOp { lhs: BinaryOp { lhs: BinaryOp { lhs: Literal(Int(1)), op: Plus, rhs: \
             BinaryOp { lhs: Literal(Int(2)), op: Mul, rhs: Literal(Int(3)) } }, op: Eq, rhs: \
             Literal(Int(7)) }, op: Or, rhs: BinaryOp { lhs: UnaryOp { op: Not, expr: \
             Identifier(\"b\") }, op: And, rhs: Identifier(\"c\") } }"
        ),
        other => panic!("unexpected: {:?}", other),
    }
}

#[test]
fn same_precedence_groups_to_the_left() {
    match parse_one("SELECT * FROM t WHERE 10 - 4 - 3") {
        QLStatement::Select(s) => assert_eq!(
            dbg(&s.where_clause.unwrap()),
            "BinaryOp { lhs: BinaryOp { lhs: Literal(Int(10)), op: Minus, rhs: Literal(Int(4)) }, \
             op: Minus, rhs: Literal(Int(3)) }"
        ),
        other => panic!("unexpected: {:?}", other),
    }
}

#[test]
fn parentheses_and_unary_minus() {
    match parse_one("SELECT * FROM t WHERE -(a + 1) * 2") {
        QLStatement::Select(s) => assert_eq!(
            dbg(&s.where_clause.unwrap()),
            "BinaryOp { lhs: UnaryOp { op: Minus, expr: BinaryOp { lhs: Identifier(\"a\"), op: \
             Plus, rhs: Literal(Int(1)) } }, op: Mul, rhs: Literal(Int(2)) }"
        ),
        other => panic!("unexpected: {:?}", other),
    }
}

#[test]
fn is_null_and_is_not_null() {
    match parse_one("DELETE FROM t WHERE a IS NULL AND b IS NOT NULL;") {
        QLStatement::Delete(d) => {
            assert_eq!(d.name, "t");
            assert_eq!(
                dbg(&d.where_cond),
                "BinaryOp { lhs: UnaryOp { op: IsNull, expr: Identifier(\"a\") }, op: And, rhs: \
                 UnaryOp { op: IsNotNull, expr: Identifier(\"b\") } }"
            );
        }
        other => panic!("unexpected: {:?}", other),
    }
}

#[test]
fn parse_insert_rows() {
    match parse_one("INSERT INTO t (a, b) VALUES (1, 'x'), (2.5, NULL), (TRUE, FALSE);") {
        QLStatement::Insert(i) => {
            assert_eq!(i.name, "t");
            assert_eq!(i.columns, Some(vec!["a".to_string(), "b".to_string()]));
            assert_eq!(i.values.len(), 3);
            assert!(matches!(i.values[0][0], Literal::Int(1)));
            assert!(matches!(&i.values[0][1], Literal::String(s) if s == "x"));
            assert!(matches!(&i.values[1][0], Literal::Float(s) if s == "2.5"));
            assert!(matches!(i.values[1][1], Literal::Null));
            assert!(matches!(i.values[2][0], Literal::Bool(true)));
            assert!(matches!(i.values[2][1], Literal::Bool(false)));
        }
        other => panic!("unexpected: {:?}", other),
    }
}

#[test]
fn parse_insert_without_columns() {
    match parse_one("INSERT INTO t VALUES (3000000000)") {
        QLStatement::Insert(i) => {
            assert_eq!(i.columns, None);
            assert!(matches!(i.values[0][0], Literal::BigInt(3000000000)));
        }
        other => panic!("unexpected: {:?}", other),
    }
}

#[test]
fn parse_update() {
    match parse_one("UPDATE t SET a = 1, b = 'y' WHERE a = 2;") {
        QLStatement::Update(u) => {
            assert_eq!(u.target, "t");
            assert_eq!(u.set.len(), 2);
            assert_eq!(u.set[0].0, "a");
            assert!(matches!(u.set[0].1, Literal::Int(1)));
            assert_eq!(u.set[1].0, "b");
            assert!(matches!(&u.set[1].1, Literal::String(s) if s == "y"));
            assert!(u.where_cond.is_some());
        }
        other => panic!("unexpected: {:?}", other),
    }
    match parse_one("UPDATE t SET a = NULL") {
        QLStatement::Update(u) => assert!(u.where_cond.is_none()),
        other => panic!("unexpected: {:?}", other),
    }
}

#[test]
fn parse_alter_table() {
    match parse_one("ALTER TABLE t ADD COLUMN c BOOL NULLABLE;") {
        QLStatement::Alter(a) => {
            assert_eq!(a.object, AlterObject::Table);
            assert_eq!(a.object_name, "t");
            assert_eq!(a.mode, AlterMode::Add);
            match a.action {
                AlterAction::AddColumn(name, ty, mods) => {
                    assert_eq!(name, "c");
                    assert_eq!(ty, ColumnType::Bool);
                    assert!(mods.nullable);
                }
                other => panic!("unexpected: {:?}", other),
            }
        }
        other => panic!("unexpected: {:?}", other),
    }
    match parse_one("ALTER TABLE t DROP COLUMN c") {
        QLStatement::Alter(a) => {
            assert_eq!(a.mode, AlterMode::Drop);
            assert!(matches!(a.action, AlterAction::DropColumn(ref c) if c == "c"));
        }
        other => panic!("unexpected: {:?}", other),
    }
}

#[test]
fn parse_alter_column() {
    match parse_one("ALTER COLUMN c DROP MODIFIER UNIQUE;") {
        QLStatement::Alter(a) => {
            assert_eq!(a.object, AlterObject::Column);
            assert_eq!(a.object_name, "c");
            assert_eq!(a.mode, AlterMode::Drop);
            assert!(matches!(a.action, AlterAction::Modifier(AlterActionModifiers::Unique)));
        }
        other => panic!("unexpected: {:?}", other),
    }
    match parse_one("ALTER COLUMN c ADD MODIFIER NULLABLE") {
        QLStatement::Alter(a) => {
            assert_eq!(a.mode, AlterMode::Add);
            assert!(matches!(a.action, AlterAction::Modifier(AlterActionModifiers::Nullable)));
        }
        other => panic!("unexpected: {:?}", other),
    }
}

#[test]
fn parse_drop_use_and_load() {
    match parse_one("DROP INDEX idx;") {
        QLStatement::Drop(d) => {
            assert_eq!(d.drop_type, DropType::Index);
            assert_eq!(d.target, "idx");
        }
        other => panic!("unexpected: {:?}", other),
    }
    match parse_one("DROP DATABASE db") {
        QLStatement::Drop(d) => assert_eq!(d.drop_type, DropType::Database),
        other => panic!("unexpected: {:?}", other),
    }
    match parse_one("USE db;") {
        QLStatement::Use(u) => assert_eq!(u.target, "db"),
        other => panic!("unexpected: {:?}", other),
    }
    match parse_one("LOAD t FROM 'rows.csv';") {
        QLStatement::Load(l) => {
            assert_eq!(l.target, "t");
            assert_eq!(l.file_path, "rows.csv");
        }
        other => panic!("unexpected: {:?}", other),
    }
}

#[test]
fn parse_several_statements() {
    let stmts = parse("USE a; DROP TABLE b; USE c").unwrap();
    assert_eq!(stmts.len(), 3);
    assert!(matches!(&stmts[0], QLStatement::Use(u) if u.target == "a"));
    assert!(matches!(&stmts[1], QLStatement::Drop(d) if d.target == "b"));
    assert!(matches!(&stmts[2], QLStatement::Use(u) if u.target == "c"));
}

#[test]
fn no_tokens_parse_to_no_statements() {
    assert_eq!(parse("").unwrap().len(), 0);
}

#[test]
fn statement_must_start_with_a_command() {
    match parse("users") {
        Err(QLParseError::IllegalToken(TokenType::Identifier(s), 1)) => assert_eq!(s, "users"),
        other => panic!("unexpected: {:?}", other),
    }
    match parse("FROM t") {
        Err(QLParseError::IllegalToken(TokenType::Keyword(Keyword::From), 1)) => {}
        other => panic!("unexpected: {:?}", other),
    }
    match parse("USE a;;") {
        Err(QLParseError::IllegalToken(TokenType::SemiColon, 4)) => {}
        other => panic!("unexpected: {:?}", other),
    }
}

#[test]
fn unclosed_column_list_is_an_error() {
    match parse("CREATE TABLE t (a INT") {
        Err(QLParseError::ExpectedOneOfTokens(ts, 6)) => {
            assert_eq!(ts.len(), 2);
            assert!(matches!(ts[0], TokenType::Comma));
            assert!(matches!(ts[1], TokenType::RParen));
        }
        other => panic!("unexpected: {:?}", other),
    }
}

#[test]
fn column_needs_a_type() {
    match parse("CREATE TABLE t (a)") {
        Err(QLParseError::ExpectedOneOfKeywords(kws, 5)) => assert_eq!(
            kws,
            vec![
                Keyword::Int,
                Keyword::BigInt,
                Keyword::Float,
                Keyword::BigFloat,
                Keyword::String,
                Keyword::Bool,
            ]
        ),
        other => panic!("unexpected: {:?}", other),
    }
}

#[test]
fn delete_needs_a_where_clause() {
    match parse("DELETE FROM t") {
        Err(QLParseError::ExpectedKeyword(Keyword::Where, 3)) => {}
        other => panic!("unexpected: {:?}", other),
    }
}

#[test]
fn missing_expression_is_eof() {
    match parse("SELECT * FROM t WHERE") {
        Err(QLParseError::EOF) => {}
        other => panic!("unexpected: {:?}", other),
    }
}

#[test]
fn is_must_be_followed_by_null_or_not_null() {
    match parse("SELECT * FROM t WHERE a IS") {
        Err(QLParseError::ExpectedOneOfKeywords(kws, 7)) => {
            assert_eq!(kws, vec![Keyword::Null, Keyword::Not])
        }
        other => panic!("unexpected: {:?}", other),
    }
    match parse("SELECT * FROM t WHERE a IS NOT 1") {
        Err(QLParseError::ExpectedKeyword(Keyword::Null, 8)) => {}
        other => panic!("unexpected: {:?}", other),
    }
}

#[test]
fn trailing_tokens_are_an_error() {
    match parse("USE a b") {
        Err(QLParseError::ExpectedEndOfQuery(2)) => {}
        other => panic!("unexpected: {:?}", other),
    }
}

#[test]
fn update_needs_equals() {
    match parse("UPDATE t SET a 1") {
        Err(QLParseError::ExpectedOperator(Operator::Equals, 4)) => {}
        other => panic!("unexpected: {:?}", other),
    }
}

#[test]
fn unexpected_token_in_expression() {
    match parse("SELECT * FROM t WHERE ;") {
        Err(QLParseError::UnknownToken(TokenType::SemiColon, 5)) => {}
        other => panic!("unexpected: {:?}", other),
    }
}

#[test]
fn load_needs_a_string_path() {
    match parse("LOAD t FROM path") {
        Err(QLParseError::ExpectedLiteralString(3)) => {}
        other => panic!("unexpected: {:?}", other),
    }
}

#[test]
fn not_binds_looser_than_comparison() {
    match parse("SELECT * FROM t WHERE NOT a = 1") {
        Ok(stmts) => match &stmts[0] {
            QLStatement::Select(s) => assert_eq!(
                dbg(s.where_clause.as_ref().unwrap()),
                "UnaryOp { op: Not, expr: BinaryOp { lhs: Identifier(\"a\"), op: Eq, rhs: \
                 Literal(Int(1)) } }"
            ),
            other => panic!("unexpected: {:?}", other),
        },
        other => panic!("unexpected: {:?}", other),
    }
}

#[test]
fn is_is_taken_even_where_it_binds_too_loosely() {
    // under a unary minus, `IS` is read and then left unapplied, so `NULL` follows the expression
    match parse("SELECT * FROM t WHERE - a IS NULL") {
        Err(QLParseError::ExpectedEndOfQuery(8)) => {}
        other => panic!("unexpected: {:?}", other),
    }
}

#[test]
fn expressions_of_literals() {
    let stmt = parse_one("SELECT * FROM t WHERE x = 'a' OR y = TRUE OR z <> NULL");
    match stmt {
        QLStatement::Select(s) => {
            let e = s.where_clause.unwrap();
            assert!(matches!(e, Expr::BinaryOp { .. }));
        }
        other => panic!("unexpected: {:?}", other),
    }
}

#[test]
fn column_types_from_keywords() {
    assert_eq!(ColumnType::try_from(Keyword::BigFloat).unwrap(), ColumnType::BigFloat);
    assert_eq!(ColumnType::try_from(Keyword::Bool).unwrap(), ColumnType::Bool);
    match ColumnType::try_from(Keyword::Select) {
        Err(QLParseError::KeywordIsNotColumnType(Keyword::Select)) => {}
        other => panic!("unexpected: {:?}", other),
    }
}

#[test]
fn select_from_a_list_of_tables() {
    match parse_one("select * from a, b;") {
        QLStatement::Select(s) => {
            assert_eq!(s.filter_cols, None);
            assert_eq!(s.primary_table, "a");
            assert_eq!(s.joins.len(), 1);
            assert_eq!(s.joins[0].0, "b");
            assert!(matches!(s.joins[0].1, JoinType::Cross));
        }
        other => panic!("unexpected: {:?}", other),
    }
    match parse_one("SELECT x FROM a, b, c INNER JOIN d ON x = 1 WHERE x > 2") {
        QLStatement::Select(s) => {
            let names: Vec<&str> = s.joins.iter().map(|j| j.0.as_str()).collect();
            assert_eq!(names, vec!["b", "c", "d"]);
            assert!(matches!(s.joins[1].1, JoinType::Cross));
            assert!(matches!(s.joins[2].1, JoinType::Inner(_)));
            assert!(s.where_clause.is_some());
        }
        other => panic!("unexpected: {:?}", other),
    }
}

#[test]
fn table_list_needs_a_table_after_each_comma() {
    match parse("SELECT * FROM a,") {
        Err(QLParseError::ExpectedIdent(5)) => {}
        other => panic!("unexpected: {:?}", other),
    }
}
