use dbms_upended::ql::tokenizer::errors::SQLTokenizeError;
use dbms_upended::ql::tokenizer::token::{Keyword, LiteralToken, Operator, Token, TokenType};
use dbms_upended::ql::tokenizer::tokenizer::Tokenizer;

fn tokenize(input: &str) -> Result<Vec<Token>, SQLTokenizeError> {
    let mut tokenizer = Tokenizer::new(input);
    tokenizer.tokenize()
}

fn values(tokens: &[Token]) -> Vec<String> {
    tokens.iter().map(|t| t.value.clone()).collect()
}

#[test]
fn tokenize_simple_select() {
    let toks = tokenize("SELECT * FROM users;").unwrap();
    assert_eq!(toks.len(), 5);
    assert!(matches!(toks[0].token_type, TokenType::Keyword(Keyword::Select)));
    assert!(matches!(toks[1].token_type, TokenType::Operator(Operator::Star)));
    assert!(matches!(toks[2].token_type, TokenType::Keyword(Keyword::From)));
    assert!(matches!(&toks[3].token_type, TokenType::Identifier(s) if s == "users"));
    assert!(matches!(toks[4].token_type, TokenType::SemiColon));
    assert_eq!(values(&toks), vec!["SELECT", "*", "FROM", "users", ";"]);
}

#[test]
fn keywords_ignore_ascii_case() {
    let toks = tokenize("select From wHeRe set").unwrap();
    assert!(matches!(toks[0].token_type, TokenType::Keyword(Keyword::Select)));
    assert!(matches!(toks[1].token_type, TokenType::Keyword(Keyword::From)));
    assert!(matches!(toks[2].token_type, TokenType::Keyword(Keyword::Where)));
    assert!(matches!(toks[3].token_type, TokenType::Keyword(Keyword::SetKw)));
    assert_eq!(values(&toks), vec!["select", "From", "wHeRe", "set"]);
}

#[test]
fn identifiers_take_digits_dots_and_underscores() {
    let toks = tokenize("_tbl1.col_2 x9").unwrap();
    assert!(matches!(&toks[0].token_type, TokenType::Identifier(s) if s == "_tbl1.col_2"));
    assert!(matches!(&toks[1].token_type, TokenType::Identifier(s) if s == "x9"));
}

#[test]
fn numbers_get_the_smallest_kind_that_holds_them() {
    let toks = tokenize("42 2147483647 2147483648 9223372036854775808 3.14").unwrap();
    assert!(matches!(toks[0].token_type, TokenType::Literal(LiteralToken::Int(42))));
    assert!(matches!(toks[1].token_type, TokenType::Literal(LiteralToken::Int(2147483647))));
    assert!(matches!(
        toks[2].token_type,
        TokenType::Literal(LiteralToken::BigInt(2147483648))
    ));
    assert!(matches!(
        &toks[3].token_type,
        TokenType::Literal(LiteralToken::Float(s)) if s == "9223372036854775808"
    ));
    assert!(matches!(&toks[4].token_type, TokenType::Literal(LiteralToken::Float(s)) if s == "3.14"));
}

#[test]
fn a_second_dot_ends_a_number() {
    let mut tokenizer = Tokenizer::new("1.2.3");
    let first = tokenizer.get_next_token().unwrap();
    assert!(matches!(&first.token_type, TokenType::Literal(LiteralToken::Float(s)) if s == "1.2"));
    // a dot starts no token
    match tokenize("1.2.3") {
        Err(SQLTokenizeError::UnknownToken(s, line, col)) => {
            assert_eq!(s, ".");
            assert_eq!((line, col), (1, 4));
        }
        other => panic!("unexpected: {:?}", other),
    }
}

#[test]
fn quoted_strings_and_identifiers() {
    let toks = tokenize("'it''s' \"Col Name\"").unwrap();
    assert!(matches!(&toks[0].token_type, TokenType::Literal(LiteralToken::String(s)) if s == "it's"));
    assert!(matches!(&toks[1].token_type, TokenType::QuotedIdentifier(s) if s == "Col Name"));
    assert_eq!(values(&toks), vec!["it's", "Col Name"]);
}

#[test]
fn operators() {
    let toks = tokenize("<= <> < >= > = != + - * / %").unwrap();
    let ops: Vec<Operator> = toks
        .iter()
        .map(|t| match t.token_type {
            TokenType::Operator(o) => o,
            _ => panic!("not an operator: {:?}", t),
        })
        .collect();
    assert_eq!(
        ops,
        vec![
            Operator::Lte,
            Operator::NotEq,
            Operator::Lt,
            Operator::Gte,
            Operator::Gt,
            Operator::Equals,
            Operator::NotEq,
            Operator::Plus,
            Operator::Minus,
            Operator::Star,
            Operator::Divide,
            Operator::Modulus,
        ]
    );
}

#[test]
fn punctuation() {
    let toks = tokenize("(a, b);").unwrap();
    assert!(matches!(toks[0].token_type, TokenType::LParen));
    assert!(matches!(toks[2].token_type, TokenType::Comma));
    assert!(matches!(toks[4].token_type, TokenType::RParen));
    assert!(matches!(toks[5].token_type, TokenType::SemiColon));
}

#[test]
fn comments_are_skipped() {
    let toks = tokenize("-- a comment\nSELECT /* inline */ 1 /* to the end").unwrap();
    assert_eq!(toks.len(), 2);
    assert!(matches!(toks[0].token_type, TokenType::Keyword(Keyword::Select)));
    assert!(matches!(toks[1].token_type, TokenType::Literal(LiteralToken::Int(1))));
}

#[test]
fn empty_and_blank_input() {
    assert_eq!(tokenize("").unwrap().len(), 0);
    assert_eq!(tokenize(" \t\r\n ").unwrap().len(), 0);
}

#[test]
fn less_than_followed_by_a_letter_is_illegal() {
    match tokenize("x <y") {
        Err(SQLTokenizeError::IllegalToken(s, line, col)) => {
            assert_eq!(s, "<");
            assert_eq!((line, col), (1, 4));
        }
        other => panic!("unexpected: {:?}", other),
    }
}

#[test]
fn lone_bang_is_illegal() {
    match tokenize("a ! b") {
        Err(SQLTokenizeError::IllegalToken(s, line, col)) => {
            assert_eq!(s, "!");
            assert_eq!((line, col), (1, 3));
        }
        other => panic!("unexpected: {:?}", other),
    }
}

#[test]
fn unterminated_string_is_illegal() {
    match tokenize("'abc") {
        Err(SQLTokenizeError::IllegalToken(s, line, col)) => {
            assert_eq!(s, "abc");
            assert_eq!((line, col), (1, 4));
        }
        other => panic!("unexpected: {:?}", other),
    }
}

#[test]
fn unknown_character_reports_line_and_column() {
    match tokenize("SELECT @") {
        Err(SQLTokenizeError::UnknownToken(s, line, col)) => {
            assert_eq!(s, "@");
            assert_eq!((line, col), (1, 8));
        }
        other => panic!("unexpected: {:?}", other),
    }
    match tokenize("SELECT\n  #") {
        Err(SQLTokenizeError::UnknownToken(s, line, col)) => {
            assert_eq!(s, "#");
            assert_eq!((line, col), (2, 3));
        }
        other => panic!("unexpected: {:?}", other),
    }
}

#[test]
fn get_next_token_walks_the_input() {
    let mut tokenizer = Tokenizer::new("  a\tb ");
    let a = tokenizer.get_next_token().unwrap();
    assert!(matches!(&a.token_type, TokenType::Identifier(s) if s == "a"));
    let b = tokenizer.get_next_token().unwrap();
    assert!(matches!(&b.token_type, TokenType::Identifier(s) if s == "b"));
    assert!(tokenizer.get_next_token().is_none());
    assert!(tokenizer.get_next_token().is_none());
}

#[test]
fn positions_count_characters_not_bytes() {
    match tokenize("-- é\n@") {
        Err(SQLTokenizeError::UnknownToken(s, line, col)) => {
            assert_eq!(s, "@");
            assert_eq!((line, col), (2, 1));
        }
        other => panic!("unexpected: {:?}", other),
    }
    match tokenize("'éé'\n@") {
        Err(SQLTokenizeError::UnknownToken(_, line, col)) => assert_eq!((line, col), (2, 1)),
        other => panic!("unexpected: {:?}", other),
    }
    match tokenize("x 'é' <y") {
        Err(SQLTokenizeError::IllegalToken(s, line, col)) => {
            assert_eq!(s, "<");
            assert_eq!((line, col), (1, 8));
        }
        other => panic!("unexpected: {:?}", other),
    }
}

fn same_tokens(a: &[Token], b: &[Token]) -> bool {
    a.len() == b.len()
        && a.iter().zip(b).all(|(x, y)| x.token_type == y.token_type && x.value == y.value)
}

#[test]
fn surrounding_whitespace_changes_nothing() {
    let s = "SELECT a, 'x y' FROM t -- note";
    let plain = tokenize(s).unwrap();
    assert!(same_tokens(&plain, &tokenize(&format!(" {}", s)).unwrap()));
    assert!(same_tokens(&plain, &tokenize(&format!("{} ", s)).unwrap()));
    let tail = tokenize("a <").unwrap();
    assert!(same_tokens(&tail, &tokenize("a < ").unwrap()));
}

#[test]
fn tokenize_is_repeated_next_token() {
    let s = "UPDATE t SET a = 'v' /* c */ WHERE b >= 2;";
    let all = tokenize(s).unwrap();
    let mut one_by_one = Vec::new();
    let mut tokenizer = Tokenizer::new(s);
    while let Some(t) = tokenizer.get_next_token() {
        one_by_one.push(t);
    }
    assert!(same_tokens(&all, &one_by_one));
    // once none is left, none stays left
    assert!(tokenizer.get_next_token().is_none());
}

#[test]
fn nothing_is_left_after_blank_text() {
    let mut tokenizer = Tokenizer::new("  -- only a comment\n /* and another */ ");
    assert!(tokenizer.get_next_token().is_none());
    assert!(tokenizer.get_next_token().is_none());
    let mut tokenizer = Tokenizer::new(" -- comment\n x");
    assert!(tokenizer.get_next_token().is_some());
}

#[test]
fn token_text_agrees_with_kind() {
    for t in tokenize("Select abc \"q\"\"x\" 'it''s' 17 4.5").unwrap() {
        match &t.token_type {
            TokenType::Identifier(v) | TokenType::QuotedIdentifier(v) => assert_eq!(&t.value, v),
            TokenType::Literal(LiteralToken::String(v)) | TokenType::Literal(LiteralToken::Float(v)) => {
                assert_eq!(&t.value, v)
            }
            TokenType::Literal(LiteralToken::Int(n)) => assert_eq!(t.value.parse::<i32>().unwrap(), *n),
            TokenType::Keyword(k) => assert_eq!(*k, Keyword::Select),
            other => panic!("unexpected: {:?}", other),
        }
    }
}
