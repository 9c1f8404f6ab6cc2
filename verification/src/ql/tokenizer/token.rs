use vstd::prelude::*;

verus! {

/// The reserved words of the query language.
///
/// A word in the input is a keyword when it equals the keyword's name,
/// ignoring ASCII case (`select`, `SELECT` and `Select` are all `Keyword::Select`).
#[derive(Debug, Clone, Copy, PartialEq, Eq, Structural)]
pub enum Keyword {
    Create,
    Select,
    Insert,
    Update,
    Delete,
    Alter,
    Drop,
    Use,
    Load,
    Table,
    Index,
    Database,
    On,
    From,
    Inner,
    Right,
    Left,
    Full,
    Cross,
    Join,
    Where,
    Into,
    Values,
    /// The `SET` keyword.
    SetKw,
    Column,
    Add,
    Modifier,
    Unique,
    Nullable,
    Indexed,
    Is,
    Null,
    Not,
    And,
    Or,
    True,
    False,
    Int,
    BigInt,
    Float,
    BigFloat,
    String,
    Bool,
}

/// Operators of the query language.
#[derive(Debug, Clone, Copy, PartialEq, Eq, Structural)]
pub enum Operator {
    Equals,
    NotEq,
    Lt,
    Lte,
    Gt,
    Gte,
    Plus,
    Minus,
    Star,
    Divide,
    Modulus,
    Pow,
}

/// A literal value as it appears in the input.
///
/// Fractional numbers are kept as their decimal text (digits with one dot,
/// or digits too large for an `i64`); that text is always a valid
/// floating-point literal.
#[derive(Debug, Clone)]
pub enum LiteralToken {
    Int(i32),
    BigInt(i64),
    Float(String),
    BigFloat(String),
    String(String),
}

/// The kind of a token, together with the data that the kind carries.
#[derive(Debug, Clone)]
pub enum TokenType {
    Keyword(Keyword),
    Identifier(String),
    QuotedIdentifier(String),
    Literal(LiteralToken),
    Operator(Operator),
    SemiColon,
    LParen,
    RParen,
    Comma,
    /// A malformed token; the number is the character position just after it.
    Illegal(usize),
    /// A character that starts no token; the number is the character position just after it.
    Unknown(usize),
}

/// A token: its kind and the text that it was read from.
#[derive(Debug, Clone)]
pub struct Token {
    pub token_type: TokenType,
    pub value: String,
}

/// The mathematical form of a [`LiteralToken`], with text as a sequence of characters.
pub enum LiteralTokenV {
    Int(i32),
    BigInt(i64),
    Float(Seq<char>),
    BigFloat(Seq<char>),
    String(Seq<char>),
}

/// The mathematical form of a [`TokenType`].
pub enum TokenTypeV {
    Keyword(Keyword),
    Identifier(Seq<char>),
    QuotedIdentifier(Seq<char>),
    Literal(LiteralTokenV),
    Operator(Operator),
    SemiColon,
    LParen,
    RParen,
    Comma,
    Illegal(usize),
    Unknown(usize),
}

/// The mathematical form of a [`Token`].
pub struct TokenV {
    pub token_type: TokenTypeV,
    pub value: Seq<char>,
}

impl View for LiteralToken {
    type V = LiteralTokenV;

    open spec fn view(&self) -> LiteralTokenV {
        match self {
            LiteralToken::Int(n) => LiteralTokenV::Int(*n),
            LiteralToken::BigInt(n) => LiteralTokenV::BigInt(*n),
            LiteralToken::Float(s) => LiteralTokenV::Float(s@),
            LiteralToken::BigFloat(s) => LiteralTokenV::BigFloat(s@),
            LiteralToken::String(s) => LiteralTokenV::String(s@),
        }
    }
}

impl View for TokenType {
    type V = TokenTypeV;

    open spec fn view(&self) -> TokenTypeV {
        match self {
            TokenType::Keyword(k) => TokenTypeV::Keyword(*k),
            TokenType::Identifier(s) => TokenTypeV::Identifier(s@),
            TokenType::QuotedIdentifier(s) => TokenTypeV::QuotedIdentifier(s@),
            TokenType::Literal(l) => TokenTypeV::Literal(l@),
            TokenType::Operator(o) => TokenTypeV::Operator(*o),
            TokenType::SemiColon => TokenTypeV::SemiColon,
            TokenType::LParen => TokenTypeV::LParen,
            TokenType::RParen => TokenTypeV::RParen,
            TokenType::Comma => TokenTypeV::Comma,
            TokenType::Illegal(p) => TokenTypeV::Illegal(*p),
            TokenType::Unknown(p) => TokenTypeV::Unknown(*p),
        }
    }
}

impl View for Token {
    type V = TokenV;

    open spec fn view(&self) -> TokenV {
        TokenV { token_type: self.token_type@, value: self.value@ }
    }
}

impl DeepView for Keyword {
    type V = Keyword;

    open spec fn deep_view(&self) -> Keyword {
        *self
    }
}

impl DeepView for Operator {
    type V = Operator;

    open spec fn deep_view(&self) -> Operator {
        *self
    }
}

impl DeepView for TokenType {
    type V = TokenTypeV;

    open spec fn deep_view(&self) -> TokenTypeV {
        self@
    }
}

impl Token {
    /// Builds a token of the given kind read from the given text.
    pub fn new(token_type: TokenType, value: String) -> (t: Token)
        ensures
            t@ == (TokenV { token_type: token_type@, value: value@ }),
    {
        Token { token_type, value }
    }
}

/// Copies a literal token.
pub fn clone_literal_token(l: &LiteralToken) -> (r: LiteralToken)
    ensures
        r@ == l@,
{
    match l {
        LiteralToken::Int(n) => LiteralToken::Int(*n),
        LiteralToken::BigInt(n) => LiteralToken::BigInt(*n),
        LiteralToken::Float(s) => LiteralToken::Float(s.clone()),
        LiteralToken::BigFloat(s) => LiteralToken::BigFloat(s.clone()),
        LiteralToken::String(s) => LiteralToken::String(s.clone()),
    }
}

/// Copies a token kind.
pub fn clone_token_type(t: &TokenType) -> (r: TokenType)
    ensures
        r@ == t@,
{
    match t {
        TokenType::Keyword(k) => TokenType::Keyword(*k),
        TokenType::Identifier(s) => TokenType::Identifier(s.clone()),
        TokenType::QuotedIdentifier(s) => TokenType::QuotedIdentifier(s.clone()),
        TokenType::Literal(l) => TokenType::Literal(clone_literal_token(l)),
        TokenType::Operator(o) => TokenType::Operator(*o),
        TokenType::SemiColon => TokenType::SemiColon,
        TokenType::LParen => TokenType::LParen,
        TokenType::RParen => TokenType::RParen,
        TokenType::Comma => TokenType::Comma,
        TokenType::Illegal(p) => TokenType::Illegal(*p),
        TokenType::Unknown(p) => TokenType::Unknown(*p),
    }
}

/// Compares two literal tokens by value.
pub fn literal_token_eq(a: &LiteralToken, b: &LiteralToken) -> (r: bool)
    ensures
        r == (a@ == b@),
{
    match (a, b) {
        (LiteralToken::Int(x), LiteralToken::Int(y)) => *x == *y,
        (LiteralToken::BigInt(x), LiteralToken::BigInt(y)) => *x == *y,
        (LiteralToken::Float(x), LiteralToken::Float(y)) => *x == *y,
        (LiteralToken::BigFloat(x), LiteralToken::BigFloat(y)) => *x == *y,
        (LiteralToken::String(x), LiteralToken::String(y)) => *x == *y,
        _ => false,
    }
}

/// Compares two token kinds by value.
pub fn token_type_eq(a: &TokenType, b: &TokenType) -> (r: bool)
    ensures
        r == (a@ == b@),
{
    match (a, b) {
        (TokenType::Keyword(x), TokenType::Keyword(y)) => *x == *y,
        (TokenType::Identifier(x), TokenType::Identifier(y)) => *x == *y,
        (TokenType::QuotedIdentifier(x), TokenType::QuotedIdentifier(y)) => *x == *y,
        (TokenType::Literal(x), TokenType::Literal(y)) => literal_token_eq(x, y),
        (TokenType::Operator(x), TokenType::Operator(y)) => *x == *y,
        (TokenType::SemiColon, TokenType::SemiColon) => true,
        (TokenType::LParen, TokenType::LParen) => true,
        (TokenType::RParen, TokenType::RParen) => true,
        (TokenType::Comma, TokenType::Comma) => true,
        (TokenType::Illegal(x), TokenType::Illegal(y)) => *x == *y,
        (TokenType::Unknown(x), TokenType::Unknown(y)) => *x == *y,
        _ => false,
    }
}


impl PartialEq for LiteralToken {
    fn eq(&self, other: &Self) -> (r: bool) {
        literal_token_eq(self, other)
    }
}

impl vstd::std_specs::cmp::PartialEqSpecImpl for LiteralToken {
    open spec fn obeys_eq_spec() -> bool {
        true
    }

    open spec fn eq_spec(&self, other: &Self) -> bool {
        self@ == other@
    }
}

impl PartialEq for TokenType {
    fn eq(&self, other: &Self) -> (r: bool) {
        token_type_eq(self, other)
    }
}

impl vstd::std_specs::cmp::PartialEqSpecImpl for TokenType {
    open spec fn obeys_eq_spec() -> bool {
        true
    }

    open spec fn eq_spec(&self, other: &Self) -> bool {
        self@ == other@
    }
}

/// The name of a keyword, as it is spelled in the query language (case aside).
pub open spec fn keyword_name(k: Keyword) -> Seq<char> {
    match k {
        Keyword::Create => "Create"@,
        Keyword::Select => "Select"@,
        Keyword::Insert => "Insert"@,
        Keyword::Update => "Update"@,
        Keyword::Delete => "Delete"@,
        Keyword::Alter => "Alter"@,
        Keyword::Drop => "Drop"@,
        Keyword::Use => "Use"@,
        Keyword::Load => "Load"@,
        Keyword::Table => "Table"@,
        Keyword::Index => "Index"@,
        Keyword::Database => "Database"@,
        Keyword::On => "On"@,
        Keyword::From => "From"@,
        Keyword::Inner => "Inner"@,
        Keyword::Right => "Right"@,
        Keyword::Left => "Left"@,
        Keyword::Full => "Full"@,
        Keyword::Cross => "Cross"@,
        Keyword::Join => "Join"@,
        Keyword::Where => "Where"@,
        Keyword::Into => "Into"@,
        Keyword::Values => "Values"@,
        Keyword::SetKw => "Set"@,
        Keyword::Column => "Column"@,
        Keyword::Add => "Add"@,
        Keyword::Modifier => "Modifier"@,
        Keyword::Unique => "Unique"@,
        Keyword::Nullable => "Nullable"@,
        Keyword::Indexed => "Indexed"@,
        Keyword::Is => "Is"@,
        Keyword::Null => "Null"@,
        Keyword::Not => "Not"@,
        Keyword::And => "And"@,
        Keyword::Or => "Or"@,
        Keyword::True => "True"@,
        Keyword::False => "False"@,
        Keyword::Int => "Int"@,
        Keyword::BigInt => "BigInt"@,
        Keyword::Float => "Float"@,
        Keyword::BigFloat => "BigFloat"@,
        Keyword::String => "String"@,
        Keyword::Bool => "Bool"@,
    }
}

/// The name of a keyword.
pub fn keyword_text(k: Keyword) -> (s: &'static str)
    ensures
        s@ == keyword_name(k),
{
    match k {
        Keyword::Create => "Create",
        Keyword::Select => "Select",
        Keyword::Insert => "Insert",
        Keyword::Update => "Update",
        Keyword::Delete => "Delete",
        Keyword::Alter => "Alter",
        Keyword::Drop => "Drop",
        Keyword::Use => "Use",
        Keyword::Load => "Load",
        Keyword::Table => "Table",
        Keyword::Index => "Index",
        Keyword::Database => "Database",
        Keyword::On => "On",
        Keyword::From => "From",
        Keyword::Inner => "Inner",
        Keyword::Right => "Right",
        Keyword::Left => "Left",
        Keyword::Full => "Full",
        Keyword::Cross => "Cross",
        Keyword::Join => "Join",
        Keyword::Where => "Where",
        Keyword::Into => "Into",
        Keyword::Values => "Values",
        Keyword::SetKw => "Set",
        Keyword::Column => "Column",
        Keyword::Add => "Add",
        Keyword::Modifier => "Modifier",
        Keyword::Unique => "Unique",
        Keyword::Nullable => "Nullable",
        Keyword::Indexed => "Indexed",
        Keyword::Is => "Is",
        Keyword::Null => "Null",
        Keyword::Not => "Not",
        Keyword::And => "And",
        Keyword::Or => "Or",
        Keyword::True => "True",
        Keyword::False => "False",
        Keyword::Int => "Int",
        Keyword::BigInt => "BigInt",
        Keyword::Float => "Float",
        Keyword::BigFloat => "BigFloat",
        Keyword::String => "String",
        Keyword::Bool => "Bool",
    }
}

/// Every keyword, in declaration order.
pub open spec fn all_keywords() -> Seq<Keyword> {
    seq![
        Keyword::Create,
        Keyword::Select,
        Keyword::Insert,
        Keyword::Update,
        Keyword::Delete,
        Keyword::Alter,
        Keyword::Drop,
        Keyword::Use,
        Keyword::Load,
        Keyword::Table,
        Keyword::Index,
        Keyword::Database,
        Keyword::On,
        Keyword::From,
        Keyword::Inner,
        Keyword::Right,
        Keyword::Left,
        Keyword::Full,
        Keyword::Cross,
        Keyword::Join,
        Keyword::Where,
        Keyword::Into,
        Keyword::Values,
        Keyword::SetKw,
        Keyword::Column,
        Keyword::Add,
        Keyword::Modifier,
        Keyword::Unique,
        Keyword::Nullable,
        Keyword::Indexed,
        Keyword::Is,
        Keyword::Null,
        Keyword::Not,
        Keyword::And,
        Keyword::Or,
        Keyword::True,
        Keyword::False,
        Keyword::Int,
        Keyword::BigInt,
        Keyword::Float,
        Keyword::BigFloat,
        Keyword::String,
        Keyword::Bool
    ]
}

/// Every keyword, in declaration order.
pub fn all_keywords_vec() -> (v: Vec<Keyword>)
    ensures
        v@ == all_keywords(),
{
    let mut v: Vec<Keyword> = Vec::new();
    v.push(Keyword::Create);
    v.push(Keyword::Select);
    v.push(Keyword::Insert);
    v.push(Keyword::Update);
    v.push(Keyword::Delete);
    v.push(Keyword::Alter);
    v.push(Keyword::Drop);
    v.push(Keyword::Use);
    v.push(Keyword::Load);
    v.push(Keyword::Table);
    v.push(Keyword::Index);
    v.push(Keyword::Database);
    v.push(Keyword::On);
    v.push(Keyword::From);
    v.push(Keyword::Inner);
    v.push(Keyword::Right);
    v.push(Keyword::Left);
    v.push(Keyword::Full);
    v.push(Keyword::Cross);
    v.push(Keyword::Join);
    v.push(Keyword::Where);
    v.push(Keyword::Into);
    v.push(Keyword::Values);
    v.push(Keyword::SetKw);
    v.push(Keyword::Column);
    v.push(Keyword::Add);
    v.push(Keyword::Modifier);
    v.push(Keyword::Unique);
    v.push(Keyword::Nullable);
    v.push(Keyword::Indexed);
    v.push(Keyword::Is);
    v.push(Keyword::Null);
    v.push(Keyword::Not);
    v.push(Keyword::And);
    v.push(Keyword::Or);
    v.push(Keyword::True);
    v.push(Keyword::False);
    v.push(Keyword::Int);
    v.push(Keyword::BigInt);
    v.push(Keyword::Float);
    v.push(Keyword::BigFloat);
    v.push(Keyword::String);
    v.push(Keyword::Bool);
    v
}


/// Left and right binding powers of a token used as an infix operator.
///
/// `OR` binds loosest, then `AND`, then the comparisons, then `+` and `-`,
/// then `*`, `/` and `%`; `^` binds tightest and groups to the right.
pub open spec fn token_bp(t: TokenTypeV) -> Option<(u8, u8)> {
    match t {
        TokenTypeV::Keyword(Keyword::Or) => Some((1u8, 2u8)),
        TokenTypeV::Keyword(Keyword::And) => Some((3u8, 4u8)),
        TokenTypeV::Operator(Operator::Equals) => Some((7u8, 8u8)),
        TokenTypeV::Operator(Operator::NotEq) => Some((7u8, 8u8)),
        TokenTypeV::Operator(Operator::Lt) => Some((7u8, 8u8)),
        TokenTypeV::Operator(Operator::Lte) => Some((7u8, 8u8)),
        TokenTypeV::Operator(Operator::Gt) => Some((7u8, 8u8)),
        TokenTypeV::Operator(Operator::Gte) => Some((7u8, 8u8)),
        TokenTypeV::Operator(Operator::Plus) => Some((9u8, 10u8)),
        TokenTypeV::Operator(Operator::Minus) => Some((9u8, 10u8)),
        TokenTypeV::Operator(Operator::Star) => Some((11u8, 12u8)),
        TokenTypeV::Operator(Operator::Divide) => Some((11u8, 12u8)),
        TokenTypeV::Operator(Operator::Modulus) => Some((11u8, 12u8)),
        TokenTypeV::Operator(Operator::Pow) => Some((14u8, 13u8)),
        _ => None,
    }
}

/// Left and right binding powers of a token used as an infix operator.
pub fn get_token_bp(t: &TokenType) -> (r: Option<(u8, u8)>)
    ensures
        r == token_bp(t@),
{
    match t {
        TokenType::Keyword(Keyword::Or) => Some((1u8, 2u8)),
        TokenType::Keyword(Keyword::And) => Some((3u8, 4u8)),
        TokenType::Operator(Operator::Equals) => Some((7u8, 8u8)),
        TokenType::Operator(Operator::NotEq) => Some((7u8, 8u8)),
        TokenType::Operator(Operator::Lt) => Some((7u8, 8u8)),
        TokenType::Operator(Operator::Lte) => Some((7u8, 8u8)),
        TokenType::Operator(Operator::Gt) => Some((7u8, 8u8)),
        TokenType::Operator(Operator::Gte) => Some((7u8, 8u8)),
        TokenType::Operator(Operator::Plus) => Some((9u8, 10u8)),
        TokenType::Operator(Operator::Minus) => Some((9u8, 10u8)),
        TokenType::Operator(Operator::Star) => Some((11u8, 12u8)),
        TokenType::Operator(Operator::Divide) => Some((11u8, 12u8)),
        TokenType::Operator(Operator::Modulus) => Some((11u8, 12u8)),
        TokenType::Operator(Operator::Pow) => Some((14u8, 13u8)),
        _ => None,
    }
}

/// Binding power of a token used as a prefix operator.
pub open spec fn prefix_bp(t: TokenTypeV) -> Option<u8> {
    match t {
        TokenTypeV::Keyword(Keyword::Not) => Some(5u8),
        TokenTypeV::Operator(Operator::Minus) => Some(15u8),
        TokenTypeV::Operator(Operator::Plus) => Some(15u8),
        _ => None,
    }
}

/// Binding power of a token used as a prefix operator.
pub fn get_prefix_bp(t: &TokenType) -> (r: Option<u8>)
    ensures
        r == prefix_bp(t@),
{
    match t {
        TokenType::Keyword(Keyword::Not) => Some(5u8),
        TokenType::Operator(Operator::Minus) => Some(15u8),
        TokenType::Operator(Operator::Plus) => Some(15u8),
        _ => None,
    }
}

} // verus!
