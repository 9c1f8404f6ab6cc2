use vstd::prelude::*;

use crate::ql::parser::error::{QLParseError, QLParseErrorV};
use crate::ql::tokenizer::token::Keyword;

verus! {

/// The type of a table column, as a `CREATE TABLE` statement names it.
#[derive(Debug, Clone, Copy, PartialEq, Eq, Structural)]
pub enum ColumnType {
    Int,
    BigInt,
    Float,
    BigFloat,
    Bool,
    String,
}

impl DeepView for ColumnType {
    type V = ColumnType;

    open spec fn deep_view(&self) -> ColumnType {
        *self
    }
}

/// The column type that a keyword names.
pub open spec fn column_type_of(k: Keyword) -> Result<ColumnType, QLParseErrorV> {
    match k {
        Keyword::Int => Ok(ColumnType::Int),
        Keyword::BigInt => Ok(ColumnType::BigInt),
        Keyword::Float => Ok(ColumnType::Float),
        Keyword::BigFloat => Ok(ColumnType::BigFloat),
        Keyword::String => Ok(ColumnType::String),
        Keyword::Bool => Ok(ColumnType::Bool),
        _ => Err(QLParseErrorV::KeywordIsNotColumnType(k)),
    }
}

impl ColumnType {
    /// The column type that a keyword names.
    pub fn try_from(value: Keyword) -> (r: Result<ColumnType, QLParseError>)
        ensures
            match r {
                Ok(t) => column_type_of(value) == Ok::<ColumnType, QLParseErrorV>(t),
                Err(e) => column_type_of(value) == Err::<ColumnType, QLParseErrorV>(e@),
            },
    {
        match value {
            Keyword::Int => Ok(ColumnType::Int),
            Keyword::BigInt => Ok(ColumnType::BigInt),
            Keyword::Float => Ok(ColumnType::Float),
            Keyword::BigFloat => Ok(ColumnType::BigFloat),
            Keyword::String => Ok(ColumnType::String),
            Keyword::Bool => Ok(ColumnType::Bool),
            _ => Err(QLParseError::KeywordIsNotColumnType(value)),
        }
    }
}

} // verus!
