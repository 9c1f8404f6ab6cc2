use vstd::prelude::*;

use crate::ql::parser::expression::{Expr, ExprV};

verus! {

#[derive(Debug)]
pub struct SelectStatement {
    /// If `None` then all columns are selected
    pub filter_cols: Option<Vec<String>>,
    pub primary_table: String,
    pub where_clause: Option<Expr>,
    /// The joined tables, in order, with how each is joined; the tables
    /// listed after the first one with commas come first, as cross joins
    pub joins: Vec<(String, JoinType)>,
}

/// How a table is joined, with the join condition where there is one.
#[derive(Debug)]
pub enum JoinType {
    Inner(Expr),
    Right(Expr),
    Left(Expr),
    Full(Expr),
    Cross,
}

pub struct SelectStatementV {
    pub filter_cols: Option<Seq<Seq<char>>>,
    pub primary_table: Seq<char>,
    pub where_clause: Option<ExprV>,
    pub joins: Seq<(Seq<char>, JoinTypeV)>,
}

pub enum JoinTypeV {
    Inner(ExprV),
    Right(ExprV),
    Left(ExprV),
    Full(ExprV),
    Cross,
}

impl DeepView for JoinType {
    type V = JoinTypeV;

    open spec fn deep_view(&self) -> JoinTypeV {
        match self {
            JoinType::Inner(e) => JoinTypeV::Inner(e.deep_view()),
            JoinType::Right(e) => JoinTypeV::Right(e.deep_view()),
            JoinType::Left(e) => JoinTypeV::Left(e.deep_view()),
            JoinType::Full(e) => JoinTypeV::Full(e.deep_view()),
            JoinType::Cross => JoinTypeV::Cross,
        }
    }
}

impl DeepView for SelectStatement {
    type V = SelectStatementV;

    open spec fn deep_view(&self) -> SelectStatementV {
        SelectStatementV {
            filter_cols: self.filter_cols.deep_view(),
            primary_table: self.primary_table@,
            where_clause: self.where_clause.deep_view(),
            joins: self.joins.deep_view(),
        }
    }
}

} // verus!
