use vstd::prelude::*;

use crate::ql::parser::expression::literal::{Literal, LiteralV};

verus! {

#[derive(Debug)]
pub struct InsertStatement {
    /// The name of the table we are inserting into
    pub name: String,
    pub columns: Option<Vec<String>>,
    pub values: Vec<Vec<Literal>>,
}

pub struct InsertStatementV {
    pub name: Seq<char>,
    pub columns: Option<Seq<Seq<char>>>,
    pub values: Seq<Seq<LiteralV>>,
}

impl DeepView for InsertStatement {
    type V = InsertStatementV;

    open spec fn deep_view(&self) -> InsertStatementV {
        InsertStatementV {
            name: self.name@,
            columns: self.columns.deep_view(),
            values: self.values.deep_view(),
        }
    }
}

} // verus!
