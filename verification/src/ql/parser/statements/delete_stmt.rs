use vstd::prelude::*;

use crate::ql::parser::expression::{Expr, ExprV};

verus! {

#[derive(Debug)]
pub struct DeleteStatement {
    pub name: String,
    pub where_cond: Expr,
}

pub struct DeleteStatementV {
    pub name: Seq<char>,
    pub where_cond: ExprV,
}

impl DeepView for DeleteStatement {
    type V = DeleteStatementV;

    open spec fn deep_view(&self) -> DeleteStatementV {
        DeleteStatementV { name: self.name@, where_cond: self.where_cond.deep_view() }
    }
}

} // verus!
