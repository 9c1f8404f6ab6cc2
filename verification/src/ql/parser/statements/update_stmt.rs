use vstd::prelude::*;

use crate::ql::parser::expression::literal::{Literal, LiteralV};
use crate::ql::parser::expression::{Expr, ExprV};

verus! {

#[derive(Debug)]
pub struct UpdateStatement {
    pub target: String,
    pub set: Vec<(String, Literal)>,
    pub where_cond: Option<Expr>,
}

pub struct UpdateStatementV {
    pub target: Seq<char>,
    pub set: Seq<(Seq<char>, LiteralV)>,
    pub where_cond: Option<ExprV>,
}

impl DeepView for UpdateStatement {
    type V = UpdateStatementV;

    open spec fn deep_view(&self) -> UpdateStatementV {
        UpdateStatementV {
            target: self.target@,
            set: self.set.deep_view(),
            where_cond: self.where_cond.deep_view(),
        }
    }
}

} // verus!
