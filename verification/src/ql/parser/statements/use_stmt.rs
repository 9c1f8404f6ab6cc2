use vstd::prelude::*;

verus! {

/// Selects the database that later statements act on.
#[derive(Debug)]
pub struct UseStatement {
    pub target: String,
}

pub struct UseStatementV {
    pub target: Seq<char>,
}

impl DeepView for UseStatement {
    type V = UseStatementV;

    open spec fn deep_view(&self) -> UseStatementV {
        UseStatementV { target: self.target@ }
    }
}

} // verus!
