use vstd::prelude::*;

verus! {

#[derive(Debug)]
pub struct DropStatement {
    pub drop_type: DropType,
    pub target: String,
}

#[derive(Debug, Clone, Copy, PartialEq, Eq, Structural)]
pub enum DropType {
    Table,
    Database,
    Index,
}

pub struct DropStatementV {
    pub drop_type: DropType,
    pub target: Seq<char>,
}

impl DeepView for DropStatement {
    type V = DropStatementV;

    open spec fn deep_view(&self) -> DropStatementV {
        DropStatementV { drop_type: self.drop_type, target: self.target@ }
    }
}

} // verus!
