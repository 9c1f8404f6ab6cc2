use vstd::prelude::*;

verus! {

/// Loads rows into a table from a file.
#[derive(Debug)]
pub struct LoadStatement {
    pub target: String,
    pub file_path: String,
}

pub struct LoadStatementV {
    pub target: Seq<char>,
    pub file_path: Seq<char>,
}

impl DeepView for LoadStatement {
    type V = LoadStatementV;

    open spec fn deep_view(&self) -> LoadStatementV {
        LoadStatementV { target: self.target@, file_path: self.file_path@ }
    }
}

} // verus!
