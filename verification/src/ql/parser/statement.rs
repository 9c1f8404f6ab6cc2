use vstd::prelude::*;

use crate::ql::parser::statements::alter_stmt::{AlterStatement, AlterStatementV};
use crate::ql::parser::statements::create_stmt::{CreateStatement, CreateStatementV};
use crate::ql::parser::statements::delete_stmt::{DeleteStatement, DeleteStatementV};
use crate::ql::parser::statements::drop_stmt::{DropStatement, DropStatementV};
use crate::ql::parser::statements::insert_stmt::{InsertStatement, InsertStatementV};
use crate::ql::parser::statements::load_stmt::{LoadStatement, LoadStatementV};
use crate::ql::parser::statements::select_stmt::{SelectStatement, SelectStatementV};
use crate::ql::parser::statements::update_stmt::{UpdateStatement, UpdateStatementV};
use crate::ql::parser::statements::use_stmt::{UseStatement, UseStatementV};

verus! {

/// A statement of the query language.
#[derive(Debug)]
pub enum QLStatement {
    Use(UseStatement),
    Drop(DropStatement),
    Create(CreateStatement),
    Load(LoadStatement),
    Insert(InsertStatement),
    Alter(AlterStatement),
    Delete(DeleteStatement),
    Update(UpdateStatement),
    Select(SelectStatement),
}

/// The mathematical form of a [`QLStatement`].
pub enum QLStatementV {
    Use(UseStatementV),
    Drop(DropStatementV),
    Create(CreateStatementV),
    Load(LoadStatementV),
    Insert(InsertStatementV),
    Alter(AlterStatementV),
    Delete(DeleteStatementV),
    Update(UpdateStatementV),
    Select(SelectStatementV),
}

impl DeepView for QLStatement {
    type V = QLStatementV;

    open spec fn deep_view(&self) -> QLStatementV {
        match self {
            QLStatement::Use(s) => QLStatementV::Use(s.deep_view()),
            QLStatement::Drop(s) => QLStatementV::Drop(s.deep_view()),
            QLStatement::Create(s) => QLStatementV::Create(s.deep_view()),
            QLStatement::Load(s) => QLStatementV::Load(s.deep_view()),
            QLStatement::Insert(s) => QLStatementV::Insert(s.deep_view()),
            QLStatement::Alter(s) => QLStatementV::Alter(s.deep_view()),
            QLStatement::Delete(s) => QLStatementV::Delete(s.deep_view()),
            QLStatement::Update(s) => QLStatementV::Update(s.deep_view()),
            QLStatement::Select(s) => QLStatementV::Select(s.deep_view()),
        }
    }
}

} // verus!
