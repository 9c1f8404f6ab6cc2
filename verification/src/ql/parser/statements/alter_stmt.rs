use vstd::prelude::*;

use crate::ql::parser::column_type::ColumnType;
use crate::ql::parser::statements::create_stmt::{ColumnModifiers, ColumnModifiersV};

verus! {

#[derive(Debug)]
pub struct AlterStatement {
    pub object: AlterObject,
    pub object_name: String,
    pub mode: AlterMode,
    pub action: AlterAction,
}

#[derive(Debug, Clone, Copy, PartialEq, Eq, Structural)]
pub enum AlterObject {
    Column,
    Table,
}

#[derive(Debug, Clone, Copy, PartialEq, Eq, Structural)]
pub enum AlterMode {
    Add,
    Drop,
}

#[derive(Debug)]
pub enum AlterAction {
    AddColumn(String, ColumnType, ColumnModifiers),
    DropColumn(String),
    /// Mode is infered from AlterStatement.mode
    Modifier(AlterActionModifiers),
}

#[derive(Debug, Clone, Copy, PartialEq, Eq, Structural)]
pub enum AlterActionModifiers {
    Unique,
    Nullable,
}

pub struct AlterStatementV {
    pub object: AlterObject,
    pub object_name: Seq<char>,
    pub mode: AlterMode,
    pub action: AlterActionV,
}

pub enum AlterActionV {
    AddColumn(Seq<char>, ColumnType, ColumnModifiersV),
    DropColumn(Seq<char>),
    Modifier(AlterActionModifiers),
}

impl DeepView for AlterAction {
    type V = AlterActionV;

    open spec fn deep_view(&self) -> AlterActionV {
        match self {
            AlterAction::AddColumn(n, t, m) => AlterActionV::AddColumn(n@, *t, m.deep_view()),
            AlterAction::DropColumn(n) => AlterActionV::DropColumn(n@),
            AlterAction::Modifier(m) => AlterActionV::Modifier(*m),
        }
    }
}

impl DeepView for AlterStatement {
    type V = AlterStatementV;

    open spec fn deep_view(&self) -> AlterStatementV {
        AlterStatementV {
            object: self.object,
            object_name: self.object_name@,
            mode: self.mode,
            action: self.action.deep_view(),
        }
    }
}

} // verus!
