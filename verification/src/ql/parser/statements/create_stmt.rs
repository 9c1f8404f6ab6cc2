use vstd::prelude::*;

use crate::ql::parser::column_type::ColumnType;

verus! {

#[derive(Debug)]
pub struct CreateStatement {
    pub create_type: CreateType,
    pub name: String,
}

#[derive(Debug)]
pub struct ColumnModifiers {
    pub nullable: bool,
    pub unique: bool,
    pub indexed: Option<String>,
}

#[derive(Debug)]
pub enum CreateType {
    /// Contains the identifier of the index: `table_name.column_name`
    Index(String),
    /// Contains a list of columns in the form of `(name, type, modifiers)`
    Table(Vec<(String, ColumnType, ColumnModifiers)>),
    Database,
}

pub struct CreateStatementV {
    pub create_type: CreateTypeV,
    pub name: Seq<char>,
}

pub struct ColumnModifiersV {
    pub nullable: bool,
    pub unique: bool,
    pub indexed: Option<Seq<char>>,
}

pub enum CreateTypeV {
    Index(Seq<char>),
    Table(Seq<(Seq<char>, ColumnType, ColumnModifiersV)>),
    Database,
}

impl DeepView for ColumnModifiers {
    type V = ColumnModifiersV;

    open spec fn deep_view(&self) -> ColumnModifiersV {
        ColumnModifiersV {
            nullable: self.nullable,
            unique: self.unique,
            indexed: self.indexed.deep_view(),
        }
    }
}

impl DeepView for CreateType {
    type V = CreateTypeV;

    open spec fn deep_view(&self) -> CreateTypeV {
        match self {
            CreateType::Index(s) => CreateTypeV::Index(s@),
            CreateType::Table(cols) => CreateTypeV::Table(cols.deep_view()),
            CreateType::Database => CreateTypeV::Database,
        }
    }
}

impl DeepView for CreateStatement {
    type V = CreateStatementV;

    open spec fn deep_view(&self) -> CreateStatementV {
        CreateStatementV { create_type: self.create_type.deep_view(), name: self.name@ }
    }
}

} // verus!
