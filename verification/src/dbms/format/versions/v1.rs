//! Version 1 of the schema format: tables and their columns.
use vstd::prelude::*;

use crate::dbms::format::lemma_v1_migration_keeps_names_distinct;
use crate::dbms::format::versions::names_distinct;
use crate::dbms::format::versions::v2::{DBFormatV2, DBFormatV2V, IndexFormatV1};

verus! {

/// The schema of a database, as version 1 stores it.
#[derive(Debug)]
pub struct DBFormatV1 {
    pub name: String,
    /// Table names, each with its format
    pub tables: Vec<(String, TableFormatV1)>,
}

/// The format of a table, as versions 1 and 2 store it.
#[derive(Debug)]
pub struct TableFormatV1 {
    pub name: String,
    /// Column names, each with its type
    pub cols: Vec<(String, ColumnTypeV1)>,
}

/// The type of a column in the stored schema.
#[derive(Debug, Clone, Copy, PartialEq, Eq, Structural)]
pub enum ColumnTypeV1 {
    Int,
    BigInt,
    Float,
    BigFloat,
    Bool,
    String,
}

/// The mathematical form of a [`DBFormatV1`].
pub struct DBFormatV1V {
    pub name: Seq<char>,
    pub tables: Seq<(Seq<char>, TableFormatV1V)>,
}

/// The mathematical form of a [`TableFormatV1`].
pub struct TableFormatV1V {
    pub name: Seq<char>,
    pub cols: Seq<(Seq<char>, ColumnTypeV1)>,
}

impl DeepView for ColumnTypeV1 {
    type V = ColumnTypeV1;

    open spec fn deep_view(&self) -> ColumnTypeV1 {
        *self
    }
}

impl DeepView for TableFormatV1 {
    type V = TableFormatV1V;

    open spec fn deep_view(&self) -> TableFormatV1V {
        TableFormatV1V { name: self.name@, cols: self.cols.deep_view() }
    }
}

impl DeepView for DBFormatV1 {
    type V = DBFormatV1V;

    open spec fn deep_view(&self) -> DBFormatV1V {
        DBFormatV1V { name: self.name@, tables: self.tables.deep_view() }
    }
}

impl DBFormatV1V {
    /// Whether no table name, and no column name within a table, occurs twice.
    pub open spec fn wf(self) -> bool {
        &&& names_distinct(self.tables)
        &&& forall|i: int| 0 <= i < self.tables.len() ==> names_distinct(#[trigger] self.tables[i].1.cols)
    }
}

/// What migrating a version 1 schema gives: the same name and tables, and no indexes.
pub open spec fn migrated_v1(f: DBFormatV1V) -> DBFormatV2V {
    DBFormatV2V { name: f.name, tables: f.tables, indexes: Seq::empty() }
}

impl DBFormatV1 {
    /// Migrates this schema to version 2, which adds indexes (none yet).
    pub fn migrate(self) -> (r: DBFormatV2)
        ensures
            r.deep_view() == migrated_v1(self.deep_view()),
            self.deep_view().wf() ==> r.deep_view().wf(),
    {
        proof {
            if self.deep_view().wf() {
                lemma_v1_migration_keeps_names_distinct(self.deep_view());
            }
        }
        let indexes: Vec<(String, IndexFormatV1)> = Vec::new();
        assert(indexes.deep_view() =~= Seq::empty());
        DBFormatV2 { name: self.name, tables: self.tables, indexes }
    }
}

} // verus!
