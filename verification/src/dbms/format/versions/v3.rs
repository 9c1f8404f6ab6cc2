//! Version 3 of the schema format, the current one: tables with their columns and indexes.
use vstd::prelude::*;

use crate::dbms::format::versions::names_distinct;
use crate::dbms::format::versions::v1::ColumnTypeV1;

verus! {

/// The schema of a database, in the current format version.
#[derive(Debug)]
pub struct DBFormatV3 {
    /// Table names, each with its format
    pub tables: Vec<(String, TableFormatV3)>,
}

/// The format of a table: its columns and the indexes on them.
#[derive(Debug)]
pub struct TableFormatV3 {
    /// Column names, each with its type
    pub cols: Vec<(String, ColumnTypeV1)>,
    /// Index names, each with its format
    pub indexes: Vec<(String, IndexFormatV3)>,
}

/// An index of a table: its name and the column it covers.
#[derive(Debug)]
pub struct IndexFormatV3 {
    pub index_name: String,
    pub target_column: String,
}

/// The mathematical form of a [`DBFormatV3`].
pub struct DBFormatV3V {
    pub tables: Seq<(Seq<char>, TableFormatV3V)>,
}

/// The mathematical form of a [`TableFormatV3`].
pub struct TableFormatV3V {
    pub cols: Seq<(Seq<char>, ColumnTypeV1)>,
    pub indexes: Seq<(Seq<char>, IndexFormatV3V)>,
}

/// The mathematical form of an [`IndexFormatV3`].
pub struct IndexFormatV3V {
    pub index_name: Seq<char>,
    pub target_column: Seq<char>,
}

impl DBFormatV3V {
    /// Whether no table name, and no column or index name within a table, occurs twice.
    pub open spec fn wf(self) -> bool {
        &&& names_distinct(self.tables)
        &&& forall|i: int| 0 <= i < self.tables.len() ==> names_distinct(#[trigger] self.tables[i].1.cols)
        &&& forall|i: int| 0 <= i < self.tables.len() ==> names_distinct(#[trigger] self.tables[i].1.indexes)
    }
}

impl DeepView for IndexFormatV3 {
    type V = IndexFormatV3V;

    open spec fn deep_view(&self) -> IndexFormatV3V {
        IndexFormatV3V { index_name: self.index_name@, target_column: self.target_column@ }
    }
}

impl DeepView for TableFormatV3 {
    type V = TableFormatV3V;

    open spec fn deep_view(&self) -> TableFormatV3V {
        TableFormatV3V { cols: self.cols.deep_view(), indexes: self.indexes.deep_view() }
    }
}

impl DeepView for DBFormatV3 {
    type V = DBFormatV3V;

    open spec fn deep_view(&self) -> DBFormatV3V {
        DBFormatV3V { tables: self.tables.deep_view() }
    }
}

} // verus!
