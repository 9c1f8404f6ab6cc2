//! Version 2 of the schema format: tables, and indexes kept beside them.
use vstd::prelude::*;

use crate::dbms::format::lemma_v2_migration_keeps_names_distinct;
use crate::dbms::format::versions::names_distinct;
use crate::dbms::format::versions::v1::{TableFormatV1, TableFormatV1V};
use crate::dbms::format::versions::v3::{
    DBFormatV3, DBFormatV3V, IndexFormatV3, IndexFormatV3V, TableFormatV3, TableFormatV3V,
};

verus! {

/// The schema of a database, as version 2 stores it.
#[derive(Debug)]
pub struct DBFormatV2 {
    pub name: String,
    /// Table names, each with its format
    pub tables: Vec<(String, TableFormatV1)>,
    /// Index names, each with its format
    pub indexes: Vec<(String, IndexFormatV1)>,
}

/// An index, as version 2 stores it: the table and the column it covers.
#[derive(Debug)]
pub struct IndexFormatV1 {
    pub target_table: String,
    pub target_column: String,
}

/// The mathematical form of a [`DBFormatV2`].
pub struct DBFormatV2V {
    pub name: Seq<char>,
    pub tables: Seq<(Seq<char>, TableFormatV1V)>,
    pub indexes: Seq<(Seq<char>, IndexFormatV1V)>,
}

/// The mathematical form of an [`IndexFormatV1`].
pub struct IndexFormatV1V {
    pub target_table: Seq<char>,
    pub target_column: Seq<char>,
}

impl DeepView for IndexFormatV1 {
    type V = IndexFormatV1V;

    open spec fn deep_view(&self) -> IndexFormatV1V {
        IndexFormatV1V { target_table: self.target_table@, target_column: self.target_column@ }
    }
}

impl DeepView for DBFormatV2 {
    type V = DBFormatV2V;

    open spec fn deep_view(&self) -> DBFormatV2V {
        DBFormatV2V {
            name: self.name@,
            tables: self.tables.deep_view(),
            indexes: self.indexes.deep_view(),
        }
    }
}

impl DBFormatV2V {
    /// Whether no table name, no column name within a table and no index name occurs twice.
    pub open spec fn wf(self) -> bool {
        &&& names_distinct(self.tables)
        &&& forall|i: int| 0 <= i < self.tables.len() ==> names_distinct(#[trigger] self.tables[i].1.cols)
        &&& names_distinct(self.indexes)
    }
}

/// The indexes of `indexes` that cover table `table`, in order, in the form
/// version 3 stores them under their table.
pub open spec fn indexes_of(indexes: Seq<(Seq<char>, IndexFormatV1V)>, table: Seq<char>) -> Seq<
    (Seq<char>, IndexFormatV3V),
>
    decreases indexes.len(),
{
    if indexes.len() == 0 {
        Seq::empty()
    } else {
        let prev = indexes_of(indexes.drop_last(), table);
        let (name, idx) = indexes.last();
        if idx.target_table == table {
            prev.push((name, IndexFormatV3V { index_name: name, target_column: idx.target_column }))
        } else {
            prev
        }
    }
}

/// A version 2 table in the form of version 3: its columns, and the indexes that cover it.
pub open spec fn migrated_table(
    name: Seq<char>,
    table: TableFormatV1V,
    indexes: Seq<(Seq<char>, IndexFormatV1V)>,
) -> TableFormatV3V {
    TableFormatV3V { cols: table.cols, indexes: indexes_of(indexes, name) }
}

/// What migrating a version 2 schema gives: each table, in order, with the
/// indexes that cover it moved under it. The database name is dropped.
pub open spec fn migrated_v2(f: DBFormatV2V) -> DBFormatV3V {
    DBFormatV3V {
        tables: f.tables.map_values(
            |t: (Seq<char>, TableFormatV1V)| (t.0, migrated_table(t.0, t.1, f.indexes)),
        ),
    }
}

/// The indexes of `indexes` that cover table `table`, in order.
fn indexes_for_table(indexes: &Vec<(String, IndexFormatV1)>, table: &String) -> (r: Vec<
    (String, IndexFormatV3),
>)
    ensures
        r.deep_view() == indexes_of(indexes.deep_view(), table@),
{
    let ghost iv = indexes.deep_view();
    let mut r: Vec<(String, IndexFormatV3)> = Vec::new();
    let mut i: usize = 0;
    assert(r.deep_view() =~= indexes_of(iv.take(0), table@));
    while i < indexes.len()
        invariant
            i <= indexes@.len(),
            iv == indexes.deep_view(),
            r.deep_view() == indexes_of(iv.take(i as int), table@),
        decreases indexes@.len() - i,
    {
        let (index_name, idx_fmt_v1) = &indexes[i];
        assert(iv.take(i as int + 1).drop_last() =~= iv.take(i as int));
        let ghost before = r.deep_view();
        if idx_fmt_v1.target_table == *table {
            let entry = (
                index_name.clone(),
                IndexFormatV3 {
                    index_name: index_name.clone(),
                    target_column: idx_fmt_v1.target_column.clone(),
                },
            );
            let ghost ev = entry.deep_view();
            r.push(entry);
            assert(r.deep_view() =~= before.push(ev));
        }
        i += 1;
    }
    assert(iv.take(indexes@.len() as int) =~= iv);
    r
}

impl DBFormatV2 {
    /// Migrates this schema to version 3, which keeps each table's indexes
    /// with the table and no longer stores the database name.
    pub fn migrate(self) -> (r: DBFormatV3)
        ensures
            r.deep_view() == migrated_v2(self.deep_view()),
            self.deep_view().wf() ==> r.deep_view().wf(),
    {
        proof {
            if self.deep_view().wf() {
                lemma_v2_migration_keeps_names_distinct(self.deep_view());
            }
        }
        let ghost f = self.deep_view();
        let DBFormatV2 { name: _, tables, indexes } = self;
        let ghost orig = tables@;
        let mut rest = tables;
        let mut out: Vec<(String, TableFormatV3)> = Vec::new();
        let n = rest.len();
        let mut k: usize = 0;
        while k < n
            invariant
                k <= n == orig.len(),
                rest@ == orig.subrange(k as int, n as int),
                out@.len() == k,
                f.tables == orig.map_values(|t: (String, TableFormatV1)| t.deep_view()),
                f.indexes == indexes.deep_view(),
                forall|j: int|
                    0 <= j < k ==> #[trigger] out@[j].deep_view() == (
                        orig[j].0@,
                        migrated_table(orig[j].0@, orig[j].1.deep_view(), f.indexes),
                    ),
            decreases n - k,
        {
            let (tbl_name, tbl_fmt_v1) = rest.remove(0);
            let table_indexes = indexes_for_table(&indexes, &tbl_name);
            let entry = (tbl_name, TableFormatV3 { cols: tbl_fmt_v1.cols, indexes: table_indexes });
            out.push(entry);
            k += 1;
            assert(rest@ =~= orig.subrange(k as int, n as int));
        }
        let r = DBFormatV3 { tables: out };
        assert(r.deep_view().tables =~= migrated_v2(f).tables);
        r
    }
}

} // verus!
