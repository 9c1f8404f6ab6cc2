//! The `db_fmt` file that holds a database's schema:
//!
//! ```text
//! magic:     b"dbfm"
//! version:   u32, little endian
//! data_hash: u64, big endian; the XXH3 hash of the data
//! data_size: u64, little endian
//! data:      data_size bytes, the encoded schema
//! ```
pub mod versions;

pub use versions::v3::DBFormatV3 as DBFormat;

use vstd::bytes::{
    lemma_auto_spec_u32_to_from_le_bytes, lemma_auto_spec_u64_to_from_le_bytes,
    spec_u32_from_le_bytes, spec_u32_to_le_bytes, spec_u64_from_le_bytes, spec_u64_to_le_bytes,
    u32_from_le_bytes, u32_to_le_bytes, u64_from_le_bytes, u64_to_le_bytes,
};
use vstd::prelude::*;
use vstd::slice::{slice_subrange, slice_to_vec};

use crate::dbms::error::{DBFormatLoadError, DBFormatLoadErrorV};
use crate::dbms::format::versions::names_distinct;
use crate::dbms::format::versions::v1::{migrated_v1, DBFormatV1, DBFormatV1V};
use crate::dbms::format::versions::v2::{
    indexes_of, migrated_v2, DBFormatV2, DBFormatV2V, IndexFormatV1V,
};
use crate::dbms::format::versions::v3::{DBFormatV3V, TableFormatV3V};
use crate::util::bytes::{
    lemma_u64_be_roundtrip, starts_with, spec_u64_from_be_bytes, spec_u64_to_be_bytes, u64_from_be_bytes,
    u64_to_be_bytes,
};
use crate::util::checksum::{xxh3_64, xxh3_64_of};
use crate::util::errors::{unexpected_eof, UtilReadError, UtilReadErrorV};

verus! {

/// The name of the format file inside a database's folder.
pub const DB_FORMAT_FILENAME: &'static str = "db_fmt";

/// The version that saving writes.
pub const DB_FORMAT_CURRENT_VERSION: u32 = 3;

/// The bytes that open a format file: `dbfm`.
pub open spec fn db_format_magic() -> Seq<u8> {
    seq![0x64u8, 0x62u8, 0x66u8, 0x6du8]
}

/// The bytes that open a format file.
pub fn db_format_magic_bytes() -> (r: Vec<u8>)
    ensures
        r@ == db_format_magic(),
{
    let r: Vec<u8> = vec![0x64u8, 0x62u8, 0x66u8, 0x6du8];
    assert(r@ =~= db_format_magic());
    r
}

/// The size of the header that comes before the data.
pub open spec fn header_len() -> int {
    24
}

/// A format file of the given version and hash around `data`.
pub open spec fn frame_bytes(version: u32, data_hash: u64, data: Seq<u8>) -> Seq<u8> {
    db_format_magic() + spec_u32_to_le_bytes(version) + spec_u64_to_be_bytes(data_hash)
        + spec_u64_to_le_bytes(data.len() as u64) + data
}

/// What the header of a format file says: its version, the hash it lists and
/// its data, or the error that reading it meets. Bytes after the data are ignored.
pub open spec fn frame_parts(bytes: Seq<u8>) -> Result<(u32, u64, Seq<u8>), DBFormatLoadErrorV> {
    if bytes.len() < 4 {
        Err(DBFormatLoadErrorV::UtilReadError(UtilReadErrorV::IoError))
    } else if bytes.subrange(0, 4) != db_format_magic() {
        Err(DBFormatLoadErrorV::DbFormatInvalidHeaderMagic)
    } else if bytes.len() < header_len() {
        Err(DBFormatLoadErrorV::UtilReadError(UtilReadErrorV::IoError))
    } else {
        let size = spec_u64_from_le_bytes(bytes.subrange(16, 24));
        if bytes.len() - header_len() < size {
            Err(DBFormatLoadErrorV::DbFormatFileCorrupted)
        } else {
            Ok(
                (
                    spec_u32_from_le_bytes(bytes.subrange(4, 8)),
                    spec_u64_from_be_bytes(bytes.subrange(8, 16)),
                    bytes.subrange(header_len(), header_len() + size),
                ),
            )
        }
    }
}

/// The outcome of a read header once the data has been hashed to `computed_hash`:
/// the version and the data, if the hash matches and the version is known.
pub open spec fn frame_checked(parts: (u32, u64, Seq<u8>), computed_hash: u64) -> Result<
    (u32, Seq<u8>),
    DBFormatLoadErrorV,
> {
    if computed_hash != parts.1 {
        Err(DBFormatLoadErrorV::DbFormatFileInvalidChecksum)
    } else if !(1 <= parts.0 <= 3) {
        Err(DBFormatLoadErrorV::DbFormatFileUnknownVersion(parts.0))
    } else {
        Ok((parts.0, parts.2))
    }
}

/// The outcome of reading a whole format file.
pub open spec fn frame_decoded(bytes: Seq<u8>) -> Result<(u32, Seq<u8>), DBFormatLoadErrorV> {
    match frame_parts(bytes) {
        Err(e) => Err(e),
        Ok(parts) => frame_checked(parts, xxh3_64_of(parts.2)),
    }
}

/// The header of a format file, as read, and the data it frames.
pub struct FrameParts {
    pub version: u32,
    pub data_hash: u64,
    pub data: Vec<u8>,
}

/// A format file of the current version around `data`, listing `data_hash` as its hash.
pub fn frame_with_hash(data: &[u8], data_hash: u64) -> (r: Vec<u8>)
    ensures
        r@ == frame_bytes(DB_FORMAT_CURRENT_VERSION, data_hash, data@),
{
    let mut r = db_format_magic_bytes();
    let mut ver = u32_to_le_bytes(DB_FORMAT_CURRENT_VERSION);
    r.append(&mut ver);
    let mut hash = u64_to_be_bytes(data_hash);
    r.append(&mut hash);
    let mut size = u64_to_le_bytes(data.len() as u64);
    r.append(&mut size);
    let mut body = slice_to_vec(data);
    r.append(&mut body);
    r
}

/// A format file of the current version around `data`, with its hash.
pub fn frame_db_format(data: &[u8]) -> (r: Vec<u8>)
    ensures
        r@ == frame_bytes(DB_FORMAT_CURRENT_VERSION, xxh3_64_of(data@), data@),
{
    let h = xxh3_64(data);
    frame_with_hash(data, h)
}

/// Reads the header of a format file and the data it frames.
pub fn read_frame(bytes: &[u8]) -> (r: Result<FrameParts, DBFormatLoadError>)
    ensures
        match r {
            Ok(p) => frame_parts(bytes@) == Ok::<_, DBFormatLoadErrorV>(
                (p.version, p.data_hash, p.data@),
            ),
            Err(e) => frame_parts(bytes@) == Err::<(u32, u64, Seq<u8>), _>(e@),
        },
{
    if bytes.len() < 4 {
        return Err(DBFormatLoadError::UtilReadError(UtilReadError::IoError(unexpected_eof())));
    }
    let expected = db_format_magic_bytes();
    if !starts_with(bytes, expected.as_slice()) {
        return Err(DBFormatLoadError::DbFormatInvalidHeaderMagic);
    }
    if bytes.len() < 24 {
        return Err(DBFormatLoadError::UtilReadError(UtilReadError::IoError(unexpected_eof())));
    }
    let version = u32_from_le_bytes(slice_subrange(bytes, 4, 8));
    let data_hash = u64_from_be_bytes(slice_subrange(bytes, 8, 16));
    let data_size = u64_from_le_bytes(slice_subrange(bytes, 16, 24));
    if ((bytes.len() - 24) as u64) < data_size {
        return Err(DBFormatLoadError::DbFormatFileCorrupted);
    }
    let end = 24 + data_size as usize;
    let data = slice_to_vec(slice_subrange(bytes, 24, end));
    Ok(FrameParts { version, data_hash, data })
}

/// Checks a read header against the hash of its data: gives the version and
/// the data when the hashes match and the version is one that can be loaded.
pub fn check_frame(parts: FrameParts, computed_hash: u64) -> (r: Result<
    (u32, Vec<u8>),
    DBFormatLoadError,
>)
    ensures
        match r {
            Ok((v, d)) => frame_checked(
                (parts.version, parts.data_hash, parts.data@),
                computed_hash,
            ) == Ok::<_, DBFormatLoadErrorV>((v, d@)),
            Err(e) => frame_checked((parts.version, parts.data_hash, parts.data@), computed_hash)
                == Err::<(u32, Seq<u8>), _>(e@),
        },
{
    if computed_hash != parts.data_hash {
        return Err(DBFormatLoadError::DbFormatFileInvalidChecksum);
    }
    if parts.version < 1 || parts.version > 3 {
        return Err(DBFormatLoadError::DbFormatFileUnknownVersion(parts.version));
    }
    Ok((parts.version, parts.data))
}

/// Reads a format file: gives its version and its data once the header and the
/// checksum have been checked. Which type the data decodes to depends on the version.
pub fn decode_frame(bytes: &[u8]) -> (r: Result<(u32, Vec<u8>), DBFormatLoadError>)
    ensures
        match r {
            Ok((v, d)) => frame_decoded(bytes@) == Ok::<_, DBFormatLoadErrorV>((v, d@)),
            Err(e) => frame_decoded(bytes@) == Err::<(u32, Seq<u8>), _>(e@),
        },
{
    let parts = read_frame(bytes)?;
    let h = xxh3_64(parts.data.as_slice());
    check_frame(parts, h)
}

/// A schema as decoded from a format file, in the version the file was written in.
#[derive(Debug)]
pub enum VersionedDBFormat {
    V1(DBFormatV1),
    V2(DBFormatV2),
    V3(DBFormat),
}

/// What a decoded schema becomes in the current version.
pub open spec fn upgraded(v: VersionedDBFormat) -> DBFormatV3V {
    match v {
        VersionedDBFormat::V1(f) => migrated_v2(migrated_v1(f.deep_view())),
        VersionedDBFormat::V2(f) => migrated_v2(f.deep_view()),
        VersionedDBFormat::V3(f) => f.deep_view(),
    }
}

/// Whether a decoded schema is well formed in its own version.
pub open spec fn decoded_wf(decoded: VersionedDBFormat) -> bool {
    match decoded {
        VersionedDBFormat::V1(f) => f.deep_view().wf(),
        VersionedDBFormat::V2(f) => f.deep_view().wf(),
        VersionedDBFormat::V3(f) => f.deep_view().wf(),
    }
}

impl DBFormat {
    /// Brings a decoded schema to the current version, migrating it one
    /// version at a time.
    pub fn upgrade(decoded: VersionedDBFormat) -> (r: DBFormat)
        ensures
            r.deep_view() == upgraded(decoded),
            decoded_wf(decoded) ==> r.deep_view().wf(),
    {
        proof {
            if decoded_wf(decoded) {
                lemma_upgrade_keeps_names_distinct(decoded);
            }
        }
        match decoded {
            VersionedDBFormat::V1(f) => f.migrate().migrate(),
            VersionedDBFormat::V2(f) => f.migrate(),
            VersionedDBFormat::V3(f) => f,
        }
    }
}

/// A version 1 schema brought to the current version keeps its tables, in
/// order, with their columns, and has no indexes.
pub proof fn lemma_v1_upgrade_has_no_indexes(f: DBFormatV1V)
    ensures
        migrated_v2(migrated_v1(f)).tables.len() == f.tables.len(),
        forall|i: int|
            0 <= i < f.tables.len() ==> #[trigger] migrated_v2(migrated_v1(f)).tables[i] == (
                f.tables[i].0,
                TableFormatV3V { cols: f.tables[i].1.cols, indexes: Seq::empty() },
            ),
{
    assert forall|i: int| 0 <= i < f.tables.len() implies #[trigger] migrated_v2(
        migrated_v1(f),
    ).tables[i] == (
        f.tables[i].0,
        TableFormatV3V { cols: f.tables[i].1.cols, indexes: Seq::empty() },
    ) by {
        assert(indexes_of(Seq::empty(), f.tables[i].0) =~= Seq::empty());
    }
}

/// Migrating a version 2 schema keeps its tables in order under their names,
/// each with its columns unchanged; an index lands under a table exactly when
/// it covers that table.
pub proof fn lemma_v2_migration_places_indexes(f: DBFormatV2V, i: int, name: Seq<char>)
    requires
        0 <= i < f.tables.len(),
    ensures
        migrated_v2(f).tables.len() == f.tables.len(),
        migrated_v2(f).tables[i].0 == f.tables[i].0,
        migrated_v2(f).tables[i].1.cols == f.tables[i].1.cols,
        (exists|j: int| 0 <= j < migrated_v2(f).tables[i].1.indexes.len() &&
            #[trigger] migrated_v2(f).tables[i].1.indexes[j].0 == name) <==> (exists|k: int|
            0 <= k < f.indexes.len() && #[trigger] f.indexes[k].0 == name
                && f.indexes[k].1.target_table == f.tables[i].0),
{
    lemma_indexes_of_names(f.indexes, f.tables[i].0, name);
    assert(migrated_v2(f).tables[i].1.indexes == indexes_of(f.indexes, f.tables[i].0));
}

/// An index name occurs among the indexes of a table exactly when some index
/// of that name covers the table.
proof fn lemma_indexes_of_names(
    indexes: Seq<(Seq<char>, IndexFormatV1V)>,
    table: Seq<char>,
    name: Seq<char>,
)
    ensures
        (exists|j: int| 0 <= j < indexes_of(indexes, table).len() &&
            #[trigger] indexes_of(indexes, table)[j].0 == name) <==> (exists|k: int|
            0 <= k < indexes.len() && #[trigger] indexes[k].0 == name && indexes[k].1.target_table
                == table),
    decreases indexes.len(),
{
    if indexes.len() > 0 {
        let prev = indexes.drop_last();
        lemma_indexes_of_names(prev, table, name);
        let r = indexes_of(indexes, table);
        let rp = indexes_of(prev, table);
        if exists|j: int| 0 <= j < r.len() && #[trigger] r[j].0 == name {
            let j = choose|j: int| 0 <= j < r.len() && #[trigger] r[j].0 == name;
            if j < rp.len() {
                assert(rp[j].0 == name);
                let k = choose|k: int|
                    0 <= k < prev.len() && #[trigger] prev[k].0 == name && prev[k].1.target_table
                        == table;
                assert(indexes[k] == prev[k]);
            } else {
                assert(indexes[indexes.len() - 1].0 == name);
            }
        }
        if exists|k: int|
            0 <= k < indexes.len() && #[trigger] indexes[k].0 == name && indexes[k].1.target_table
                == table {
            let k = choose|k: int|
                0 <= k < indexes.len() && #[trigger] indexes[k].0 == name
                    && indexes[k].1.target_table == table;
            if k < prev.len() {
                assert(prev[k] == indexes[k]);
                let j = choose|j: int| 0 <= j < rp.len() && #[trigger] rp[j].0 == name;
                assert(r[j] == rp[j]);
            } else {
                assert(r[r.len() - 1].0 == name);
            }
        }
    }
}

/// The indexes that cover a table keep their names distinct.
proof fn lemma_indexes_of_distinct(indexes: Seq<(Seq<char>, IndexFormatV1V)>, table: Seq<char>)
    requires
        names_distinct(indexes),
    ensures
        names_distinct(indexes_of(indexes, table)),
    decreases indexes.len(),
{
    if indexes.len() > 0 {
        let prev = indexes.drop_last();
        assert(names_distinct(prev)) by {
            assert forall|i: int, j: int| 0 <= i < j < prev.len() implies #[trigger] prev[i].0
                != #[trigger] prev[j].0 by {
                assert(prev[i] == indexes[i] && prev[j] == indexes[j]);
            }
        }
        lemma_indexes_of_distinct(prev, table);
        let (name, idx) = indexes.last();
        if idx.target_table == table {
            lemma_indexes_of_names(prev, table, name);
            let r = indexes_of(indexes, table);
            let rp = indexes_of(prev, table);
            if exists|k: int| 0 <= k < prev.len() && #[trigger] prev[k].0 == name
                && prev[k].1.target_table == table {
                let k = choose|k: int|
                    0 <= k < prev.len() && #[trigger] prev[k].0 == name && prev[k].1.target_table
                        == table;
                assert(indexes[k].0 == indexes[indexes.len() - 1].0);
            }
            assert forall|i: int, j: int| 0 <= i < j < r.len() implies #[trigger] r[i].0
                != #[trigger] r[j].0 by {
                if j == r.len() - 1 {
                    assert(r[i] == rp[i]);
                    assert(rp[i].0 != name);
                } else {
                    assert(r[i] == rp[i] && r[j] == rp[j]);
                }
            }
        }
    }
}

/// Migrating keeps names distinct: a well-formed version 1 schema migrates to
/// a well-formed version 2 schema.
pub proof fn lemma_v1_migration_keeps_names_distinct(f: DBFormatV1V)
    requires
        f.wf(),
    ensures
        migrated_v1(f).wf(),
{
}

/// Migrating keeps names distinct: a well-formed version 2 schema migrates to
/// a well-formed version 3 schema, each table keeping its indexes apart by name.
pub proof fn lemma_v2_migration_keeps_names_distinct(f: DBFormatV2V)
    requires
        f.wf(),
    ensures
        migrated_v2(f).wf(),
{
    let r = migrated_v2(f);
    assert forall|i: int, j: int| 0 <= i < j < r.tables.len() implies #[trigger] r.tables[i].0
        != #[trigger] r.tables[j].0 by {
        assert(r.tables[i].0 == f.tables[i].0 && r.tables[j].0 == f.tables[j].0);
    }
    assert forall|i: int| 0 <= i < r.tables.len() implies names_distinct(
        #[trigger] r.tables[i].1.cols,
    ) by {
        assert(r.tables[i].1.cols == f.tables[i].1.cols);
    }
    assert forall|i: int| 0 <= i < r.tables.len() implies names_distinct(
        #[trigger] r.tables[i].1.indexes,
    ) by {
        lemma_indexes_of_distinct(f.indexes, f.tables[i].0);
    }
}

/// Bringing a decoded schema to the current version keeps it well formed.
pub proof fn lemma_upgrade_keeps_names_distinct(decoded: VersionedDBFormat)
    requires
        decoded_wf(decoded),
    ensures
        upgraded(decoded).wf(),
{
    match decoded {
        VersionedDBFormat::V1(f) => {
            lemma_v1_migration_keeps_names_distinct(f.deep_view());
            lemma_v2_migration_keeps_names_distinct(migrated_v1(f.deep_view()));
        },
        VersionedDBFormat::V2(f) => {
            lemma_v2_migration_keeps_names_distinct(f.deep_view());
        },
        VersionedDBFormat::V3(f) => {},
    }
}

/// What a format file gives back when read is what was framed into it.
pub proof fn lemma_frame_roundtrip(version: u32, data_hash: u64, data: Seq<u8>)
    requires
        data.len() <= u64::MAX,
    ensures
        frame_parts(frame_bytes(version, data_hash, data)) == Ok::<_, DBFormatLoadErrorV>(
            (version, data_hash, data),
        ),
{
    lemma_auto_spec_u32_to_from_le_bytes();
    lemma_auto_spec_u64_to_from_le_bytes();
    lemma_u64_be_roundtrip(data_hash);
    let b = frame_bytes(version, data_hash, data);
    let m = db_format_magic();
    let v = spec_u32_to_le_bytes(version);
    let h = spec_u64_to_be_bytes(data_hash);
    let s = spec_u64_to_le_bytes(data.len() as u64);
    assert(b.subrange(0, 4) =~= m);
    assert(b.subrange(4, 8) =~= v);
    assert(b.subrange(8, 16) =~= h);
    assert(b.subrange(16, 24) =~= s);
    assert(b.subrange(24, 24 + data.len() as int) =~= data);
}

/// A saved schema reads back as the current version and the same data.
pub proof fn lemma_db_format_roundtrip(data: Seq<u8>)
    requires
        data.len() <= u64::MAX,
    ensures
        frame_decoded(frame_bytes(DB_FORMAT_CURRENT_VERSION, xxh3_64_of(data), data)) == Ok::<
            _,
            DBFormatLoadErrorV,
        >((DB_FORMAT_CURRENT_VERSION, data)),
{
    lemma_frame_roundtrip(DB_FORMAT_CURRENT_VERSION, xxh3_64_of(data), data);
}

} // verus!
