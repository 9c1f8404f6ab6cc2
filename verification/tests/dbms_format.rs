use dbms_upended::dbms::error::DBFormatLoadError;
use dbms_upended::dbms::format::versions::v1::{ColumnTypeV1, DBFormatV1, TableFormatV1};
use dbms_upended::dbms::format::versions::v2::{DBFormatV2, IndexFormatV1};
use dbms_upended::dbms::format::versions::v3::{DBFormatV3, IndexFormatV3, TableFormatV3};
use dbms_upended::dbms::format::{
    check_frame, decode_frame, frame_db_format, frame_with_hash, read_frame, DBFormat,
    FrameParts, VersionedDBFormat, DB_FORMAT_CURRENT_VERSION, DB_FORMAT_FILENAME,
};
use dbms_upended::util::errors::UtilReadError;

fn is_eof(e: &DBFormatLoadError) -> bool {
    matches!(e, DBFormatLoadError::UtilReadError(UtilReadError::IoError(io))
        if io.kind() == std::io::ErrorKind::UnexpectedEof)
}

#[test]
fn frame_layout() {
    let bytes = frame_with_hash(&[1, 2, 3], 0x0102030405060708);
    let mut expected: Vec<u8> = b"dbfm".to_vec();
    expected.extend([3, 0, 0, 0]);
    expected.extend([1, 2, 3, 4, 5, 6, 7, 8]);
    expected.extend([3, 0, 0, 0, 0, 0, 0, 0]);
    expected.extend([1, 2, 3]);
    assert_eq!(bytes, expected);
    assert_eq!(DB_FORMAT_CURRENT_VERSION, 3);
    assert_eq!(DB_FORMAT_FILENAME, "db_fmt");
}

#[test]
fn frame_lists_the_xxh3_hash_big_endian() {
    let data = b"some encoded schema".to_vec();
    let bytes = frame_db_format(&data);
    assert_eq!(&bytes[8..16], &xxhash_rust::xxh3::xxh3_64(&data).to_be_bytes());
    assert_ne!(&bytes[8..16], &[0u8; 8]);
}

#[test]
fn saved_frame_reads_back() {
    let data = b"hello schema".to_vec();
    let bytes = frame_db_format(&data);
    let (version, back) = decode_frame(&bytes).unwrap();
    assert_eq!(version, 3);
    assert_eq!(back, data);
    let empty = frame_db_format(&[]);
    assert_eq!(decode_frame(&empty).unwrap(), (3, vec![]));
}

#[test]
fn bytes_after_the_data_are_ignored() {
    let mut bytes = frame_db_format(&[9, 8, 7]);
    bytes.extend([1, 1, 1]);
    assert_eq!(decode_frame(&bytes).unwrap(), (3, vec![9, 8, 7]));
}

#[test]
fn short_file_is_a_read_error() {
    assert!(is_eof(&decode_frame(b"db").unwrap_err()));
    assert!(is_eof(&decode_frame(b"").unwrap_err()));
    assert!(is_eof(&decode_frame(b"dbfm\x03\x00\x00\x00").unwrap_err()));
}

#[test]
fn wrong_magic() {
    let mut bytes = frame_db_format(&[1]);
    bytes[0] = b'x';
    assert!(matches!(decode_frame(&bytes), Err(DBFormatLoadError::DbFormatInvalidHeaderMagic)));
    assert!(matches!(decode_frame(b"dbf"), Err(DBFormatLoadError::UtilReadError(_))));
    assert!(matches!(decode_frame(b"DBFM"), Err(DBFormatLoadError::DbFormatInvalidHeaderMagic)));
}

#[test]
fn truncated_data_is_corruption() {
    let mut bytes = frame_db_format(&[1, 2, 3, 4]);
    bytes.pop();
    assert!(matches!(decode_frame(&bytes), Err(DBFormatLoadError::DbFormatFileCorrupted)));
}

#[test]
fn changed_data_fails_the_checksum() {
    let mut bytes = frame_db_format(&[1, 2, 3, 4]);
    let last = bytes.len() - 1;
    bytes[last] ^= 0xff;
    assert!(matches!(decode_frame(&bytes), Err(DBFormatLoadError::DbFormatFileInvalidChecksum)));
}

#[test]
fn unknown_version_is_reported_after_the_checksum() {
    let mut bytes = frame_db_format(&[5, 6]);
    bytes[4..8].copy_from_slice(&4u32.to_le_bytes());
    assert!(matches!(decode_frame(&bytes), Err(DBFormatLoadError::DbFormatFileUnknownVersion(4))));
    bytes[4..8].copy_from_slice(&0u32.to_le_bytes());
    assert!(matches!(decode_frame(&bytes), Err(DBFormatLoadError::DbFormatFileUnknownVersion(0))));
    // a bad checksum is found first
    bytes[4..8].copy_from_slice(&7u32.to_le_bytes());
    let last = bytes.len() - 1;
    bytes[last] ^= 1;
    assert!(matches!(decode_frame(&bytes), Err(DBFormatLoadError::DbFormatFileInvalidChecksum)));
}

#[test]
fn older_versions_are_accepted() {
    let mut bytes = frame_db_format(&[5, 6]);
    bytes[4..8].copy_from_slice(&1u32.to_le_bytes());
    assert_eq!(decode_frame(&bytes).unwrap(), (1, vec![5, 6]));
    bytes[4..8].copy_from_slice(&2u32.to_le_bytes());
    assert_eq!(decode_frame(&bytes).unwrap(), (2, vec![5, 6]));
}

#[test]
fn read_frame_gives_the_header() {
    let bytes = frame_with_hash(&[7, 7], 42);
    let parts = read_frame(&bytes).unwrap();
    assert_eq!(parts.version, 3);
    assert_eq!(parts.data_hash, 42);
    assert_eq!(parts.data, vec![7, 7]);
}

#[test]
fn check_frame_compares_hashes() {
    let ok = check_frame(FrameParts { version: 2, data_hash: 10, data: vec![1] }, 10).unwrap();
    assert_eq!(ok, (2, vec![1]));
    assert!(matches!(
        check_frame(FrameParts { version: 2, data_hash: 10, data: vec![1] }, 11),
        Err(DBFormatLoadError::DbFormatFileInvalidChecksum)
    ));
    assert!(matches!(
        check_frame(FrameParts { version: 9, data_hash: 10, data: vec![1] }, 10),
        Err(DBFormatLoadError::DbFormatFileUnknownVersion(9))
    ));
}

fn table_v1(name: &str, cols: &[(&str, ColumnTypeV1)]) -> TableFormatV1 {
    TableFormatV1 {
        name: name.to_string(),
        cols: cols.iter().map(|(n, t)| (n.to_string(), *t)).collect(),
    }
}

fn v2_schema() -> DBFormatV2 {
    DBFormatV2 {
        name: "shop".to_string(),
        tables: vec![
            ("users".to_string(), table_v1("users", &[("id", ColumnTypeV1::Int)])),
            ("orders".to_string(), table_v1("orders", &[("total", ColumnTypeV1::BigFloat)])),
        ],
        indexes: vec![
            (
                "orders_by_total".to_string(),
                IndexFormatV1 {
                    target_table: "orders".to_string(),
                    target_column: "total".to_string(),
                },
            ),
            (
                "users_by_id".to_string(),
                IndexFormatV1 { target_table: "users".to_string(), target_column: "id".to_string() },
            ),
            (
                "users_by_id2".to_string(),
                IndexFormatV1 { target_table: "users".to_string(), target_column: "id".to_string() },
            ),
        ],
    }
}

fn index_names(t: &TableFormatV3) -> Vec<&str> {
    t.indexes.iter().map(|(n, _)| n.as_str()).collect()
}

#[test]
fn migrating_v2_moves_indexes_under_their_tables() {
    let v3: DBFormatV3 = v2_schema().migrate();
    assert_eq!(v3.tables.len(), 2);
    assert_eq!(v3.tables[0].0, "users");
    assert_eq!(v3.tables[0].1.cols, vec![("id".to_string(), ColumnTypeV1::Int)]);
    assert_eq!(index_names(&v3.tables[0].1), vec!["users_by_id", "users_by_id2"]);
    let idx: &IndexFormatV3 = &v3.tables[0].1.indexes[0].1;
    assert_eq!(idx.index_name, "users_by_id");
    assert_eq!(idx.target_column, "id");
    assert_eq!(v3.tables[1].0, "orders");
    assert_eq!(index_names(&v3.tables[1].1), vec!["orders_by_total"]);
}

#[test]
fn index_of_a_missing_table_is_dropped() {
    let mut v2 = v2_schema();
    v2.indexes.push((
        "ghost".to_string(),
        IndexFormatV1 { target_table: "nope".to_string(), target_column: "x".to_string() },
    ));
    let v3 = v2.migrate();
    let total: usize = v3.tables.iter().map(|(_, t)| t.indexes.len()).sum();
    assert_eq!(total, 3);
}

#[test]
fn migrating_v1_keeps_the_tables_and_adds_no_index() {
    let v1 = DBFormatV1 {
        name: "db".to_string(),
        tables: vec![("t".to_string(), table_v1("t", &[("a", ColumnTypeV1::Bool)]))],
    };
    let v2 = v1.migrate();
    assert_eq!(v2.name, "db");
    assert_eq!(v2.tables.len(), 1);
    assert!(v2.indexes.is_empty());
    let v3 = v2.migrate();
    assert_eq!(v3.tables[0].0, "t");
    assert!(v3.tables[0].1.indexes.is_empty());
}

#[test]
fn upgrade_brings_each_version_to_the_current_one() {
    let v1 = DBFormatV1 {
        name: "db".to_string(),
        tables: vec![("t".to_string(), table_v1("t", &[("a", ColumnTypeV1::Float)]))],
    };
    let from_v1 = DBFormat::upgrade(VersionedDBFormat::V1(v1));
    assert_eq!(from_v1.tables.len(), 1);
    assert_eq!(from_v1.tables[0].1.cols, vec![("a".to_string(), ColumnTypeV1::Float)]);

    let from_v2 = DBFormat::upgrade(VersionedDBFormat::V2(v2_schema()));
    assert_eq!(index_names(&from_v2.tables[0].1), vec!["users_by_id", "users_by_id2"]);

    let v3 = DBFormatV3 { tables: vec![] };
    let from_v3 = DBFormat::upgrade(VersionedDBFormat::V3(v3));
    assert!(from_v3.tables.is_empty());
}
