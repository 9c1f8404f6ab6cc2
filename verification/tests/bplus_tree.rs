use dbms_upended::dbms::bplus_tree::error::{BPlusTreeError, PageError};
use dbms_upended::dbms::bplus_tree::{
    page_size, BPlusTree, BP_META_FILENAME, BP_PAGE_HEADER_SIZE, PAGE_SIZE,
};
use dbms_upended::util::errors::UtilReadError;
use std::path::PathBuf;

type Tree = BPlusTree<u64, u64>;

fn meta(ver: u16, pages: u32, keys: u64, elems: u64, root: u64, page: u64) -> Vec<u8> {
    let mut m = b"BM".to_vec();
    m.extend(ver.to_le_bytes());
    m.extend(pages.to_le_bytes());
    m.extend(keys.to_le_bytes());
    m.extend(elems.to_le_bytes());
    m.extend(root.to_le_bytes());
    m.extend(page.to_le_bytes());
    m
}

#[test]
fn page_size_is_4096() {
    assert_eq!(page_size(), 4096);
    assert_eq!(PAGE_SIZE, 4096);
    assert_eq!(BP_PAGE_HEADER_SIZE, 16);
    assert_eq!(BP_META_FILENAME, "bp_meta");
}

#[test]
fn balance_factor() {
    assert_eq!(Tree::calc_balance_factor(), (73, 145));
}

#[test]
fn opening_reads_the_metadata() {
    let t = Tree::from_meta(PathBuf::from("root"), &meta(0, 3, 5, 9, 2, 4096)).unwrap();
    let text = format!("{:?}", t);
    assert!(text.contains("root_path: \"root\""));
    assert!(text.contains("root_node_id: 2"));
    assert!(text.contains("num_keys: 5"));
    assert!(text.contains("num_elements: 9"));
    assert!(text.contains("num_pages: 3"));
}

#[test]
fn metadata_errors() {
    let mut bad_magic = meta(0, 1, 0, 0, 0, 4096);
    bad_magic[1] = b'X';
    assert!(matches!(
        Tree::from_meta(PathBuf::from("r"), &bad_magic),
        Err(BPlusTreeError::MetaDataFileInvalidMagic)
    ));
    assert!(matches!(
        Tree::from_meta(PathBuf::from("r"), &meta(2, 1, 0, 0, 0, 4096)),
        Err(BPlusTreeError::MetaDataFileVersionMismatch(2))
    ));
    assert!(matches!(
        Tree::from_meta(PathBuf::from("r"), &meta(0, 1, 0, 0, 0, 8192)),
        Err(BPlusTreeError::MetaDataInvalidPageSize(4096, 8192))
    ));
    assert!(matches!(
        Tree::from_meta(PathBuf::from("r"), b"B"),
        Err(BPlusTreeError::IoReadError(UtilReadError::IoError(_)))
    ));
}

#[test]
fn new_metadata_layout() {
    let m = Tree::new_meta_bytes();
    let mut expected = b"BM".to_vec();
    expected.extend([0, 0]);
    expected.extend([1, 0, 0, 0]);
    expected.extend([0u8; 24]);
    expected.extend(4096u64.to_le_bytes());
    assert_eq!(m, expected);
}

#[test]
fn new_metadata_reads_back() {
    let m = Tree::new_meta_bytes();
    let opened = Tree::from_meta(PathBuf::from("dir"), &m).unwrap();
    let created = Tree::created(PathBuf::from("dir"));
    assert_eq!(format!("{:?}", opened), format!("{:?}", created));
}

#[test]
fn opening_a_folder_without_metadata_creates_a_tree() {
    let (created, written) = Tree::open_or_create(PathBuf::from("dir"), None);
    let created = created.unwrap();
    let written = written.unwrap();
    assert_eq!(written, Tree::new_meta_bytes());
    let (reopened, again) = Tree::open_or_create(PathBuf::from("dir"), Some(&written));
    assert!(again.is_none());
    assert_eq!(format!("{:?}", reopened.unwrap()), format!("{:?}", created));
    assert_eq!(created.root(), &PathBuf::from("dir"));
}

#[test]
fn opening_a_folder_with_metadata_reads_it() {
    let (t, written) = Tree::open_or_create(PathBuf::from("d"), Some(&meta(0, 4, 6, 8, 3, 4096)));
    assert!(written.is_none());
    let text = format!("{:?}", t.unwrap());
    assert!(text.contains("num_pages: 4"));
    assert!(text.contains("root_node_id: 3"));
    let (bad, written) = Tree::open_or_create(PathBuf::from("d"), Some(&meta(7, 4, 6, 8, 3, 4096)));
    assert!(written.is_none());
    assert!(matches!(bad, Err(BPlusTreeError::MetaDataFileVersionMismatch(7))));
}

#[test]
fn created_tree_has_one_empty_root_page() {
    let t = Tree::created(PathBuf::from("dir"));
    let text = format!("{:?}", t);
    assert!(text.contains("root_node_id: 0"));
    assert!(text.contains("num_keys: 0"));
    assert!(text.contains("num_elements: 0"));
    assert!(text.contains("num_pages: 1"));
}

#[test]
fn root_page_layout() {
    let node = [10u8, 20, 30];
    let page = Tree::root_page(&node);
    assert_eq!(page.len(), 4096);
    assert_eq!(&page[0..2], b"BN");
    assert_eq!(&page[2..4], &[0, 0]);
    assert_eq!(&page[4..8], &3u32.to_le_bytes());
    assert_eq!(&page[8..16], &xxhash_rust::xxh3::xxh3_64(&node).to_le_bytes());
    assert_eq!(&page[16..19], &node);
    assert!(page[19..].iter().all(|b| *b == 0));
}

#[test]
fn root_page_reads_back() {
    let node: Vec<u8> = (0..200u8).collect();
    let page = Tree::root_page(&node);
    assert_eq!(Tree::verify_page_header(0, &page).unwrap(), (200, xxhash_rust::xxh3::xxh3_64(&node)));
    assert_eq!(Tree::node_data(0, &page).unwrap(), node);
    let full = vec![7u8; 4080];
    assert_eq!(Tree::node_data(3, &Tree::root_page(&full)).unwrap(), full);
}

#[test]
fn page_with_checksum_lists_the_given_checksum() {
    let page = Tree::page_with_checksum(&[1, 2], 0xAABB);
    assert_eq!(&page[8..16], &0xAABBu64.to_le_bytes());
    assert_eq!(Tree::read_page(5, &page).unwrap(), (0xAABB, vec![1, 2]));
    assert!(matches!(Tree::node_data(5, &page), Err(PageError::InvalidHash(5))));
}

#[test]
fn page_header_errors() {
    let mut page = Tree::root_page(&[1]);
    page[0] = b'Q';
    assert!(matches!(Tree::verify_page_header(4, &page), Err(PageError::InvalidMagic(4))));
    let mut page = Tree::root_page(&[1]);
    page[2] = 1;
    assert!(matches!(Tree::verify_page_header(4, &page), Err(PageError::UnknownVersion(1, 4))));
    assert!(matches!(
        Tree::verify_page_header(4, b"BN\x00\x00"),
        Err(PageError::ReadError(UtilReadError::IoError(_)))
    ));
}

#[test]
fn changed_node_data_fails_the_checksum() {
    let mut page = Tree::root_page(&[1, 2, 3]);
    page[17] = 99;
    assert!(matches!(Tree::node_data(8, &page), Err(PageError::InvalidHash(8))));
}

#[test]
fn data_size_beyond_the_page_is_a_read_error() {
    let mut page = Tree::root_page(&[1, 2, 3]);
    page[4..8].copy_from_slice(&5000u32.to_le_bytes());
    assert!(matches!(Tree::read_page(1, &page), Err(PageError::ReadError(_))));
}
