//! A B+ tree stored on disk: a metadata file and one file per page.
//!
//! The metadata file `bp_meta` holds, in little endian: the magic `BM`, the
//! version (`u16`), the number of pages (`u32`), the number of keys, the number
//! of elements, the id of the root page and the page size (each `u64`).
//!
//! A page file `page_{id}` is `PAGE_SIZE` bytes: the magic `BN`, the version
//! (`u16`), the size of the node data (`u32`) and its XXH3 checksum (`u64`),
//! all little endian, then the node data, then zeros.
pub mod error;

use std::marker::PhantomData;
use vstd::bytes::{
    lemma_auto_spec_u16_to_from_le_bytes, lemma_auto_spec_u32_to_from_le_bytes,
    lemma_auto_spec_u64_to_from_le_bytes, spec_u16_from_le_bytes, spec_u16_to_le_bytes,
    spec_u32_from_le_bytes, spec_u32_to_le_bytes, spec_u64_from_le_bytes, spec_u64_to_le_bytes,
    u16_from_le_bytes, u16_to_le_bytes, u32_from_le_bytes, u32_to_le_bytes, u64_from_le_bytes,
    u64_to_le_bytes,
};
use vstd::prelude::*;
use vstd::slice::{slice_subrange, slice_to_vec};

use crate::dbms::bplus_tree::error::{BPlusTreeError, BPlusTreeErrorV, PageError, PageErrorV};
use crate::util::bytes::starts_with;
use crate::util::checksum::{xxh3_64, xxh3_64_of};
use crate::util::errors::{unexpected_eof, UtilReadError, UtilReadErrorV};

verus! {

/// The size of a page in bytes.
pub const PAGE_SIZE: usize = 4096;

/// The name of the metadata file in the tree's folder.
pub const BP_META_FILENAME: &'static str = "bp_meta";

/// The metadata version that this program reads and writes.
pub const BP_META_VERSION: u16 = 0;

/// The page version that this program reads and writes.
pub const BP_PAGE_VERSION: u16 = 0;

/// The size in bytes of a page header: magic, version, data size and checksum.
pub const BP_PAGE_HEADER_SIZE: usize = 16;

/// The id of a page.
pub type PageId = u64;

/// The bytes that open the metadata file: `BM`.
pub open spec fn meta_magic() -> Seq<u8> {
    seq![0x42u8, 0x4du8]
}

/// The bytes that open a page: `BN`.
pub open spec fn page_magic() -> Seq<u8> {
    seq![0x42u8, 0x4eu8]
}

/// The size of a page in bytes.
pub fn page_size() -> (r: usize)
    ensures
        r == PAGE_SIZE,
{
    PAGE_SIZE
}

/// A B+ tree stored on disk.
#[derive(Debug)]
pub struct BPlusTree<K, V> {
    root_path: std::path::PathBuf,
    root_node_id: PageId,
    num_keys: u64,
    num_elements: u64,
    num_pages: u32,
    _k: PhantomData<K>,
    _v: PhantomData<V>,
}

/// What a metadata file says: the number of pages, of keys and of elements,
/// and the id of the root page; or the error that reading it meets.
pub open spec fn meta_parsed(bytes: Seq<u8>) -> Result<(u32, u64, u64, u64), BPlusTreeErrorV> {
    if bytes.len() < 2 {
        Err(BPlusTreeErrorV::IoReadError(UtilReadErrorV::IoError))
    } else if bytes.subrange(0, 2) != meta_magic() {
        Err(BPlusTreeErrorV::MetaDataFileInvalidMagic)
    } else if bytes.len() < 4 {
        Err(BPlusTreeErrorV::IoReadError(UtilReadErrorV::IoError))
    } else if spec_u16_from_le_bytes(bytes.subrange(2, 4)) != BP_META_VERSION {
        Err(BPlusTreeErrorV::MetaDataFileVersionMismatch(spec_u16_from_le_bytes(bytes.subrange(2, 4))))
    } else if bytes.len() < 40 {
        Err(BPlusTreeErrorV::IoReadError(UtilReadErrorV::IoError))
    } else if spec_u64_from_le_bytes(bytes.subrange(32, 40)) != PAGE_SIZE as u64 {
        Err(
            BPlusTreeErrorV::MetaDataInvalidPageSize(
                PAGE_SIZE as u64,
                spec_u64_from_le_bytes(bytes.subrange(32, 40)),
            ),
        )
    } else {
        Ok(
            (
                spec_u32_from_le_bytes(bytes.subrange(4, 8)),
                spec_u64_from_le_bytes(bytes.subrange(8, 16)),
                spec_u64_from_le_bytes(bytes.subrange(16, 24)),
                spec_u64_from_le_bytes(bytes.subrange(24, 32)),
            ),
        )
    }
}

/// The metadata file that creating a tree writes: one page, no keys, no
/// elements, page 0 as the root, and the page size.
pub open spec fn new_meta() -> Seq<u8> {
    meta_magic() + spec_u16_to_le_bytes(BP_META_VERSION) + spec_u32_to_le_bytes(1)
        + spec_u64_to_le_bytes(0) + spec_u64_to_le_bytes(0) + spec_u64_to_le_bytes(0)
        + spec_u64_to_le_bytes(PAGE_SIZE as u64)
}

/// The view of the metadata file that a folder holds, if it holds one.
pub open spec fn opt_bytes(meta: Option<&[u8]>) -> Option<Seq<u8>> {
    match meta {
        Some(b) => Some(b@),
        None => None,
    }
}

/// What opening a tree's folder gives, where `meta` is its metadata file if
/// it holds one: the tree's number of pages, keys and elements and its root
/// page, or the error met; and the metadata file that has to be written.
/// A folder without a metadata file gets a new, empty tree.
pub open spec fn opened(meta: Option<Seq<u8>>) -> (
    Result<(u32, u64, u64, u64), BPlusTreeErrorV>,
    Option<Seq<u8>>,
) {
    match meta {
        Some(b) => (meta_parsed(b), None),
        None => (Ok((1u32, 0u64, 0u64, 0u64)), Some(new_meta())),
    }
}

/// A page holding `data`, with `checksum` listed as its checksum.
pub open spec fn page_bytes(data: Seq<u8>, checksum: u64) -> Seq<u8> {
    page_magic() + spec_u16_to_le_bytes(BP_PAGE_VERSION) + spec_u32_to_le_bytes(data.len() as u32)
        + spec_u64_to_le_bytes(checksum) + data + Seq::new(
        (PAGE_SIZE - BP_PAGE_HEADER_SIZE - data.len()) as nat,
        |i: int| 0u8,
    )
}

/// What the header of page `id` says: the size of its data and its checksum,
/// or the error that reading it meets.
pub open spec fn page_header(id: PageId, bytes: Seq<u8>) -> Result<(u32, u64), PageErrorV> {
    if bytes.len() < 2 {
        Err(PageErrorV::ReadError(UtilReadErrorV::IoError))
    } else if bytes.subrange(0, 2) != page_magic() {
        Err(PageErrorV::InvalidMagic(id))
    } else if bytes.len() < 4 {
        Err(PageErrorV::ReadError(UtilReadErrorV::IoError))
    } else if spec_u16_from_le_bytes(bytes.subrange(2, 4)) != BP_PAGE_VERSION {
        Err(PageErrorV::UnknownVersion(spec_u16_from_le_bytes(bytes.subrange(2, 4)), id))
    } else if bytes.len() < 16 {
        Err(PageErrorV::ReadError(UtilReadErrorV::IoError))
    } else {
        Ok((spec_u32_from_le_bytes(bytes.subrange(4, 8)), spec_u64_from_le_bytes(bytes.subrange(8, 16))))
    }
}

/// What page `id` holds once its header is read: the checksum it lists and
/// the node data, or the error that reading it meets.
pub open spec fn page_contents(id: PageId, bytes: Seq<u8>) -> Result<(u64, Seq<u8>), PageErrorV> {
    match page_header(id, bytes) {
        Err(e) => Err(e),
        Ok((size, checksum)) => if bytes.len() - 16 < size {
            Err(PageErrorV::ReadError(UtilReadErrorV::IoError))
        } else {
            Ok((checksum, bytes.subrange(16, 16 + size)))
        },
    }
}

/// The node data of page `id` once the hash of the data has been computed.
pub open spec fn page_checked(id: PageId, contents: (u64, Seq<u8>), computed_hash: u64) -> Result<
    Seq<u8>,
    PageErrorV,
> {
    if contents.0 != computed_hash {
        Err(PageErrorV::InvalidHash(id))
    } else {
        Ok(contents.1)
    }
}

/// The node data of page `id`, checked against its checksum.
pub open spec fn page_node_data(id: PageId, bytes: Seq<u8>) -> Result<Seq<u8>, PageErrorV> {
    match page_contents(id, bytes) {
        Err(e) => Err(e),
        Ok(c) => page_checked(id, c, xxh3_64_of(c.1)),
    }
}

impl<K, V> BPlusTree<K, V> {
    /// The folder the tree is stored in.
    pub closed spec fn root_path(self) -> std::path::PathBuf {
        self.root_path
    }

    /// The id of the root page.
    pub closed spec fn root_node_id(self) -> u64 {
        self.root_node_id
    }

    /// The number of keys.
    pub closed spec fn num_keys(self) -> u64 {
        self.num_keys
    }

    /// The number of elements.
    pub closed spec fn num_elements(self) -> u64 {
        self.num_elements
    }

    /// The number of pages.
    pub closed spec fn num_pages(self) -> u32 {
        self.num_pages
    }

    /// The folder the tree is stored in.
    pub fn root(&self) -> (r: &std::path::PathBuf)
        ensures
            *r == self.root_path(),
    {
        &self.root_path
    }

    /// Opens the tree stored in `root_path` from the bytes of its metadata file.
    pub fn from_meta(root_path: std::path::PathBuf, meta: &[u8]) -> (r: Result<Self, BPlusTreeError>)
        ensures
            match r {
                Ok(t) => {
                    &&& meta_parsed(meta@) == Ok::<_, BPlusTreeErrorV>(
                        (t.num_pages(), t.num_keys(), t.num_elements(), t.root_node_id()),
                    )
                    &&& t.root_path() == root_path
                },
                Err(e) => meta_parsed(meta@) == Err::<(u32, u64, u64, u64), _>(e@),
            },
    {
        if meta.len() < 2 {
            return Err(BPlusTreeError::IoReadError(UtilReadError::IoError(unexpected_eof())));
        }
        let magic: Vec<u8> = vec![0x42u8, 0x4du8];
        assert(magic@ =~= meta_magic());
        if !starts_with(meta, magic.as_slice()) {
            return Err(BPlusTreeError::MetaDataFileInvalidMagic);
        }
        if meta.len() < 4 {
            return Err(BPlusTreeError::IoReadError(UtilReadError::IoError(unexpected_eof())));
        }
        let ver = u16_from_le_bytes(slice_subrange(meta, 2, 4));
        if ver != BP_META_VERSION {
            return Err(BPlusTreeError::MetaDataFileVersionMismatch(ver));
        }
        if meta.len() < 40 {
            return Err(BPlusTreeError::IoReadError(UtilReadError::IoError(unexpected_eof())));
        }
        let num_pages = u32_from_le_bytes(slice_subrange(meta, 4, 8));
        let num_keys = u64_from_le_bytes(slice_subrange(meta, 8, 16));
        let num_elements = u64_from_le_bytes(slice_subrange(meta, 16, 24));
        let root_node_id = u64_from_le_bytes(slice_subrange(meta, 24, 32));
        let page_size = u64_from_le_bytes(slice_subrange(meta, 32, 40));
        if page_size != PAGE_SIZE as u64 {
            return Err(BPlusTreeError::MetaDataInvalidPageSize(PAGE_SIZE as u64, page_size));
        }
        Ok(
            BPlusTree {
                root_path,
                root_node_id,
                num_keys,
                num_elements,
                num_pages,
                _k: PhantomData,
                _v: PhantomData,
            },
        )
    }

    /// The tree that creating a new tree in `root_path` gives: one empty root
    /// page with id 0, no keys and no elements.
    pub fn created(root_path: std::path::PathBuf) -> (r: Self)
        ensures
            r.root_path() == root_path,
            r.root_node_id() == 0,
            r.num_keys() == 0,
            r.num_elements() == 0,
            r.num_pages() == 1,
    {
        BPlusTree {
            root_path,
            root_node_id: 0,
            num_keys: 0,
            num_elements: 0,
            num_pages: 1,
            _k: PhantomData,
            _v: PhantomData,
        }
    }

    /// Opens the tree stored in `root_path`, or creates one there: `meta` is
    /// the folder's metadata file, `None` where it has none. Returns the tree,
    /// and the metadata file to write where a new tree was created.
    pub fn open_or_create(root_path: std::path::PathBuf, meta: Option<&[u8]>) -> (r: (
        Result<Self, BPlusTreeError>,
        Option<Vec<u8>>,
    ))
        ensures
            match r.0 {
                Ok(t) => {
                    &&& opened(opt_bytes(meta)).0 == Ok::<_, BPlusTreeErrorV>(
                        (t.num_pages(), t.num_keys(), t.num_elements(), t.root_node_id()),
                    )
                    &&& t.root_path() == root_path
                },
                Err(e) => opened(opt_bytes(meta)).0 == Err::<(u32, u64, u64, u64), _>(e@),
            },
            match r.1 {
                Some(b) => opened(opt_bytes(meta)).1 == Some(b@),
                None => opened(opt_bytes(meta)).1 is None,
            },
    {
        match meta {
            Some(bytes) => (Self::from_meta(root_path, bytes), None),
            None => (Ok(Self::created(root_path)), Some(Self::new_meta_bytes())),
        }
    }

    /// The bytes of the metadata file that creating a new tree writes.
    pub fn new_meta_bytes() -> (r: Vec<u8>)
        ensures
            r@ == new_meta(),
    {
        let mut r: Vec<u8> = vec![0x42u8, 0x4du8];
        assert(r@ =~= meta_magic());
        let mut ver = u16_to_le_bytes(BP_META_VERSION);
        r.append(&mut ver);
        let mut num_pages = u32_to_le_bytes(1);
        r.append(&mut num_pages);
        let mut num_keys = u64_to_le_bytes(0);
        r.append(&mut num_keys);
        let mut num_elements = u64_to_le_bytes(0);
        r.append(&mut num_elements);
        let mut root_node_id = u64_to_le_bytes(0);
        r.append(&mut root_node_id);
        let mut page_size = u64_to_le_bytes(PAGE_SIZE as u64);
        r.append(&mut page_size);
        r
    }

    /// The page that holds `node`, listing `checksum` as its checksum.
    pub fn page_with_checksum(node: &[u8], checksum: u64) -> (r: Vec<u8>)
        requires
            node@.len() <= PAGE_SIZE - BP_PAGE_HEADER_SIZE,
        ensures
            r@ == page_bytes(node@, checksum),
            r@.len() == PAGE_SIZE,
    {
        let mut r: Vec<u8> = vec![0x42u8, 0x4eu8];
        assert(r@ =~= page_magic());
        let mut ver = u16_to_le_bytes(BP_PAGE_VERSION);
        r.append(&mut ver);
        let mut size = u32_to_le_bytes(node.len() as u32);
        r.append(&mut size);
        let mut sum = u64_to_le_bytes(checksum);
        r.append(&mut sum);
        let mut data = slice_to_vec(node);
        r.append(&mut data);
        let ghost filled = r@;
        let pad = PAGE_SIZE - BP_PAGE_HEADER_SIZE - node.len();
        let mut i: usize = 0;
        while i < pad
            invariant
                i <= pad,
                r@.len() == filled.len() + i,
                r@.subrange(0, filled.len() as int) == filled,
                forall|j: int| filled.len() <= j < r@.len() ==> r@[j] == 0u8,
            decreases pad - i,
        {
            r.push(0u8);
            i += 1;
            assert(r@.subrange(0, filled.len() as int) =~= filled);
        }
        assert(r@ =~= page_bytes(node@, checksum));
        r
    }

    /// The root page that creating a new tree writes, holding the encoded
    /// empty node `node` and its checksum.
    pub fn root_page(node: &[u8]) -> (r: Vec<u8>)
        requires
            node@.len() <= PAGE_SIZE - BP_PAGE_HEADER_SIZE,
        ensures
            r@ == page_bytes(node@, xxh3_64_of(node@)),
            r@.len() == PAGE_SIZE,
    {
        let checksum = xxh3_64(node);
        Self::page_with_checksum(node, checksum)
    }

    /// Checks the header of page `id`: gives the size of its data and its checksum.
    pub fn verify_page_header(id: PageId, page: &[u8]) -> (r: Result<(u32, u64), PageError>)
        ensures
            match r {
                Ok(h) => page_header(id, page@) == Ok::<_, PageErrorV>(h),
                Err(e) => page_header(id, page@) == Err::<(u32, u64), _>(e@),
            },
    {
        if page.len() < 2 {
            return Err(PageError::ReadError(UtilReadError::IoError(unexpected_eof())));
        }
        let magic: Vec<u8> = vec![0x42u8, 0x4eu8];
        assert(magic@ =~= page_magic());
        if !starts_with(page, magic.as_slice()) {
            return Err(PageError::InvalidMagic(id));
        }
        if page.len() < 4 {
            return Err(PageError::ReadError(UtilReadError::IoError(unexpected_eof())));
        }
        let ver = u16_from_le_bytes(slice_subrange(page, 2, 4));
        if ver != BP_PAGE_VERSION {
            return Err(PageError::UnknownVersion(ver, id));
        }
        if page.len() < 16 {
            return Err(PageError::ReadError(UtilReadError::IoError(unexpected_eof())));
        }
        let data_size = u32_from_le_bytes(slice_subrange(page, 4, 8));
        let checksum = u64_from_le_bytes(slice_subrange(page, 8, 16));
        Ok((data_size, checksum))
    }

    /// Reads page `id`: gives the checksum it lists and its node data.
    pub fn read_page(id: PageId, page: &[u8]) -> (r: Result<(u64, Vec<u8>), PageError>)
        ensures
            match r {
                Ok((c, d)) => page_contents(id, page@) == Ok::<_, PageErrorV>((c, d@)),
                Err(e) => page_contents(id, page@) == Err::<(u64, Seq<u8>), _>(e@),
            },
    {
        let (data_size, checksum) = Self::verify_page_header(id, page)?;
        if page.len() - 16 < data_size as usize {
            return Err(PageError::ReadError(UtilReadError::IoError(unexpected_eof())));
        }
        let data = slice_to_vec(slice_subrange(page, 16, 16 + data_size as usize));
        Ok((checksum, data))
    }

    /// Checks the node data of page `id` against the checksum the page lists,
    /// given the hash `computed_hash` of the data.
    pub fn check_page(id: PageId, checksum: u64, data: Vec<u8>, computed_hash: u64) -> (r: Result<
        Vec<u8>,
        PageError,
    >)
        ensures
            match r {
                Ok(d) => page_checked(id, (checksum, data@), computed_hash) == Ok::<_, PageErrorV>(
                    d@,
                ),
                Err(e) => page_checked(id, (checksum, data@), computed_hash) == Err::<Seq<u8>, _>(
                    e@,
                ),
            },
    {
        if checksum != computed_hash {
            return Err(PageError::InvalidHash(id));
        }
        Ok(data)
    }

    /// The node data of page `id`, once its header and its checksum have been checked.
    pub fn node_data(id: PageId, page: &[u8]) -> (r: Result<Vec<u8>, PageError>)
        ensures
            match r {
                Ok(d) => page_node_data(id, page@) == Ok::<_, PageErrorV>(d@),
                Err(e) => page_node_data(id, page@) == Err::<Seq<u8>, _>(e@),
            },
    {
        let (checksum, data) = Self::read_page(id, page)?;
        let h = xxh3_64(data.as_slice());
        Self::check_page(id, checksum, data, h)
    }

    /// The smallest and the largest number of keys a node holds, for the page size.
    pub fn calc_balance_factor() -> (r: (usize, usize))
        ensures
            r.1 == (PAGE_SIZE - BP_PAGE_HEADER_SIZE) / 28,
            r.0 == (r.1 + 1) / 2,
    {
        // an estimate of the average size of an entry
        let entry_size: usize = 28;
        let max: usize = (PAGE_SIZE - BP_PAGE_HEADER_SIZE) / entry_size;
        let min: usize = (max + 1) / 2;
        (min, max)
    }
}

/// A page reads back as the node data it was written with.
pub proof fn lemma_page_roundtrip(id: PageId, data: Seq<u8>, checksum: u64)
    requires
        data.len() <= PAGE_SIZE - BP_PAGE_HEADER_SIZE,
    ensures
        page_header(id, page_bytes(data, checksum)) == Ok::<_, PageErrorV>(
            (data.len() as u32, checksum),
        ),
        page_contents(id, page_bytes(data, checksum)) == Ok::<_, PageErrorV>((checksum, data)),
{
    lemma_auto_spec_u16_to_from_le_bytes();
    lemma_auto_spec_u32_to_from_le_bytes();
    lemma_auto_spec_u64_to_from_le_bytes();
    let b = page_bytes(data, checksum);
    assert(b.subrange(0, 2) =~= page_magic());
    assert(b.subrange(2, 4) =~= spec_u16_to_le_bytes(BP_PAGE_VERSION));
    assert(b.subrange(4, 8) =~= spec_u32_to_le_bytes(data.len() as u32));
    assert(b.subrange(8, 16) =~= spec_u64_to_le_bytes(checksum));
    assert(b.subrange(16, 16 + data.len() as int) =~= data);
}

/// The root page of a new tree reads back as the node it was built from.
pub proof fn lemma_root_page_roundtrip(id: PageId, node: Seq<u8>)
    requires
        node.len() <= PAGE_SIZE - BP_PAGE_HEADER_SIZE,
    ensures
        page_node_data(id, page_bytes(node, xxh3_64_of(node))) == Ok::<_, PageErrorV>(node),
{
    lemma_page_roundtrip(id, node, xxh3_64_of(node));
}

/// The metadata file that creating a tree writes reads back as a tree of one
/// page, no keys and no elements, with page 0 as its root.
pub proof fn lemma_new_meta_roundtrip()
    ensures
        new_meta().len() == 40,
        meta_parsed(new_meta()) == Ok::<_, BPlusTreeErrorV>((1u32, 0u64, 0u64, 0u64)),
{
    lemma_auto_spec_u16_to_from_le_bytes();
    lemma_auto_spec_u32_to_from_le_bytes();
    lemma_auto_spec_u64_to_from_le_bytes();
    let b = new_meta();
    assert(b.subrange(0, 2) =~= meta_magic());
    assert(b.subrange(2, 4) =~= spec_u16_to_le_bytes(BP_META_VERSION));
    assert(b.subrange(4, 8) =~= spec_u32_to_le_bytes(1));
    assert(b.subrange(8, 16) =~= spec_u64_to_le_bytes(0));
    assert(b.subrange(16, 24) =~= spec_u64_to_le_bytes(0));
    assert(b.subrange(24, 32) =~= spec_u64_to_le_bytes(0));
    assert(b.subrange(32, 40) =~= spec_u64_to_le_bytes(PAGE_SIZE as u64));
}

/// A tree created in a folder without a metadata file is opened again, from
/// the metadata file that creating it wrote, with the same number of pages,
/// keys and elements and the same root page.
pub proof fn lemma_created_tree_reopens()
    ensures
        opened(None).1 matches Some(b) && opened(Some(b)).0 == opened(None).0,
{
    lemma_new_meta_roundtrip();
}

} // verus!
