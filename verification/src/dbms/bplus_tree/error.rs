use vstd::prelude::*;

use crate::util::errors::{UtilReadError, UtilReadErrorV};

verus! {

/// Declares `std::path::PathBuf` to Verus; its values are carried, never looked into.
#[verifier::external_type_specification]
#[verifier::external_body]
pub struct ExPathBuf(std::path::PathBuf);

/// Declares `rkyv::rancor::Error` to Verus; its values are carried, never looked into.
#[verifier::external_type_specification]
#[verifier::external_body]
pub struct ExRancorError(rkyv::rancor::Error);

/// An error met while opening or creating a B+ tree.
#[derive(Debug)]
pub enum BPlusTreeError {
    Io(std::io::Error),
    RootPathNotDirectory(std::path::PathBuf),
    MetaDataFileIo(std::io::Error),
    MetaDataFileInvalidMagic,
    MetaDataFileVersionMismatch(u16),
    /// The page size this program uses, and the one the tree was made with
    MetaDataInvalidPageSize(u64, u64),
    IoReadError(UtilReadError),
    RkyvError(rkyv::rancor::Error),
}

/// Which kind of [`BPlusTreeError`] a value is, with its plain payloads.
pub enum BPlusTreeErrorV {
    Io,
    RootPathNotDirectory,
    MetaDataFileIo,
    MetaDataFileInvalidMagic,
    MetaDataFileVersionMismatch(u16),
    MetaDataInvalidPageSize(u64, u64),
    IoReadError(UtilReadErrorV),
    RkyvError,
}

impl View for BPlusTreeError {
    type V = BPlusTreeErrorV;

    open spec fn view(&self) -> BPlusTreeErrorV {
        match self {
            BPlusTreeError::Io(_) => BPlusTreeErrorV::Io,
            BPlusTreeError::RootPathNotDirectory(_) => BPlusTreeErrorV::RootPathNotDirectory,
            BPlusTreeError::MetaDataFileIo(_) => BPlusTreeErrorV::MetaDataFileIo,
            BPlusTreeError::MetaDataFileInvalidMagic => BPlusTreeErrorV::MetaDataFileInvalidMagic,
            BPlusTreeError::MetaDataFileVersionMismatch(v) =>
                BPlusTreeErrorV::MetaDataFileVersionMismatch(*v),
            BPlusTreeError::MetaDataInvalidPageSize(a, b) =>
                BPlusTreeErrorV::MetaDataInvalidPageSize(*a, *b),
            BPlusTreeError::IoReadError(e) => BPlusTreeErrorV::IoReadError(e@),
            BPlusTreeError::RkyvError(_) => BPlusTreeErrorV::RkyvError,
        }
    }
}

/// An error met while reading a page of a B+ tree.
#[derive(Debug)]
pub enum PageError {
    Io(std::io::Error),
    ReadError(UtilReadError),
    /// The version found, and the page
    UnknownVersion(u16, u64),
    InvalidHash(u64),
    InvalidMagic(u64),
    RkyvError(rkyv::rancor::Error),
}

/// Which kind of [`PageError`] a value is, with its plain payloads.
pub enum PageErrorV {
    Io,
    ReadError(UtilReadErrorV),
    UnknownVersion(u16, u64),
    InvalidHash(u64),
    InvalidMagic(u64),
    RkyvError,
}

impl View for PageError {
    type V = PageErrorV;

    open spec fn view(&self) -> PageErrorV {
        match self {
            PageError::Io(_) => PageErrorV::Io,
            PageError::ReadError(e) => PageErrorV::ReadError(e@),
            PageError::UnknownVersion(v, id) => PageErrorV::UnknownVersion(*v, *id),
            PageError::InvalidHash(id) => PageErrorV::InvalidHash(*id),
            PageError::InvalidMagic(id) => PageErrorV::InvalidMagic(*id),
            PageError::RkyvError(_) => PageErrorV::RkyvError,
        }
    }
}

} // verus!
