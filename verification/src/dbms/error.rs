use vstd::prelude::*;

use crate::util::errors::{UtilReadError, UtilReadErrorV};

verus! {

/// Declares `bitcode::Error` to Verus; its values are carried, never looked into.
#[verifier::external_type_specification]
#[verifier::external_body]
pub struct ExBitcodeError(bitcode::Error);

/// An error met while loading a database's format file.
#[derive(Debug)]
pub enum DBFormatLoadError {
    Io(std::io::Error),
    DbFormatFileCorrupted,
    DbFormatFileInvalidChecksum,
    /// The file may have been written by a newer version
    DbFormatFileUnknownVersion(u32),
    DbFormatInvalidHeaderMagic,
    /// The format file could not be opened
    LoadingDbFormatFile(std::io::Error),
    UtilReadError(UtilReadError),
    DecodeError(bitcode::Error),
}

/// Which kind of [`DBFormatLoadError`] a value is, with its plain payloads.
pub enum DBFormatLoadErrorV {
    Io,
    DbFormatFileCorrupted,
    DbFormatFileInvalidChecksum,
    DbFormatFileUnknownVersion(u32),
    DbFormatInvalidHeaderMagic,
    LoadingDbFormatFile,
    UtilReadError(UtilReadErrorV),
    DecodeError,
}

impl View for DBFormatLoadError {
    type V = DBFormatLoadErrorV;

    open spec fn view(&self) -> DBFormatLoadErrorV {
        match self {
            DBFormatLoadError::Io(_) => DBFormatLoadErrorV::Io,
            DBFormatLoadError::DbFormatFileCorrupted => DBFormatLoadErrorV::DbFormatFileCorrupted,
            DBFormatLoadError::DbFormatFileInvalidChecksum =>
                DBFormatLoadErrorV::DbFormatFileInvalidChecksum,
            DBFormatLoadError::DbFormatFileUnknownVersion(v) =>
                DBFormatLoadErrorV::DbFormatFileUnknownVersion(*v),
            DBFormatLoadError::DbFormatInvalidHeaderMagic =>
                DBFormatLoadErrorV::DbFormatInvalidHeaderMagic,
            DBFormatLoadError::LoadingDbFormatFile(_) => DBFormatLoadErrorV::LoadingDbFormatFile,
            DBFormatLoadError::UtilReadError(e) => DBFormatLoadErrorV::UtilReadError(e@),
            DBFormatLoadError::DecodeError(_) => DBFormatLoadErrorV::DecodeError,
        }
    }
}

/// An error met while saving a database's format file.
#[derive(Debug)]
pub enum DBFormatSaveError {
    Io(std::io::Error),
}

} // verus!
