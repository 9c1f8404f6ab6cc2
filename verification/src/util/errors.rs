use vstd::prelude::*;

verus! {

/// Declares `std::io::Error` to Verus; its values are carried, never looked into.
#[verifier::external_type_specification]
#[verifier::external_body]
pub struct ExIoError(std::io::Error);

/// Declares `std::string::FromUtf8Error` to Verus; its values are carried, never looked into.
#[verifier::external_type_specification]
#[verifier::external_body]
pub struct ExFromUtf8Error(std::string::FromUtf8Error);

/// An error met while reading from a byte source.
#[derive(Debug)]
pub enum UtilReadError {
    IoError(std::io::Error),
    Utf8ParseError(std::string::FromUtf8Error),
}

/// Which kind of [`UtilReadError`] a value is.
pub enum UtilReadErrorV {
    IoError,
    Utf8ParseError,
}

impl View for UtilReadError {
    type V = UtilReadErrorV;

    open spec fn view(&self) -> UtilReadErrorV {
        match self {
            UtilReadError::IoError(_) => UtilReadErrorV::IoError,
            UtilReadError::Utf8ParseError(_) => UtilReadErrorV::Utf8ParseError,
        }
    }
}

/// The error that reading past the end of the available bytes gives.
///
/// Trusted: calls `std::io::Error::from` on `std::io::ErrorKind::UnexpectedEof`;
/// nothing is stated of the value, which is only carried.
#[verifier::external_body]
pub(crate) fn unexpected_eof() -> std::io::Error {
    std::io::Error::from(std::io::ErrorKind::UnexpectedEof)
}

} // verus!
