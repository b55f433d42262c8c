//! The one error type of the library.

use vstd::prelude::*;

verus! {

/// `std::io::Error`, the failure of the file system to give the bytes of a
/// package. It is carried to the caller as it is.
#[verifier::external_type_specification]
#[verifier::external_body]
pub struct ExIoError(std::io::Error);

/// Why a document could not be read. Each variant keeps the failure that
/// caused it, as the part of the work that failed reported it.
#[derive(Debug)]
pub enum DocxError {
    /// The package could not be read from where it is kept.
    IO(std::io::Error),
    /// The package is not a zip archive that can be read, or the document
    /// part cannot be had from it.
    Zip(zip::result::ZipError),
    /// The document part is not XML that can be parsed.
    XML(minidom::Error),
    /// The text could not be written out.
    Fmt(core::fmt::Error),
}

impl From<std::io::Error> for DocxError {
    fn from(err: std::io::Error) -> (error: Self) {
        DocxError::IO(err)
    }
}

impl vstd::std_specs::convert::FromSpecImpl<std::io::Error> for DocxError {
    open spec fn obeys_from_spec() -> bool {
        true
    }

    open spec fn from_spec(err: std::io::Error) -> Self {
        DocxError::IO(err)
    }
}

impl From<zip::result::ZipError> for DocxError {
    fn from(err: zip::result::ZipError) -> (error: Self) {
        DocxError::Zip(err)
    }
}

impl vstd::std_specs::convert::FromSpecImpl<zip::result::ZipError> for DocxError {
    open spec fn obeys_from_spec() -> bool {
        true
    }

    open spec fn from_spec(err: zip::result::ZipError) -> Self {
        DocxError::Zip(err)
    }
}

impl From<minidom::Error> for DocxError {
    fn from(err: minidom::Error) -> (error: Self) {
        DocxError::XML(err)
    }
}

impl vstd::std_specs::convert::FromSpecImpl<minidom::Error> for DocxError {
    open spec fn obeys_from_spec() -> bool {
        true
    }

    open spec fn from_spec(err: minidom::Error) -> Self {
        DocxError::XML(err)
    }
}

impl From<core::fmt::Error> for DocxError {
    fn from(err: core::fmt::Error) -> (error: Self) {
        DocxError::Fmt(err)
    }
}

impl vstd::std_specs::convert::FromSpecImpl<core::fmt::Error> for DocxError {
    open spec fn obeys_from_spec() -> bool {
        true
    }

    open spec fn from_spec(err: core::fmt::Error) -> Self {
        DocxError::Fmt(err)
    }
}

} // verus!
