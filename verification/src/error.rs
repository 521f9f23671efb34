//! The error type of every operation of this library.

use std::path::PathBuf;
use vstd::prelude::*;

verus! {

/// `std::io::Error`, carried through as an opaque value.
#[verifier::external_type_specification]
#[verifier::external_body]
pub struct ExIoError(std::io::Error);

/// `std::path::PathBuf`, carried through as an opaque value.
#[verifier::external_type_specification]
#[verifier::external_body]
pub struct ExPathBuf(std::path::PathBuf);

/// Everything that can go wrong while a container is written or read.
#[derive(Debug)]
pub enum ResqryptError {
    /// An I/O operation failed, or the input ended inside the header.
    Io(std::io::Error),
    /// The input is not a container of a version this codec reads.
    InvalidFormat(String),
    /// Key derivation or the cipher refused its input.
    CryptoError(String),
    /// The cipher could not authenticate the data: the password is wrong or
    /// the container was altered. The two are not told apart.
    PasswordError(String),
    /// The compressor or the decompressor failed.
    CompressionError(String),
    /// An archive could not be built or unpacked.
    ArchiveError(String),
    /// The input path does not exist.
    NotFound(PathBuf),
    /// The output path exists already.
    AlreadyExists(PathBuf),
    /// An argument cannot be used as given.
    InvalidArgument(String),
}

/// The kind of a [`ResqryptError`], without what it carries.
#[derive(Debug, Clone, Copy, PartialEq, Eq, Structural)]
pub enum ErrorKind {
    Io,
    InvalidFormat,
    CryptoError,
    PasswordError,
    CompressionError,
    ArchiveError,
    NotFound,
    AlreadyExists,
    InvalidArgument,
}

impl ResqryptError {
    /// The kind of this error.
    pub open spec fn spec_kind(&self) -> ErrorKind {
        match self {
            ResqryptError::Io(_) => ErrorKind::Io,
            ResqryptError::InvalidFormat(_) => ErrorKind::InvalidFormat,
            ResqryptError::CryptoError(_) => ErrorKind::CryptoError,
            ResqryptError::PasswordError(_) => ErrorKind::PasswordError,
            ResqryptError::CompressionError(_) => ErrorKind::CompressionError,
            ResqryptError::ArchiveError(_) => ErrorKind::ArchiveError,
            ResqryptError::NotFound(_) => ErrorKind::NotFound,
            ResqryptError::AlreadyExists(_) => ErrorKind::AlreadyExists,
            ResqryptError::InvalidArgument(_) => ErrorKind::InvalidArgument,
        }
    }

    /// The kind of this error.
    #[verifier::when_used_as_spec(spec_kind)]
    pub fn kind(&self) -> (kind: ErrorKind)
        ensures
            kind == self.spec_kind(),
    {
        match self {
            ResqryptError::Io(_) => ErrorKind::Io,
            ResqryptError::InvalidFormat(_) => ErrorKind::InvalidFormat,
            ResqryptError::CryptoError(_) => ErrorKind::CryptoError,
            ResqryptError::PasswordError(_) => ErrorKind::PasswordError,
            ResqryptError::CompressionError(_) => ErrorKind::CompressionError,
            ResqryptError::ArchiveError(_) => ErrorKind::ArchiveError,
            ResqryptError::NotFound(_) => ErrorKind::NotFound,
            ResqryptError::AlreadyExists(_) => ErrorKind::AlreadyExists,
            ResqryptError::InvalidArgument(_) => ErrorKind::InvalidArgument,
        }
    }
}

/// An error of the kind `UnexpectedEof` with the given text, made by
/// `std::io::Error::new`. Nothing is claimed of the value.
#[verifier::external_body]
pub(crate) fn unexpected_eof(text: &str) -> std::io::Error {
    std::io::Error::new(std::io::ErrorKind::UnexpectedEof, text)
}

/// The text of a `std::io::Error`, as its `Display` gives it, behind `prefix`.
#[verifier::external_body]
pub(crate) fn io_error_text(prefix: &str, error: &std::io::Error) -> String {
    format!("{}{}", prefix, error)
}

} // verus!
