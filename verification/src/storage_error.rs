//! Errors of the session store that its logic can produce.

use vstd::prelude::*;

verus! {

/// Errors that the store's logic reports. Database, migration and file
/// system failures are reported by the layer that performs the I/O.
#[derive(Debug, Clone, PartialEq)]
pub enum StorageError {
    NotFound(String),
    InvalidInput(String),
    NotDeleted(String),
    RestoreExpired(String),
    ParquetWrite(String),
    ParquetRead(String),
    ChecksumMismatch { path: String },
    UnsupportedFormat(String),
    ParseError(String),
    SchemaMismatch(String),
    DuplicateSession(String),
    AlreadyDeleted(String),
}

/// A storage error with its text taken as a sequence of characters.
pub ghost enum StorageErrorView {
    NotFound(Seq<char>),
    InvalidInput(Seq<char>),
    NotDeleted(Seq<char>),
    RestoreExpired(Seq<char>),
    ParquetWrite(Seq<char>),
    ParquetRead(Seq<char>),
    ChecksumMismatch(Seq<char>),
    UnsupportedFormat(Seq<char>),
    ParseError(Seq<char>),
    SchemaMismatch(Seq<char>),
    DuplicateSession(Seq<char>),
    AlreadyDeleted(Seq<char>),
}

impl View for StorageError {
    type V = StorageErrorView;

    open spec fn view(&self) -> StorageErrorView {
        match self {
            StorageError::NotFound(m) => StorageErrorView::NotFound(m@),
            StorageError::InvalidInput(m) => StorageErrorView::InvalidInput(m@),
            StorageError::NotDeleted(m) => StorageErrorView::NotDeleted(m@),
            StorageError::RestoreExpired(m) => StorageErrorView::RestoreExpired(m@),
            StorageError::ParquetWrite(m) => StorageErrorView::ParquetWrite(m@),
            StorageError::ParquetRead(m) => StorageErrorView::ParquetRead(m@),
            StorageError::ChecksumMismatch { path } => StorageErrorView::ChecksumMismatch(path@),
            StorageError::UnsupportedFormat(m) => StorageErrorView::UnsupportedFormat(m@),
            StorageError::ParseError(m) => StorageErrorView::ParseError(m@),
            StorageError::SchemaMismatch(m) => StorageErrorView::SchemaMismatch(m@),
            StorageError::DuplicateSession(m) => StorageErrorView::DuplicateSession(m@),
            StorageError::AlreadyDeleted(m) => StorageErrorView::AlreadyDeleted(m@),
        }
    }
}

/// The error is a parse error with the given message.
pub open spec fn is_parse_error(e: StorageError, msg: Seq<char>) -> bool {
    e@ == StorageErrorView::ParseError(msg)
}

} // verus!
