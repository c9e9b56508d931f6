//! The errors of the store.
use vstd::prelude::*;

verus! {

/// Why a store operation failed.
#[derive(Debug)]
pub enum StoreError {
    /// SQLite refused a statement or a row could not be read.
    Sqlite(rusqlite::Error),
    /// A recorded keychain is not valid JSON text for a string.
    Json(serde_json::Error),
    /// Recorded bytes are not a transaction id or a transaction.
    Encode(bitcoin::consensus::encode::Error),
    /// The descriptor checksum on record differs from the one given.
    ChecksumMismatch,
    /// A recorded keychain names no keychain.
    UnknownKeychain(String),
    /// The next derivation index would not fit in 32 bits.
    IndexOverflow,
    /// A reply does not fit the statement it answers.
    UnexpectedReply,
}

/// The kind of a `StoreError`, with the value it carries where that is plain.
pub enum ErrorKind {
    Sqlite,
    Json,
    Encode,
    ChecksumMismatch,
    UnknownKeychain(Seq<char>),
    IndexOverflow,
    UnexpectedReply,
}

impl View for StoreError {
    type V = ErrorKind;

    open spec fn view(&self) -> ErrorKind {
        match self {
            StoreError::Sqlite(_) => ErrorKind::Sqlite,
            StoreError::Json(_) => ErrorKind::Json,
            StoreError::Encode(_) => ErrorKind::Encode,
            StoreError::ChecksumMismatch => ErrorKind::ChecksumMismatch,
            StoreError::UnknownKeychain(s) => ErrorKind::UnknownKeychain(s@),
            StoreError::IndexOverflow => ErrorKind::IndexOverflow,
            StoreError::UnexpectedReply => ErrorKind::UnexpectedReply,
        }
    }
}

} // verus!
