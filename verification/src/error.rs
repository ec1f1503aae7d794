use vstd::prelude::*;

verus! {

/// Why a storage operation was refused or abandoned.
#[derive(Clone, Copy, Debug, PartialEq, Eq, Structural)]
pub enum StorageError {
    /// The path, or the directory that should hold it, is missing from the index.
    NotFound,
    /// A directory is to be created where an entry already stands.
    AlreadyExists,
    /// A directory that still lists children is to be removed.
    DirectoryNotEmpty,
    /// The operation is not offered: renaming a directory, or a transfer
    /// that starts anywhere but at the first byte.
    NotImplemented,
    /// The remote service could not be reached or answered with a failure.
    TransportFailure,
    /// The index document could not be read or written.
    IndexFailure,
    /// The index document or a reply of the remote service is malformed.
    DecodingFailure,
}

impl StorageError {
    /// A short description for logs and protocol replies.
    pub fn message(&self) -> (text: &'static str)
        ensures
            text@ == Self::message_of(*self),
    {
        match self {
            StorageError::NotFound => "no such file or directory",
            StorageError::AlreadyExists => "entry already exists",
            StorageError::DirectoryNotEmpty => "directory is not empty",
            StorageError::NotImplemented => "operation is not implemented",
            StorageError::TransportFailure => "remote service failure",
            StorageError::IndexFailure => "index document is unavailable",
            StorageError::DecodingFailure => "malformed document",
        }
    }

    /// The text that [`StorageError::message`] returns for each error.
    pub open spec fn message_of(e: StorageError) -> Seq<char> {
        match e {
            StorageError::NotFound => "no such file or directory"@,
            StorageError::AlreadyExists => "entry already exists"@,
            StorageError::DirectoryNotEmpty => "directory is not empty"@,
            StorageError::NotImplemented => "operation is not implemented"@,
            StorageError::TransportFailure => "remote service failure"@,
            StorageError::IndexFailure => "index document is unavailable"@,
            StorageError::DecodingFailure => "malformed document"@,
        }
    }
}

} // verus!
