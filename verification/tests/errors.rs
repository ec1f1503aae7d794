use discord_ftp::error::StorageError;

#[test]
fn every_error_has_its_own_message() {
    let all = [
        StorageError::NotFound,
        StorageError::AlreadyExists,
        StorageError::DirectoryNotEmpty,
        StorageError::NotImplemented,
        StorageError::TransportFailure,
        StorageError::IndexFailure,
        StorageError::DecodingFailure,
    ];
    for (i, a) in all.iter().enumerate() {
        for (j, b) in all.iter().enumerate() {
            assert_eq!(a.message() == b.message(), i == j);
            assert_eq!(a == b, i == j);
        }
    }
}

#[test]
fn messages_are_fixed() {
    assert_eq!(StorageError::NotFound.message(), "no such file or directory");
    assert_eq!(StorageError::AlreadyExists.message(), "entry already exists");
    assert_eq!(StorageError::DirectoryNotEmpty.message(), "directory is not empty");
    assert_eq!(StorageError::NotImplemented.message(), "operation is not implemented");
    assert_eq!(StorageError::TransportFailure.message(), "remote service failure");
    assert_eq!(StorageError::IndexFailure.message(), "index document is unavailable");
    assert_eq!(StorageError::DecodingFailure.message(), "malformed document");
}
