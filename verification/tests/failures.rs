use pithos::error::{storage_created, CorruptionError, IoErrorKind, IoFailure, PilviError};
use pithos::errors::{check_upload_size, PithosError};
use pithos::file_extensions::ExtensionError;

fn failure(kind: IoErrorKind) -> IoFailure {
    IoFailure { kind, detail: String::from("what happened") }
}

#[test]
fn a_missing_file_is_told_apart() {
    assert_eq!(
        PilviError::from(failure(IoErrorKind::NotFound)),
        PilviError::NoSuchFile(String::from("what happened"))
    );
    assert_eq!(
        PilviError::from(failure(IoErrorKind::Other)),
        PilviError::FileSystem(String::from("what happened"))
    );
    assert_eq!(
        PilviError::from(failure(IoErrorKind::AlreadyExists)),
        PilviError::FileSystem(String::from("what happened"))
    );
}

#[test]
fn a_missing_file_answers_with_not_found() {
    assert_eq!(PilviError::from(failure(IoErrorKind::NotFound)).status_code(), 404);
    assert_eq!(PithosError::from_open_failure(failure(IoErrorKind::NotFound)), PithosError::NoSuchFile);
    assert_eq!(PithosError::from_open_failure(failure(IoErrorKind::NotFound)).status_code(), 404);
    assert_eq!(
        PithosError::from_open_failure(failure(IoErrorKind::Other)),
        PithosError::ServerError(String::from("what happened"))
    );
    assert_eq!(PithosError::from_open_failure(failure(IoErrorKind::Other)).status_code(), 500);
}

#[test]
fn corruption_becomes_a_corrupted_file() {
    assert_eq!(
        PilviError::from(CorruptionError::FileName),
        PilviError::FileCorrupted(CorruptionError::FileName)
    );
    assert_eq!(
        PilviError::FileCorrupted(CorruptionError::Uri).source(),
        Some(CorruptionError::Uri)
    );
    assert_eq!(PilviError::ContentRead(String::new()).source(), None);
}

#[test]
fn statuses_of_the_transfer_failures() {
    assert_eq!(PilviError::FileSystem(String::new()).status_code(), 500);
    assert_eq!(PilviError::FileCorrupted(CorruptionError::Header).status_code(), 500);
    assert_eq!(PilviError::ContentRead(String::new()).status_code(), 400);
    assert_eq!(PilviError::NoSuchFile(String::new()).status_code(), 404);
}

#[test]
fn messages_of_the_transfer_failures() {
    assert_eq!(
        PilviError::FileSystem(String::new()).message(),
        "There was an unexpected file system error while storing your file in the cloud."
    );
    assert_eq!(
        PilviError::ContentRead(String::new()).message(),
        "There was an error transmitting your file over the internet."
    );
    assert_eq!(
        PilviError::FileCorrupted(CorruptionError::FileName).message(),
        "The requested file was corrupted on the server and can't be retrieved."
    );
    assert_eq!(PilviError::NoSuchFile(String::new()).message(), "The requested file does not exist.");
    assert_eq!(CorruptionError::Header.message(), "The server tried to send invalid data.");
    assert_eq!(
        CorruptionError::Uri.message(),
        "Google Cloud Storage returned an invalid object URI."
    );
    assert_eq!(CorruptionError::FileName.message(), "The requested file has been corrupted.");
}

#[test]
fn an_existing_directory_is_no_failure() {
    assert_eq!(storage_created(Ok(())), Ok(()));
    assert_eq!(storage_created(Err(failure(IoErrorKind::AlreadyExists))), Ok(()));
    assert_eq!(
        storage_created(Err(failure(IoErrorKind::Other))),
        Err(PilviError::FileSystem(String::from("what happened")))
    );
    assert_eq!(
        storage_created(Err(failure(IoErrorKind::NotFound))),
        Err(PilviError::NoSuchFile(String::from("what happened")))
    );
    assert_eq!(PithosError::storage_created(Ok(())), Ok(()));
    assert_eq!(PithosError::storage_created(Err(failure(IoErrorKind::AlreadyExists))), Ok(()));
    assert_eq!(
        PithosError::storage_created(Err(failure(IoErrorKind::NotFound))),
        Err(PithosError::ServerError(String::from("what happened")))
    );
}

#[test]
fn statuses_of_the_service_failures() {
    assert_eq!(PithosError::TooLarge(2, 1).status_code(), 413);
    assert_eq!(PithosError::Blocked.status_code(), 403);
    assert_eq!(PithosError::Access(String::new()).status_code(), 500);
    assert_eq!(PithosError::ServerError(String::new()).status_code(), 500);
    assert_eq!(PithosError::NoSuchFile.status_code(), 404);
    assert_eq!(PithosError::InvalidExtension(ExtensionError::EndsWithDot).status_code(), 400);
    assert_eq!(PithosError::InvalidQuery(String::new()).status_code(), 400);
}

#[test]
fn only_the_servers_own_failures_are_logged() {
    assert!(PithosError::Access(String::new()).is_server_error());
    assert!(PithosError::ServerError(String::new()).is_server_error());
    assert!(!PithosError::TooLarge(2, 1).is_server_error());
    assert!(!PithosError::Blocked.is_server_error());
    assert!(!PithosError::NoSuchFile.is_server_error());
    assert!(!PithosError::InvalidExtension(ExtensionError::EndsWithDot).is_server_error());
    assert!(!PithosError::InvalidQuery(String::new()).is_server_error());
}

#[test]
fn messages_of_the_service_failures() {
    assert_eq!(
        PithosError::TooLarge(2048, 1024).message(),
        "The file you tried to upload was too large. The maximum file size is 1024 bytes, but you tried to upload 2048 bytes."
    );
    assert_eq!(PithosError::Blocked.message(), "You are blocked from using this service.");
    assert_eq!(
        PithosError::Access(String::from("x")).message(),
        "The server failed to create an access URL"
    );
    assert_eq!(
        PithosError::ServerError(String::from("x")).message(),
        "The storage server failed to store the file."
    );
    assert_eq!(PithosError::NoSuchFile.message(), "The file being requested doesn't exist. ");
    assert_eq!(
        PithosError::InvalidExtension(ExtensionError::ConsecutiveDots).message(),
        "The requested file extension was invalid. It must be one or more groups of a dot followed by unicode alphanumerics: file extension contains multiple dots in a row, which isn't allowed"
    );
    assert_eq!(
        PithosError::InvalidQuery(String::from("x")).message(),
        "The requested type hint was not a media type."
    );
}

#[test]
fn an_extension_error_becomes_an_invalid_extension() {
    assert_eq!(
        PithosError::from(ExtensionError::TooLong(40)),
        PithosError::InvalidExtension(ExtensionError::TooLong(40))
    );
}

#[test]
fn uploads_up_to_the_limit_are_admitted() {
    assert_eq!(check_upload_size(0, 0), Ok(()));
    assert_eq!(check_upload_size(1024, 1024), Ok(()));
    assert_eq!(check_upload_size(1025, 1024), Err(PithosError::TooLarge(1025, 1024)));
    assert_eq!(check_upload_size(u64::MAX, 0), Err(PithosError::TooLarge(u64::MAX, 0)));
}

#[test]
fn a_refusal_echoes_both_sizes() {
    let refusal = check_upload_size(18446744073709551615, 10).unwrap_err();
    assert_eq!(refusal.status_code(), 413);
    let text = refusal.message();
    assert!(text.contains("18446744073709551615"));
    assert!(text.contains("The maximum file size is 10 bytes"));
}
