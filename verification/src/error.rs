//! The failures of the backends that move file content themselves.

use vstd::prelude::*;
use vstd::std_specs::convert::FromSpecImpl;
use vstd::string::StringExecFns;

verus! {

/// What was found to be malformed in stored or transmitted data.
#[derive(Debug, Copy, Clone, PartialEq, Eq, Structural)]
pub enum CorruptionError {
    /// A value that cannot be sent as a response header.
    Header,
    /// An object address that is no valid URI.
    Uri,
    /// A stored file name that is not valid UTF-8.
    FileName,
}

/// The kinds of input and output failure that the backends tell apart.
#[derive(Debug, Copy, Clone, PartialEq, Eq, Structural)]
pub enum IoErrorKind {
    /// The file or object does not exist.
    NotFound,
    /// What was to be created exists already.
    AlreadyExists,
    /// Any other failure.
    Other,
}

/// A failed input or output operation: its kind and a description.
#[derive(Debug, Clone, PartialEq, Eq)]
pub struct IoFailure {
    pub kind: IoErrorKind,
    pub detail: String,
}

/// Why a file could not be stored or retrieved.
#[derive(Debug, Clone, PartialEq, Eq)]
pub enum PilviError {
    /// The disk or the remote store failed; the description of the failure.
    FileSystem(String),
    /// No file is stored under the identifier; the description of the failure.
    NoSuchFile(String),
    /// The stored envelope breaks the framing rules.
    FileCorrupted(CorruptionError),
    /// The incoming stream failed or ended too early; a description.
    ContentRead(String),
}

impl CorruptionError {
    /// The text shown for this failure.
    pub open spec fn spec_message(self) -> Seq<char> {
        match self {
            CorruptionError::Header => "The server tried to send invalid data."@,
            CorruptionError::Uri => "Google Cloud Storage returned an invalid object URI."@,
            CorruptionError::FileName => "The requested file has been corrupted."@,
        }
    }

    /// The text shown for this failure.
    pub fn message(&self) -> (text: String)
        ensures
            text@ == self.spec_message(),
    {
        match self {
            CorruptionError::Header => String::from_str("The server tried to send invalid data."),
            CorruptionError::Uri => String::from_str(
                "Google Cloud Storage returned an invalid object URI.",
            ),
            CorruptionError::FileName => String::from_str("The requested file has been corrupted."),
        }
    }
}

impl PilviError {
    /// The HTTP status that answers a request that failed in this way.
    pub open spec fn spec_status_code(self) -> u16 {
        match self {
            PilviError::FileSystem(_) => 500,
            PilviError::FileCorrupted(_) => 500,
            PilviError::ContentRead(_) => 400,
            PilviError::NoSuchFile(_) => 404,
        }
    }

    /// The HTTP status that answers a request that failed in this way.
    pub fn status_code(&self) -> (code: u16)
        ensures
            code == self.spec_status_code(),
    {
        match self {
            PilviError::FileSystem(_) => 500,
            PilviError::FileCorrupted(_) => 500,
            PilviError::ContentRead(_) => 400,
            PilviError::NoSuchFile(_) => 404,
        }
    }

    /// The text shown to the client.
    pub open spec fn spec_message(self) -> Seq<char> {
        match self {
            PilviError::FileSystem(_) =>
                "There was an unexpected file system error while storing your file in the cloud."@,
            PilviError::ContentRead(_) =>
                "There was an error transmitting your file over the internet."@,
            PilviError::FileCorrupted(_) =>
                "The requested file was corrupted on the server and can't be retrieved."@,
            PilviError::NoSuchFile(_) => "The requested file does not exist."@,
        }
    }

    /// The text shown to the client.
    pub fn message(&self) -> (text: String)
        ensures
            text@ == self.spec_message(),
    {
        match self {
            PilviError::FileSystem(_) => String::from_str(
                "There was an unexpected file system error while storing your file in the cloud.",
            ),
            PilviError::ContentRead(_) => String::from_str(
                "There was an error transmitting your file over the internet.",
            ),
            PilviError::FileCorrupted(_) => String::from_str(
                "The requested file was corrupted on the server and can't be retrieved.",
            ),
            PilviError::NoSuchFile(_) => String::from_str("The requested file does not exist."),
        }
    }

    /// The error that a failed input or output operation is reported as.
    pub open spec fn of_io_failure(failure: IoFailure) -> PilviError {
        match failure.kind {
            IoErrorKind::NotFound => PilviError::NoSuchFile(failure.detail),
            _ => PilviError::FileSystem(failure.detail),
        }
    }

    /// The failure that lies behind this one, where there is one.
    pub fn source(&self) -> (cause: Option<CorruptionError>)
        ensures
            cause == match *self {
                PilviError::FileCorrupted(e) => Some(e),
                _ => None,
            },
    {
        match self {
            PilviError::FileCorrupted(e) => Some(*e),
            _ => None,
        }
    }
}

impl From<IoFailure> for PilviError {
    /// A failure to find the file is told apart from every other failure of
    /// the disk or the store.
    fn from(failure: IoFailure) -> (error: PilviError) {
        match failure.kind {
            IoErrorKind::NotFound => PilviError::NoSuchFile(failure.detail),
            _ => PilviError::FileSystem(failure.detail),
        }
    }
}

impl FromSpecImpl<IoFailure> for PilviError {
    open spec fn obeys_from_spec() -> bool {
        true
    }

    open spec fn from_spec(failure: IoFailure) -> PilviError {
        PilviError::of_io_failure(failure)
    }
}

impl From<CorruptionError> for PilviError {
    fn from(cause: CorruptionError) -> (error: PilviError) {
        PilviError::FileCorrupted(cause)
    }
}

impl FromSpecImpl<CorruptionError> for PilviError {
    open spec fn obeys_from_spec() -> bool {
        true
    }

    open spec fn from_spec(cause: CorruptionError) -> PilviError {
        PilviError::FileCorrupted(cause)
    }
}

/// An identifier that was never issued has no file: the failure to open it is
/// reported as `NoSuchFile`, and no other failure is.
pub proof fn lemma_not_found_is_told_apart(failure: IoFailure)
    ensures
        PilviError::of_io_failure(failure) is NoSuchFile <==> failure.kind == IoErrorKind::NotFound,
        PilviError::of_io_failure(failure).spec_status_code() == 404 <==> failure.kind
            == IoErrorKind::NotFound,
{
}

/// What a failed attempt to create the storage directory means: a directory
/// that exists already is no failure.
pub fn storage_created(outcome: Result<(), IoFailure>) -> (checked: Result<(), PilviError>)
    ensures
        checked == match outcome {
            Ok(_) => Ok::<(), PilviError>(()),
            Err(failure) => if failure.kind == IoErrorKind::AlreadyExists {
                Ok(())
            } else {
                Err(PilviError::of_io_failure(failure))
            },
        },
{
    match outcome {
        Ok(_) => Ok(()),
        Err(failure) => match failure.kind {
            IoErrorKind::AlreadyExists => Ok(()),
            _ => Err(PilviError::from(failure)),
        },
    }
}

} // verus!
