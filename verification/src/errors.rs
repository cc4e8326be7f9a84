//! The failures of the service that hands out upload and download URLs.

use crate::decimal::{decimal, to_decimal};
use crate::error::{IoErrorKind, IoFailure};
use crate::file_extensions::ExtensionError;
use vstd::prelude::*;
use vstd::std_specs::convert::FromSpecImpl;
use vstd::string::StringExecFns;

verus! {

/// Errors that can happen when handling requests.
#[derive(Debug, Clone, PartialEq, Eq)]
pub enum PithosError {
    /// No signed URL could be made; what the signer reported.
    Access(String),
    /// The announced size of an upload, and the largest size that is allowed,
    /// which it exceeds.
    TooLarge(u64, u64),
    /// The client's address is on the blacklist.
    Blocked,
    /// The storage failed while a file was written or read; a description.
    ServerError(String),
    /// No file is stored under the identifier.
    NoSuchFile,
    /// The extension hint of a download breaks the grammar of extensions.
    InvalidExtension(ExtensionError),
    /// The type hint of a download is no media type; the hint.
    InvalidQuery(String),
}

impl PithosError {
    /// The HTTP status that answers a request that failed in this way.
    pub open spec fn spec_status_code(self) -> u16 {
        match self {
            PithosError::TooLarge(_, _) => 413,
            PithosError::Blocked => 403,
            PithosError::Access(_) => 500,
            PithosError::ServerError(_) => 500,
            PithosError::NoSuchFile => 404,
            PithosError::InvalidExtension(_) => 400,
            PithosError::InvalidQuery(_) => 400,
        }
    }

    /// The HTTP status that answers a request that failed in this way.
    pub fn status_code(&self) -> (code: u16)
        ensures
            code == self.spec_status_code(),
    {
        match self {
            PithosError::TooLarge(_, _) => 413,
            PithosError::Blocked => 403,
            PithosError::Access(_) | PithosError::ServerError(_) => 500,
            PithosError::NoSuchFile => 404,
            PithosError::InvalidExtension(_) | PithosError::InvalidQuery(_) => 400,
        }
    }

    /// Whether the failure is the server's own and is to be logged: failures
    /// that a client caused are not.
    pub fn is_server_error(&self) -> (logged: bool)
        ensures
            logged == (500 <= self.spec_status_code() < 600),
            logged == (self is Access || self is ServerError),
    {
        let code = self.status_code();
        500 <= code && code < 600
    }

    /// The text shown to the client. It names both sizes of an upload that is
    /// too large, and the rule that a bad extension breaks.
    pub open spec fn spec_message(self) -> Seq<char> {
        match self {
            PithosError::TooLarge(given, max) =>
                "The file you tried to upload was too large. The maximum file size is "@
                    + decimal(max as nat) + " bytes, but you tried to upload "@ + decimal(
                    given as nat,
                ) + " bytes."@,
            PithosError::Blocked => "You are blocked from using this service."@,
            PithosError::Access(_) => "The server failed to create an access URL"@,
            PithosError::ServerError(_) => "The storage server failed to store the file."@,
            PithosError::NoSuchFile => "The file being requested doesn't exist. "@,
            PithosError::InvalidExtension(cause) =>
                "The requested file extension was invalid. It must be one or more groups of a dot followed by unicode alphanumerics: "@
                    + cause.spec_message(),
            PithosError::InvalidQuery(_) => "The requested type hint was not a media type."@,
        }
    }

    /// The text shown to the client.
    pub fn message(&self) -> (text: String)
        ensures
            text@ == self.spec_message(),
    {
        match self {
            PithosError::TooLarge(given, max) => {
                let mut text = String::from_str(
                    "The file you tried to upload was too large. The maximum file size is ",
                );
                text.append(to_decimal(*max).as_str());
                text.append(" bytes, but you tried to upload ");
                text.append(to_decimal(*given).as_str());
                text.append(" bytes.");
                text
            },
            PithosError::Blocked => String::from_str("You are blocked from using this service."),
            PithosError::Access(_) => String::from_str("The server failed to create an access URL"),
            PithosError::ServerError(_) => String::from_str(
                "The storage server failed to store the file.",
            ),
            PithosError::NoSuchFile => String::from_str("The file being requested doesn't exist. "),
            PithosError::InvalidExtension(cause) => {
                let mut text = String::from_str(
                    "The requested file extension was invalid. It must be one or more groups of a dot followed by unicode alphanumerics: ",
                );
                text.append(cause.message().as_str());
                text
            },
            PithosError::InvalidQuery(_) => String::from_str(
                "The requested type hint was not a media type.",
            ),
        }
    }

    /// The error that a failure to open a stored file is reported as.
    pub open spec fn of_open_failure(failure: IoFailure) -> PithosError {
        match failure.kind {
            IoErrorKind::NotFound => PithosError::NoSuchFile,
            _ => PithosError::ServerError(failure.detail),
        }
    }

    /// Reports a failure to open a stored file: a file that does not exist is
    /// told apart from every other failure.
    pub fn from_open_failure(failure: IoFailure) -> (error: PithosError)
        ensures
            error == PithosError::of_open_failure(failure),
            error is NoSuchFile <==> failure.kind == IoErrorKind::NotFound,
    {
        match failure.kind {
            IoErrorKind::NotFound => PithosError::NoSuchFile,
            _ => PithosError::ServerError(failure.detail),
        }
    }

    /// What the outcome of creating the storage directory means for an
    /// upload: a directory that exists already is no failure.
    pub fn storage_created(outcome: Result<(), IoFailure>) -> (checked: Result<(), PithosError>)
        ensures
            checked == match outcome {
                Ok(_) => Ok::<(), PithosError>(()),
                Err(failure) => if failure.kind == IoErrorKind::AlreadyExists {
                    Ok(())
                } else {
                    Err(PithosError::ServerError(failure.detail))
                },
            },
    {
        match outcome {
            Ok(_) => Ok(()),
            Err(failure) => match failure.kind {
                IoErrorKind::AlreadyExists => Ok(()),
                _ => Err(PithosError::ServerError(failure.detail)),
            },
        }
    }
}

impl From<ExtensionError> for PithosError {
    fn from(cause: ExtensionError) -> (error: PithosError) {
        PithosError::InvalidExtension(cause)
    }
}

impl FromSpecImpl<ExtensionError> for PithosError {
    open spec fn obeys_from_spec() -> bool {
        true
    }

    open spec fn from_spec(cause: ExtensionError) -> PithosError {
        PithosError::InvalidExtension(cause)
    }
}

/// An upload is admitted exactly if its announced size does not exceed the
/// largest size allowed. A refusal names both sizes.
pub fn check_upload_size(declared: u64, maximum: u64) -> (admitted: Result<(), PithosError>)
    ensures
        declared <= maximum ==> admitted == Ok::<(), PithosError>(()),
        declared > maximum ==> admitted == Err::<(), PithosError>(
            PithosError::TooLarge(declared, maximum),
        ),
{
    if declared > maximum {
        return Err(PithosError::TooLarge(declared, maximum));
    }
    Ok(())
}

/// The answer to an upload that is too large has status 413 and a text that
/// holds both the announced and the largest size, written in decimal.
pub proof fn lemma_refusal_names_both_sizes(declared: u64, maximum: u64)
    ensures
        PithosError::TooLarge(declared, maximum).spec_status_code() == 413,
        PithosError::TooLarge(declared, maximum).spec_message()
            == "The file you tried to upload was too large. The maximum file size is "@ + decimal(
            maximum as nat,
        ) + " bytes, but you tried to upload "@ + decimal(declared as nat) + " bytes."@,
{
}

} // verus!
