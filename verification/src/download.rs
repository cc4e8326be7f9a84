//! The hints that a client may give with a download, and the response
//! headers that they lead to.

use crate::errors::PithosError;
use crate::file_extensions::{is_extension, rejection, FileExt};
use crate::ident::{hyphenated, FileId};
use vstd::prelude::*;
use vstd::string::StringExecFns;
use vstd::utf8::encode_utf8;

verus! {

/// The text that `mime::Mime` displays for the media type that it reads from
/// `text`; `None` where it reads none.
pub uninterp spec fn media_type_text(text: Seq<char>) -> Option<Seq<char>>;

/// Reads `text` as a media type with the parser of `mime::Mime`, and returns
/// the media type as `mime::Mime` displays it.
#[verifier::external_body]
fn parse_media_type(text: &str) -> (shown: Option<String>)
    ensures
        shown is Some <==> media_type_text(text@) is Some,
        shown matches Some(t) ==> media_type_text(text@) == Some(t@),
{
    match text.parse::<mime::Mime>() {
        Ok(media_type) => Some(media_type.to_string()),
        Err(_) => None,
    }
}

/// The bytes that `http::HeaderValue` accepts: a tab, or any byte from 32 up
/// but 127.
pub open spec fn is_header_value(bytes: Seq<u8>) -> bool {
    forall|i: int| 0 <= i < bytes.len() ==> (32 <= #[trigger] bytes[i] && bytes[i] != 127)
        || bytes[i] == 9
}

/// Asks `http::HeaderValue` whether `text` can be the value of a header.
#[verifier::external_body]
pub(crate) fn accepted_as_header_value(text: &str) -> (accepted: bool)
    ensures
        accepted == is_header_value(encode_utf8(text@)),
{
    http::HeaderValue::from_str(text).is_ok()
}

/// The media type that a client wishes a download to be served as.
#[derive(Debug, Clone, PartialEq, Eq)]
pub struct TypeHint {
    text: String,
}

impl View for TypeHint {
    type V = Seq<char>;

    /// The media type in writing.
    closed spec fn view(&self) -> Seq<char> {
        self.text@
    }
}

impl TypeHint {
    /// Makes a hint of what the parser of media types answered for `raw`:
    /// the media type as it was read, or the rejected text as an error.
    pub fn from_parsed(raw: &str, shown: Option<String>) -> (hint: Result<TypeHint, PithosError>)
        ensures
            match shown {
                Some(text) => hint matches Ok(h) && h@ == text@,
                None => hint matches Err(PithosError::InvalidQuery(r)) && r@ == raw@,
            },
    {
        match shown {
            Some(text) => Ok(TypeHint { text }),
            None => Err(PithosError::InvalidQuery(String::from_str(raw))),
        }
    }

    /// Reads a hint. It is accepted exactly if it is a media type.
    pub fn parse(raw: &str) -> (hint: Result<TypeHint, PithosError>)
        ensures
            match media_type_text(raw@) {
                Some(text) => hint matches Ok(h) && h@ == text,
                None => hint matches Err(PithosError::InvalidQuery(r)) && r@ == raw@,
            },
    {
        TypeHint::from_parsed(raw, parse_media_type(raw))
    }

    /// The media type in writing.
    pub fn as_str(&self) -> (text: &str)
        ensures
            text@ == self@,
    {
        self.text.as_str()
    }
}

/// The hints that come with a download request.
#[derive(Debug, Clone)]
pub struct DownloadQuery {
    /// The media type to serve the file as.
    pub type_hint: Option<TypeHint>,
    /// The extension to give the file's name.
    pub ext_hint: Option<FileExt>,
}

impl DownloadQuery {
    /// Reads the two hints of a download request, each of which may be
    /// missing. The type hint is judged first.
    pub fn parse(type_hint: Option<&str>, ext_hint: Option<&str>) -> (query: Result<
        DownloadQuery,
        PithosError,
    >)
        ensures
            match query {
                Ok(q) => {
                    &&& match type_hint {
                        Some(raw) => q.type_hint matches Some(h) && media_type_text(raw@) == Some(
                            h@,
                        ),
                        None => q.type_hint is None,
                    }
                    &&& match ext_hint {
                        Some(raw) => q.ext_hint matches Some(e) && e.0@ == raw@ && is_extension(
                            raw@,
                        ),
                        None => q.ext_hint is None,
                    }
                },
                Err(PithosError::InvalidQuery(r)) => type_hint matches Some(raw) && r@ == raw@
                    && media_type_text(raw@) is None,
                Err(PithosError::InvalidExtension(e)) => {
                    &&& type_hint matches Some(raw) ==> media_type_text(raw@) is Some
                    &&& ext_hint matches Some(raw) && rejection(raw@) == Some(e)
                },
                Err(_) => false,
            },
    {
        let type_hint = match type_hint {
            Some(raw) => match TypeHint::parse(raw) {
                Ok(hint) => Some(hint),
                Err(error) => {
                    return Err(error);
                },
            },
            None => None,
        };
        let ext_hint = match ext_hint {
            Some(raw) => match FileExt::from_str(raw) {
                Ok(ext) => Some(ext),
                Err(cause) => {
                    return Err(PithosError::InvalidExtension(cause));
                },
            },
            None => None,
        };
        Ok(DownloadQuery { type_hint, ext_hint })
    }
}

/// The headers that describe a download to the client.
#[derive(Debug, Clone, PartialEq, Eq)]
pub struct DownloadHeaders {
    /// `Content-Length`: the size of the file in bytes.
    pub content_length: u64,
    /// `Content-Type`, where the request gave a type hint.
    pub content_type: Option<String>,
    /// `Content-Disposition`, where the request gave a hint.
    pub content_disposition: Option<String>,
}

/// The `Content-Disposition` that names a download after its identifier and
/// the extension `ext`.
pub open spec fn attachment(id: FileId, ext: Seq<char>) -> Seq<char> {
    "attachment; filename=\""@ + hyphenated(id.value) + ext + "\""@
}

/// The `Content-Type` of a download: the type hint, where there is one that
/// can stand in a header.
pub open spec fn spec_content_type(type_hint: Option<TypeHint>) -> Option<Seq<char>> {
    match type_hint {
        Some(hint) if is_header_value(encode_utf8(hint@)) => Some(hint@),
        _ => None,
    }
}

/// The `Content-Disposition` of a download: the file as an attachment named
/// with the extension hint, where there is one that can stand in a header;
/// else `inline` beside a `Content-Type`; else none.
pub open spec fn spec_content_disposition(
    type_hint: Option<TypeHint>,
    ext_hint: Option<FileExt>,
    id: FileId,
) -> Option<Seq<char>> {
    match ext_hint {
        Some(ext) if is_header_value(encode_utf8(attachment(id, ext.0@))) => Some(
            attachment(id, ext.0@),
        ),
        _ => match spec_content_type(type_hint) {
            Some(_) => Some("inline"@),
            None => None,
        },
    }
}

/// The view of a text that may be missing.
pub open spec fn text_of(text: Option<String>) -> Option<Seq<char>> {
    match text {
        Some(t) => Some(t@),
        None => None,
    }
}

/// The headers of the download of the file `id`, which has `size` bytes.
/// The hints are advice for the client's presentation and do not change what
/// is sent.
pub fn download_headers(size: u64, query: &DownloadQuery, id: FileId) -> (headers: DownloadHeaders)
    ensures
        headers.content_length == size,
        text_of(headers.content_type) == spec_content_type(query.type_hint),
        text_of(headers.content_disposition) == spec_content_disposition(
            query.type_hint,
            query.ext_hint,
            id,
        ),
{
    let mut content_type: Option<String> = None;
    let mut content_disposition: Option<String> = None;
    match &query.type_hint {
        Some(hint) => {
            if accepted_as_header_value(hint.as_str()) {
                content_type = Some(String::from_str(hint.as_str()));
                content_disposition = Some(String::from_str("inline"));
            }
        },
        None => {},
    }
    match &query.ext_hint {
        Some(ext) => {
            let mut value = String::from_str("attachment; filename=\"");
            value.append(id.to_string().as_str());
            value.append(ext.0.as_str());
            value.append("\"");
            if accepted_as_header_value(value.as_str()) {
                content_disposition = Some(value);
            }
        },
        None => {},
    }
    DownloadHeaders { content_length: size, content_type, content_disposition }
}

} // verus!
